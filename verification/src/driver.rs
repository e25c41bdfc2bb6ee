//! The driver of the MU1603: the state of the device and the sequencer that
//! feeds the command sequences to the bus, one transfer at a time.
//!
//! The driver performs no transfer itself. A command method queues what is to
//! be sent; [`Mu1603::next_transfer`] hands out the transfer that is due, and
//! [`Mu1603::advance`] takes what became of it. Transfers go out strictly in
//! order: the next one is handed out only after the one before was answered.
//! The state of the device changes only when a start or stop sequence has
//! been answered to its end.

use vstd::prelude::*;
use std::collections::VecDeque;
use crate::frame::FrameReader;
use crate::state::{
    exposure_registers, AnalogGain, ExposureTime, Mu1603BitDepth, Mu1603Mode, Mu1603State,
};
use crate::usb::{
    null_key_commands, null_key_table, sensor_program_commands, sensor_program_table,
    set_analog_gain_commands, set_analog_gain_table, set_exposure_commands, set_exposure_table,
    spec_request_type, start_stream_commands, start_stream_table, stop_stream_commands,
    stop_stream_table, Command, Direction, Recipient, RequestType, Transfer, DEFAULT_VAL_1061,
    SENSOR_ACK,
};

verus! {

/// A failure of the transport, as the USB stack reports it.
#[derive(Copy, Clone, Debug, PartialEq, Eq, Structural)]
pub enum UsbError {
    Io,
    InvalidParam,
    Access,
    NoDevice,
    NotFound,
    Busy,
    Timeout,
    Overflow,
    Pipe,
    Interrupted,
    NoMem,
    NotSupported,
    BadDescriptor,
    Other,
}

/// What can go wrong between the driver and the camera.
#[derive(Copy, Clone, Debug, PartialEq, Eq, Structural)]
pub enum Mu1603Error {
    /// The transport failed.
    Rusb(UsbError),
    /// The frame that was read is shorter than a whole frame. This is the
    /// case for the first frame after initialization: discard it and read on.
    FirstFrame,
    Unimplemented,
    /// A frame was asked for while no stream is running.
    NotStreaming,
    /// The device did not acknowledge the sensor command with this index and
    /// value.
    FailedSensorCmd(u16, u16),
}

impl From<UsbError> for Mu1603Error {
    fn from(e: UsbError) -> (res: Self) {
        Mu1603Error::Rusb(e)
    }
}

impl vstd::std_specs::convert::FromSpecImpl<UsbError> for Mu1603Error {
    open spec fn obeys_from_spec() -> bool {
        true
    }

    open spec fn from_spec(e: UsbError) -> Self {
        Mu1603Error::Rusb(e)
    }
}

/// A step on the way to an opened camera.
#[derive(Copy, Clone, Debug, PartialEq, Eq, Structural)]
pub enum OpenStep {
    /// Look for a device with these identifiers and open it. The answer is
    /// whether one was found.
    Find { vendor_id: u16, product_id: u16 },
    /// Ask whether a kernel driver holds the interface. The answer is
    /// whether one does.
    KernelDriverActive { interface: u8 },
    DetachKernelDriver { interface: u8 },
    SetActiveConfiguration { config: u8 },
    ClaimInterface { interface: u8 },
    /// The camera is open and its interface is claimed.
    Opened,
    /// The camera could not be opened.
    Failed(UsbError),
}

impl OpenStep {
    /// The step that follows when a step was answered. A device that is not
    /// found is `NoDevice`. A kernel driver is detached only where the
    /// question for it was answered with yes; a question that failed counts
    /// as no. Any other step that fails ends the attempt with its error, and
    /// after the interface was claimed the camera is open.
    pub open spec fn spec_next(self, outcome: Result<bool, UsbError>) -> OpenStep {
        match self {
            OpenStep::Find { .. } => match outcome {
                Ok(true) => OpenStep::KernelDriverActive { interface: 0 },
                Ok(false) => OpenStep::Failed(UsbError::NoDevice),
                Err(e) => OpenStep::Failed(e),
            },
            OpenStep::KernelDriverActive { interface } => match outcome {
                Ok(true) => OpenStep::DetachKernelDriver { interface },
                _ => OpenStep::SetActiveConfiguration { config: 1 },
            },
            OpenStep::DetachKernelDriver { .. } => match outcome {
                Ok(_) => OpenStep::SetActiveConfiguration { config: 1 },
                Err(e) => OpenStep::Failed(e),
            },
            OpenStep::SetActiveConfiguration { .. } => match outcome {
                Ok(_) => OpenStep::ClaimInterface { interface: 0 },
                Err(e) => OpenStep::Failed(e),
            },
            OpenStep::ClaimInterface { .. } => match outcome {
                Ok(_) => OpenStep::Opened,
                Err(e) => OpenStep::Failed(e),
            },
            OpenStep::Opened => OpenStep::Opened,
            OpenStep::Failed(e) => OpenStep::Failed(e),
        }
    }

    #[verifier::when_used_as_spec(spec_next)]
    pub fn next(self, outcome: Result<bool, UsbError>) -> (step: OpenStep)
        ensures
            step == self.spec_next(outcome),
    {
        match self {
            OpenStep::Find { .. } => match outcome {
                Ok(true) => OpenStep::KernelDriverActive { interface: 0 },
                Ok(false) => OpenStep::Failed(UsbError::NoDevice),
                Err(e) => OpenStep::Failed(e),
            },
            OpenStep::KernelDriverActive { interface } => match outcome {
                Ok(true) => OpenStep::DetachKernelDriver { interface },
                _ => OpenStep::SetActiveConfiguration { config: 1 },
            },
            OpenStep::DetachKernelDriver { .. } => match outcome {
                Ok(_) => OpenStep::SetActiveConfiguration { config: 1 },
                Err(e) => OpenStep::Failed(e),
            },
            OpenStep::SetActiveConfiguration { .. } => match outcome {
                Ok(_) => OpenStep::ClaimInterface { interface: 0 },
                Err(e) => OpenStep::Failed(e),
            },
            OpenStep::ClaimInterface { .. } => match outcome {
                Ok(_) => OpenStep::Opened,
                Err(e) => OpenStep::Failed(e),
            },
            OpenStep::Opened => OpenStep::Opened,
            OpenStep::Failed(e) => OpenStep::Failed(e),
        }
    }
}

/// What became of the transfer that was handed out last.
#[derive(Copy, Clone, Debug, PartialEq, Eq, Structural)]
pub enum Reply {
    /// It completed. `status` is the first byte that the device sent, and 0
    /// where it sent none.
    Completed { status: u8 },
    /// It failed.
    Failed(UsbError),
}

/// The change of state that takes effect when the queue has been answered to
/// its end.
#[derive(Copy, Clone, Debug, PartialEq, Eq, Structural)]
pub enum Goal {
    /// No change.
    Keep,
    /// A stream in this mode is running.
    Streaming(Mu1603Mode),
    /// No stream is running.
    Stopped,
}

/// The state in which a stream starts: frame counter 0, the requested mode,
/// the default exposure of 94 ms, the default gain of 100 percent, 8 bits.
pub open spec fn initial_state(mode: Mu1603Mode) -> Mu1603State {
    Mu1603State {
        id: 0,
        mode,
        exposure: ExposureTime::spec_new_from_us(94_000),
        analog_gain: AnalogGain::spec_new_from_percent(100),
        bitdepth: Mu1603BitDepth::Depth8,
    }
}

/// The value of the gain register for a gain, where it is known. Only the
/// value for the default gain of 100 percent is.
pub open spec fn spec_gain_register(gain: AnalogGain) -> Option<u16> {
    if gain.spec_value() == 100 {
        Some(DEFAULT_VAL_1061)
    } else {
        None
    }
}

#[verifier::when_used_as_spec(spec_gain_register)]
pub fn gain_register(gain: AnalogGain) -> (val1061: Option<u16>)
    ensures
        val1061 == spec_gain_register(gain),
{
    if gain.percent() == 100 {
        Some(DEFAULT_VAL_1061)
    } else {
        None
    }
}

/// The driver as its contracts see it.
pub struct DriverView {
    /// The state of the running stream, if one is running.
    pub state: Option<Mu1603State>,
    /// The state of the stream that was stopped last.
    pub prev_state: Option<Mu1603State>,
    /// The commands that were not answered yet; the first is under way.
    pub pending: Seq<Command>,
    /// The first command is a sensor command that was acknowledged and whose
    /// read-back is due.
    pub second: bool,
    /// What takes effect when `pending` is empty again.
    pub goal: Goal,
}

impl DriverView {
    /// The transfer that is due.
    pub open spec fn next_transfer(self) -> Option<Transfer> {
        if self.pending.len() == 0 {
            None
        } else {
            Some(
                self.pending[0].spec_transfer(
                    if self.second {
                        1
                    } else {
                        0
                    },
                ),
            )
        }
    }

    /// With `cmds` queued behind what is pending.
    pub open spec fn enqueue(self, cmds: Seq<Command>) -> DriverView {
        DriverView { pending: self.pending + cmds, ..self }
    }

    /// With the queue dropped and no change of state to come.
    pub open spec fn aborted(self) -> DriverView {
        DriverView { pending: Seq::empty(), second: false, goal: Goal::Keep, ..self }
    }

    /// With the goal taken: the queue was answered to its end.
    pub open spec fn settled(self) -> DriverView {
        DriverView {
            state: match self.goal {
                Goal::Keep => self.state,
                Goal::Streaming(mode) => Some(initial_state(mode)),
                Goal::Stopped => None,
            },
            prev_state: if self.goal == Goal::Stopped {
                self.state
            } else {
                self.prev_state
            },
            pending: Seq::empty(),
            second: false,
            goal: Goal::Keep,
        }
    }

    /// Whether the reply fails the command that is under way: the transport
    /// failed, or a sensor command was not acknowledged.
    pub open spec fn failure(self, reply: Reply) -> Option<Mu1603Error> {
        if self.pending.len() == 0 {
            None
        } else {
            match reply {
                Reply::Failed(e) => Some(Mu1603Error::Rusb(e)),
                Reply::Completed { status } => match self.pending[0] {
                    Command::Sensor { idx, val } => if !self.second && status != SENSOR_ACK {
                        Some(Mu1603Error::FailedSensorCmd(idx, val))
                    } else {
                        None
                    },
                    _ => None,
                },
            }
        }
    }

    /// Whether a reply that does not fail the command leaves its second step
    /// to do.
    pub open spec fn awaits_readback(self) -> bool {
        self.pending.len() > 0 && !self.second && self.pending[0] is Sensor
    }

    /// The driver after a reply came in.
    pub open spec fn advance(self, reply: Reply) -> DriverView {
        if self.pending.len() == 0 {
            self
        } else if self.failure(reply) is Some {
            self.aborted()
        } else if self.awaits_readback() {
            DriverView { second: true, ..self }
        } else if self.pending.len() > 1 {
            DriverView { pending: self.pending.drop_first(), second: false, ..self }
        } else {
            self.settled()
        }
    }

    /// Whether the start sequence is under way.
    pub open spec fn starting(self) -> bool {
        self.goal is Streaming && self.pending.len() > 0
    }

    /// Whether the stop sequence is under way.
    pub open spec fn stopping(self) -> bool {
        self.goal == Goal::Stopped && self.pending.len() > 0
    }

    /// The driver after a stream was asked for: nothing changes while one
    /// is running or is being started.
    pub open spec fn start_stream(self, mode: Mu1603Mode) -> DriverView {
        if self.state is Some || self.starting() {
            self
        } else {
            DriverView { goal: Goal::Streaming(mode), ..self.enqueue(start_stream_table(mode)) }
        }
    }

    /// The driver after the end of the stream was asked for: nothing changes
    /// while none is running or the running one is being stopped.
    pub open spec fn stop_stream(self) -> DriverView {
        if self.state is None || self.stopping() {
            self
        } else {
            DriverView { goal: Goal::Stopped, ..self.enqueue(stop_stream_table()) }
        }
    }

    /// The driver after an exposure of `us` microseconds was asked for on a
    /// sensor of `lines` lines: while a stream runs, the exposure sequence is
    /// queued with the registers of the clamped exposure in the mode of the
    /// stream. Without a stream nothing changes.
    pub open spec fn set_exposure_time(self, us: usize, lines: u16) -> DriverView {
        match self.state {
            Some(state) => {
                let regs = exposure_registers(
                    ExposureTime::spec_new_from_us(us as int).spec_value() as int,
                    state.mode.spec_max_hsync() as int,
                    lines as int,
                );
                self.enqueue(set_exposure_table(regs.0, regs.2))
            },
            None => self,
        }
    }

    /// The driver after a gain of `percent` percent was asked for: while a
    /// stream runs and the register value of the clamped gain is known, the
    /// gain sequence is queued. Else nothing changes.
    pub open spec fn set_gain(self, percent: usize) -> DriverView {
        match spec_gain_register(AnalogGain::spec_new_from_percent(percent)) {
            Some(val1061) => if self.state is Some {
                self.enqueue(set_analog_gain_table(val1061))
            } else {
                self
            },
            None => self,
        }
    }

    /// Number of replies that answer the queue to its end when nothing
    /// fails: two for each sensor command, one for each other command.
    pub open spec fn steps_left(self) -> nat
        decreases self.pending.len(),
    {
        if self.pending.len() == 0 {
            0
        } else if self.awaits_readback() {
            2 + (DriverView { pending: self.pending.drop_first(), ..self }).steps_left()
        } else {
            1 + (DriverView {
                pending: self.pending.drop_first(),
                second: false,
                ..self
            }).steps_left()
        }
    }

    /// The driver after every transfer that is due has completed and every
    /// sensor command was acknowledged.
    pub open spec fn run(self) -> DriverView
        decreases self.steps_left(),
    {
        if self.pending.len() == 0 {
            self
        } else {
            self.advance(Reply::Completed { status: SENSOR_ACK }).run()
        }
    }
}

/// A queue that is answered to its end without a failure takes its goal:
/// the stream runs in its initial state after a start sequence, and none
/// runs after a stop sequence.
pub proof fn lemma_run_takes_goal(v: DriverView)
    requires
        v.pending.len() > 0,
    ensures
        v.run() == v.settled(),
    decreases v.steps_left(),
{
    let w = v.advance(Reply::Completed { status: SENSOR_ACK });
    assert(v.failure(Reply::Completed { status: SENSOR_ACK }) is None);
    assert(v.run() == w.run());
    if w.pending.len() > 0 {
        lemma_run_takes_goal(w);
        assert(w.settled() == v.settled());
    } else {
        assert(w.run() == w);
        assert(w == v.settled());
    }
}

/// A failed transfer, or a sensor command that is not acknowledged, ends the
/// sequence at once: nothing stays queued, and the state of the device is the
/// one from before the sequence.
pub proof fn lemma_failure_aborts(v: DriverView, reply: Reply)
    requires
        v.failure(reply) is Some,
    ensures
        v.advance(reply).pending.len() == 0,
        v.advance(reply).state == v.state,
        v.advance(reply).prev_state == v.prev_state,
        v.advance(reply).run() == v.advance(reply),
{
}

/// Asking for a stream twice sends the start sequence once. A second request
/// changes nothing, whatever mode it names, whether it comes while the first
/// is under way, at any point of it, or after it was answered to its end,
/// when the stream runs.
pub proof fn lemma_second_start_is_ignored(v: DriverView, first: Mu1603Mode, second: Mu1603Mode)
    requires
        v.state is None,
        v.pending.len() == 0,
    ensures
        v.start_stream(first).pending == start_stream_table(first),
        v.start_stream(first).start_stream(second) == v.start_stream(first),
        v.start_stream(first).run().state == Some(initial_state(first)),
        v.start_stream(first).run().pending.len() == 0,
        v.start_stream(first).run().start_stream(second) == v.start_stream(first).run(),
{
    let started = v.start_stream(first);
    assert(v.pending + start_stream_table(first) =~= start_stream_table(first));
    assert(crate::usb::arm_table().len() == 2);
    assert(start_stream_table(first).len() >= 2);
    lemma_run_takes_goal(started);
}

/// Answering a transfer of a start sequence that goes on leaves the start
/// under way: a request for a stream is ignored at every point of it.
pub proof fn lemma_start_stays_under_way(v: DriverView, reply: Reply, mode: Mu1603Mode)
    requires
        v.starting(),
        v.state is None,
        v.advance(reply).pending.len() > 0,
    ensures
        v.advance(reply).starting(),
        v.advance(reply).start_stream(mode) == v.advance(reply),
{
}

/// Stopping a stream that was answered to its end leaves no stream running
/// and keeps the state it had; a second request to stop changes nothing,
/// before or after that.
pub proof fn lemma_stop_ends_stream(v: DriverView)
    requires
        v.state is Some,
        v.pending.len() == 0,
    ensures
        v.stop_stream().stop_stream() == v.stop_stream(),
        v.stop_stream().run().state is None,
        v.stop_stream().run().prev_state == v.state,
        v.stop_stream().run().stop_stream() == v.stop_stream().run(),
{
    let stopping = v.stop_stream();
    assert(stop_stream_table().len() == 5);
    lemma_run_takes_goal(stopping);
}

/// The two request types of the driver are those of a vendor request to the
/// device, and every transfer of a command goes out under one of them.
pub proof fn lemma_request_types(cmd: Command, phase: nat)
    ensures
        Mu1603::REQ_TYPE_IN == spec_request_type(
            Direction::In,
            RequestType::Vendor,
            Recipient::Device,
        ),
        Mu1603::REQ_TYPE_OUT == spec_request_type(
            Direction::Out,
            RequestType::Vendor,
            Recipient::Device,
        ),
        cmd.spec_transfer(phase) matches Transfer::Read { request_type, .. } ==> request_type
            == Mu1603::REQ_TYPE_IN,
        cmd.spec_transfer(phase) matches Transfer::Write { request_type, .. } ==> request_type
            == Mu1603::REQ_TYPE_OUT,
{
}

/// The driver of one opened camera.
pub struct Mu1603 {
    state: Option<Mu1603State>,
    prev_state: Option<Mu1603State>,
    queue: VecDeque<Command>,
    second: bool,
    goal: Goal,
}

impl View for Mu1603 {
    type V = DriverView;

    closed spec fn view(&self) -> DriverView {
        DriverView {
            state: self.state,
            prev_state: self.prev_state,
            pending: self.queue@,
            second: self.second,
            goal: self.goal,
        }
    }
}

impl Mu1603 {
    /// USB Vendor ID
    pub const VID: u16 = 0x0547;

    /// USB Product ID
    pub const PID: u16 = 0x3016;

    /// Default timeout for USB control transfers [in milliseconds]
    pub const TIMEOUT_MS: u64 = 5000;

    /// Default mode for initialization
    pub const DEFAULT_MODE: Mu1603Mode = Mu1603Mode::Mode1;

    /// Input vendor request type
    pub const REQ_TYPE_IN: u8 = 0xc0;

    /// Output vendor request type
    pub const REQ_TYPE_OUT: u8 = 0x40;

    /// Whether a device with these identifiers is the camera.
    pub fn is_camera(vendor_id: u16, product_id: u16) -> (yes: bool)
        ensures
            yes <==> vendor_id == 0x0547 && product_id == 0x3016,
    {
        vendor_id == Self::VID && product_id == Self::PID
    }

    /// Try to obtain a handle to the camera: the first step of it.
    pub fn try_open() -> (step: OpenStep)
        ensures
            step == (OpenStep::Find { vendor_id: 0x0547, product_id: 0x3016 }),
    {
        OpenStep::Find { vendor_id: Self::VID, product_id: Self::PID }
    }

    /// The driver of a device that was just opened: no stream is running and
    /// nothing is queued.
    pub fn new() -> (cam: Self)
        ensures
            cam@ == (DriverView {
                state: None,
                prev_state: None,
                pending: Seq::empty(),
                second: false,
                goal: Goal::Keep,
            }),
    {
        Self {
            state: None,
            prev_state: None,
            queue: VecDeque::new(),
            second: false,
            goal: Goal::Keep,
        }
    }

    pub fn state(&self) -> (s: Option<Mu1603State>)
        ensures
            s == self@.state,
    {
        self.state
    }

    pub fn is_streaming(&self) -> (yes: bool)
        ensures
            yes == self@.state is Some,
    {
        self.state.is_some()
    }

    /// Whether every queued command was answered.
    pub fn is_idle(&self) -> (yes: bool)
        ensures
            yes == (self@.pending.len() == 0),
    {
        self.queue.len() == 0
    }

    /// Takes `next_state` as the state of the running stream. Nothing is
    /// sent to the device.
    pub fn apply_state(&mut self, next_state: Mu1603State)
        ensures
            final(self)@ == (DriverView { state: Some(next_state), ..old(self)@ }),
    {
        self.state = Some(next_state);
    }

    /// Queues commands behind those that are pending.
    fn enqueue(&mut self, cmds: Vec<Command>)
        ensures
            final(self)@ == old(self)@.enqueue(cmds@),
    {
        let mut i: usize = 0;
        while i < cmds.len()
            invariant
                i <= cmds.len(),
                self.queue@ == old(self).queue@ + cmds@.take(i as int),
                self.state == old(self).state,
                self.prev_state == old(self).prev_state,
                self.second == old(self).second,
                self.goal == old(self).goal,
            decreases cmds.len() - i,
        {
            self.queue.push_back(cmds[i]);
            assert(cmds@.take(i + 1) == cmds@.take(i as int).push(cmds@[i as int]));
            i = i + 1;
        }
        assert(cmds@.take(cmds.len() as int) == cmds@);
    }

    /// Queues a vendor read of `len` bytes.
    pub fn ven_read(&mut self, req: u8, idx: u16, val: u16, len: usize)
        ensures
            final(self)@ == old(self)@.enqueue(seq![Command::VenRead { req, idx, val, len }]),
    {
        let mut cmds: Vec<Command> = Vec::new();
        cmds.push(Command::VenRead { req, idx, val, len });
        self.enqueue(cmds);
    }

    /// Queues a vendor write.
    pub fn ven_write(&mut self, req: u8, idx: u16, val: u16)
        ensures
            final(self)@ == old(self)@.enqueue(seq![Command::VenWrite { req, idx, val }]),
    {
        let mut cmds: Vec<Command> = Vec::new();
        cmds.push(Command::VenWrite { req, idx, val });
        self.enqueue(cmds);
    }

    /// Queues a command that sets a system register.
    pub fn system_cmd(&mut self, idx: u16, val: u16)
        ensures
            final(self)@ == old(self)@.enqueue(seq![Command::System { idx, val }]),
    {
        let mut cmds: Vec<Command> = Vec::new();
        cmds.push(Command::System { idx, val });
        self.enqueue(cmds);
    }

    /// Queues a command that sets a sensor register.
    pub fn sensor_cmd(&mut self, idx: u16, val: u16)
        ensures
            final(self)@ == old(self)@.enqueue(seq![Command::Sensor { idx, val }]),
    {
        let mut cmds: Vec<Command> = Vec::new();
        cmds.push(Command::Sensor { idx, val });
        self.enqueue(cmds);
    }

    /// Queues the handshake that sets the key `0x0000`.
    pub fn set_null_key(&mut self)
        ensures
            final(self)@ == old(self)@.enqueue(null_key_table()),
    {
        self.enqueue(null_key_commands());
    }

    /// Queues the sequence that sets the exposure registers.
    pub fn set_exposure(&mut self, val1064: u16, val5000: u16)
        ensures
            final(self)@ == old(self)@.enqueue(set_exposure_table(val1064, val5000)),
    {
        self.enqueue(set_exposure_commands(val1064, val5000));
    }

    /// Queues the sequence that sets the analog gain register.
    pub fn set_analog_gain(&mut self, val1061: u16)
        ensures
            final(self)@ == old(self)@.enqueue(set_analog_gain_table(val1061)),
    {
        self.enqueue(set_analog_gain_commands(val1061));
    }

    /// Queues the sensor programming sequence.
    pub fn sensor_program_sequence(&mut self, val_1004: u16, val_1006: u16)
        ensures
            final(self)@ == old(self)@.enqueue(sensor_program_table(val_1004, val_1006)),
    {
        self.enqueue(sensor_program_commands(val_1004, val_1006));
    }

    /// Sets the exposure of the running stream to `microseconds`, clamped to
    /// the limits, for a sensor that reads out `num_lines` lines per frame.
    /// The register values follow from the mode of the stream. Returns the
    /// exposure whose sequence was queued; without a stream nothing is
    /// queued.
    pub fn set_exposure_time(&mut self, microseconds: usize, num_lines: u16) -> (queued: Option<
        ExposureTime,
    >)
        requires
            num_lines > 0,
        ensures
            final(self)@ == old(self)@.set_exposure_time(microseconds, num_lines),
            queued == if old(self)@.state is Some {
                Some(ExposureTime::spec_new_from_us(microseconds as int))
            } else {
                None
            },
    {
        match self.state {
            Some(state) => {
                let exposure = ExposureTime::new_from_us(microseconds);
                match exposure.convert(state.mode, num_lines) {
                    Some((val1064, _, val5000)) => {
                        self.set_exposure(val1064, val5000);
                        Some(exposure)
                    },
                    None => None,
                }
            },
            None => None,
        }
    }

    /// Sets the gain of the running stream to `percent`, clamped to the
    /// limits. Returns the gain whose sequence was queued. Nothing is queued
    /// without a stream, nor for a gain whose register value is not known.
    pub fn set_gain(&mut self, percent: usize) -> (queued: Option<AnalogGain>)
        ensures
            final(self)@ == old(self)@.set_gain(percent),
            queued == if old(self)@.state is Some && spec_gain_register(
                AnalogGain::spec_new_from_percent(percent),
            ) is Some {
                Some(AnalogGain::spec_new_from_percent(percent))
            } else {
                None
            },
    {
        let gain = AnalogGain::new_from_percent(percent);
        match gain_register(gain) {
            Some(val1061) => {
                if self.is_streaming() {
                    self.set_analog_gain(val1061);
                    Some(gain)
                } else {
                    None
                }
            },
            None => None,
        }
    }

    /// Starts a stream in `init_mode`. While a stream is running, or while
    /// the start sequence is under way, this does nothing. Else the start
    /// sequence is queued, and the stream counts as running once the whole
    /// queue has been answered.
    pub fn start_stream(&mut self, init_mode: Mu1603Mode)
        ensures
            final(self)@ == old(self)@.start_stream(init_mode),
    {
        if self.is_streaming() {
            return ;
        }
        if let Goal::Streaming(_) = self.goal {
            if self.queue.len() > 0 {
                return ;
            }
        }
        self.enqueue(start_stream_commands(init_mode));
        self.goal = Goal::Streaming(init_mode);
    }

    /// Stops the stream. While no stream is running, or while the stop
    /// sequence is under way, this does nothing. Else the stop sequence is
    /// queued, and the stream counts as stopped once the whole queue has been
    /// answered.
    pub fn stop_stream(&mut self)
        ensures
            final(self)@ == old(self)@.stop_stream(),
    {
        if !self.is_streaming() {
            return ;
        }
        if let Goal::Stopped = self.goal {
            if self.queue.len() > 0 {
                return ;
            }
        }
        self.enqueue(stop_stream_commands());
        self.goal = Goal::Stopped;
    }

    /// The transfer that is due, if any command is pending.
    pub fn next_transfer(&self) -> (t: Option<Transfer>)
        ensures
            t == self@.next_transfer(),
    {
        if self.queue.len() == 0 {
            None
        } else {
            Some(self.queue[0].transfer(self.second))
        }
    }

    /// Takes what became of the transfer that was handed out last.
    ///
    /// A failed transfer, or a sensor command that the device did not
    /// acknowledge, drops everything that is queued and is returned as the
    /// error; the state of the device stays as it was. Else the driver moves
    /// on to the next transfer, and when the last one was answered the change
    /// of state that the queue was heading for takes effect. With nothing
    /// pending the reply is ignored.
    pub fn advance(&mut self, reply: Reply) -> (res: Result<(), Mu1603Error>)
        ensures
            final(self)@ == old(self)@.advance(reply),
            res == match old(self)@.failure(reply) {
                Some(e) => Err::<(), Mu1603Error>(e),
                None => Ok::<(), Mu1603Error>(()),
            },
    {
        if self.queue.len() == 0 {
            return Ok(());
        }
        let head = self.queue[0];
        let status = match reply {
            Reply::Failed(e) => {
                self.abort();
                return Err(Mu1603Error::from(e));
            },
            Reply::Completed { status } => status,
        };
        if let Command::Sensor { idx, val } = head {
            if !self.second {
                if status != SENSOR_ACK {
                    self.abort();
                    return Err(Mu1603Error::FailedSensorCmd(idx, val));
                }
                self.second = true;
                return Ok(());
            }
        }
        let _ = self.queue.pop_front();
        self.second = false;
        if self.queue.len() == 0 {
            self.settle();
        }
        Ok(())
    }

    fn abort(&mut self)
        ensures
            final(self)@ == old(self)@.aborted(),
    {
        self.queue.clear();
        self.second = false;
        self.goal = Goal::Keep;
    }

    fn settle(&mut self)
        requires
            old(self)@.pending.len() == 0,
        ensures
            final(self)@ == old(self)@.settled(),
    {
        match self.goal {
            Goal::Keep => {},
            Goal::Streaming(mode) => {
                let state = Mu1603State {
                    id: 0,
                    mode,
                    analog_gain: AnalogGain::new_from_percent(100),
                    exposure: ExposureTime::new_from_us(94_000),
                    bitdepth: Mu1603BitDepth::Depth8,
                };
                self.state = Some(state);
            },
            Goal::Stopped => {
                self.prev_state = self.state;
                self.state = None;
            },
        }
        self.second = false;
        self.goal = Goal::Keep;
        assert(self.queue@ =~= Seq::<Command>::empty());
    }

    /// Begins to read a frame of the running stream. Without a running
    /// stream this fails at once with `NotStreaming`.
    pub fn try_read_frame(&self) -> (res: Result<FrameReader, Mu1603Error>)
        ensures
            self@.state is None ==> res == Err::<FrameReader, Mu1603Error>(
                Mu1603Error::NotStreaming,
            ),
            self@.state matches Some(s) ==> res matches Ok(reader) && reader@
                == crate::frame::ReaderView::start(
                crate::state::raw_frame_len(s.mode, s.bitdepth),
            ),
    {
        match self.state {
            Some(state) => Ok(FrameReader::new(&state)),
            None => Err(Mu1603Error::NotStreaming),
        }
    }
}

} // verus!
