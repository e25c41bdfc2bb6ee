//! The decisions of the camera thread.
//!
//! The thread turns in a loop: it looks for a control message, carries out
//! what the message asks for, sleeps for a moment, and then, if a camera is
//! connected, reads a frame and offers it to the shared buffer. What is to be
//! done in each turn is decided here; the thread itself owns the channels,
//! the device and the lock.

use vstd::prelude::*;
use crate::driver::{DriverView, Mu1603, Mu1603Error, Reply, UsbError};
use crate::frame::{FrameReader, ReaderView};
use crate::ipc::{CameraMessage, ControlMessage};
use crate::shared::{Publish, SharedFrameBuffer};
use crate::state::{raw_frame_len, Mu1603Mode, Mu1603State};
use crate::usb::Transfer;

verus! {

/// How long the thread sleeps in a turn [in milliseconds].
pub const POLL_INTERVAL_MS: u64 = 1;

/// Why the camera thread ended.
#[derive(Copy, Clone, Debug, PartialEq, Eq, Structural)]
pub enum CameraThreadError {
    /// The thread was asked to shut down.
    Terminated,
    /// The device disappeared from the bus.
    DeviceLost,
}

/// What a look at the control channel found.
#[derive(Copy, Clone, Debug, PartialEq, Eq, Structural)]
pub enum Poll {
    Message(ControlMessage),
    /// No message, nothing for us to do
    Empty,
    /// Channel disconnected: the other side is gone
    Disconnected,
}

/// What a control message asks to be done on the device.
#[derive(Copy, Clone, Debug, PartialEq, Eq, Structural)]
pub enum Request {
    Nothing,
    /// Open the device and report with [`CameraThreadState::opened`].
    OpenDevice,
    /// Carry out the transfers that the driver has queued, one by one, and
    /// report each with [`CameraThreadState::advance`].
    RunDriver,
}

/// How a turn of the loop goes on after the look at the control channel.
#[derive(Copy, Clone, Debug, PartialEq, Eq)]
pub enum Step {
    /// Carry out the request, sleep, then read a frame.
    Continue { request: Request, sleep_ms: u64 },
    /// Leave the loop with this result.
    Exit(Result<(), CameraThreadError>),
}

/// How a turn of the loop ends after a frame was read, or was not.
#[derive(Copy, Clone, Debug, PartialEq, Eq)]
pub enum FrameStep {
    /// The frame was offered to the shared buffer, with this outcome.
    Offered(Publish),
    /// No stream is running: sleep before the next turn.
    Sleep { sleep_ms: u64 },
    /// The frame is dropped; go on with the next turn.
    Skip,
    /// Leave the loop with this result.
    Exit(Result<(), CameraThreadError>),
}

/// The camera thread as its contracts see it.
pub struct CameraView {
    /// The driver of the camera, if one is connected.
    pub cam: Option<DriverView>,
    /// The user interface is owed the news that the camera is connected.
    pub announce: bool,
}

impl CameraView {
    pub open spec fn is_connected(self) -> bool {
        self.cam is Some
    }

    pub open spec fn is_streaming(self) -> bool {
        self.cam is Some && self.cam->0.state is Some
    }

    /// What a request to connect leads to: it is ignored while a camera is
    /// connected.
    pub open spec fn handle_connect(self) -> Request {
        if self.is_connected() {
            Request::Nothing
        } else {
            Request::OpenDevice
        }
    }

    /// The thread after a request to disconnect: the stream of a connected
    /// camera is stopped.
    pub open spec fn handle_disconnect(self) -> (CameraView, Request) {
        match self.cam {
            Some(cam) => (CameraView { cam: Some(cam.stop_stream()), ..self }, Request::RunDriver),
            None => (self, Request::Nothing),
        }
    }

    /// The thread after a control message, with what is to be done on the
    /// device, or with the reason why the thread ends.
    pub open spec fn handle_msg(self, msg: ControlMessage) -> (
        CameraView,
        Result<Request, CameraThreadError>,
    ) {
        match msg {
            ControlMessage::Connect => (self, Ok(self.handle_connect())),
            ControlMessage::Update(_) => (self, Ok(Request::Nothing)),
            ControlMessage::Disconnect => (
                self.handle_disconnect().0,
                Ok(self.handle_disconnect().1),
            ),
            ControlMessage::Shutdown => (self, Err(CameraThreadError::Terminated)),
        }
    }

    /// The thread after a look at the control channel, with how the turn
    /// goes on.
    pub open spec fn on_control(self, poll: Poll) -> (CameraView, Step) {
        match poll {
            Poll::Message(msg) => match self.handle_msg(msg).1 {
                Ok(request) => (
                    self.handle_msg(msg).0,
                    Step::Continue { request, sleep_ms: POLL_INTERVAL_MS },
                ),
                Err(e) => (self.handle_msg(msg).0, Step::Exit(Err(e))),
            },
            Poll::Empty => (
                self,
                Step::Continue { request: Request::Nothing, sleep_ms: POLL_INTERVAL_MS },
            ),
            Poll::Disconnected => (self, Step::Exit(Ok(()))),
        }
    }

    /// The thread after a transfer was answered, with the news for the user
    /// interface or the error that ended the sequence.
    pub open spec fn advance(self, reply: Reply) -> (
        CameraView,
        Result<Option<CameraMessage>, Mu1603Error>,
    ) {
        match self.cam {
            None => (self, Ok(None)),
            Some(cam) => {
                let next = cam.advance(reply);
                match cam.failure(reply) {
                    Some(e) => (CameraView { cam: Some(next), ..self }, Err(e)),
                    None => if self.announce && next.pending.len() == 0 && next.state is Some {
                        (
                            CameraView { cam: Some(next), announce: false },
                            Ok(Some(CameraMessage::Connected(next.state->0))),
                        )
                    } else {
                        (CameraView { cam: Some(next), ..self }, Ok(None))
                    },
                }
            },
        }
    }

    /// The thread after the device was opened, or could not be.
    pub open spec fn opened(self, result: Result<(), UsbError>) -> CameraView {
        if result is Ok && self.cam is None {
            CameraView {
                cam: Some(
                    (DriverView {
                        state: None,
                        prev_state: None,
                        pending: Seq::empty(),
                        second: false,
                        goal: crate::driver::Goal::Keep,
                    }).start_stream(Mu1603Mode::Mode1),
                ),
                announce: true,
            }
        } else {
            self
        }
    }
}

/// How a turn ends for an error that reading a frame gave: the thread waits
/// where no stream runs, ends where the device is gone, and else drops the
/// frame and goes on.
pub open spec fn frame_error_step(e: Mu1603Error) -> FrameStep {
    match e {
        Mu1603Error::NotStreaming => FrameStep::Sleep { sleep_ms: POLL_INTERVAL_MS },
        Mu1603Error::Rusb(UsbError::NoDevice) => FrameStep::Exit(
            Err(CameraThreadError::DeviceLost),
        ),
        _ => FrameStep::Skip,
    }
}

/// State associated with the camera thread.
pub struct CameraThreadState {
    /// Object used to control the camera
    cam: Option<Mu1603>,
    /// The camera was opened and the user interface was not told yet
    announce: bool,
}

impl View for CameraThreadState {
    type V = CameraView;

    closed spec fn view(&self) -> CameraView {
        CameraView {
            cam: match self.cam {
                Some(cam) => Some(cam@),
                None => None,
            },
            announce: self.announce,
        }
    }
}

impl CameraThreadState {
    /// A thread without a camera.
    pub fn new() -> (res: Self)
        ensures
            res@ == (CameraView { cam: None, announce: false }),
    {
        Self { cam: None, announce: false }
    }

    pub fn is_connected(&self) -> (yes: bool)
        ensures
            yes == self@.is_connected(),
    {
        self.cam.is_some()
    }

    pub fn is_streaming(&self) -> (yes: bool)
        ensures
            yes == self@.is_streaming(),
    {
        if let Some(cam) = &self.cam {
            cam.is_streaming()
        } else {
            false
        }
    }

    /// Whether the camera is among the devices with these vendor and product
    /// identifiers.
    pub fn is_device_present(devices: &[(u16, u16)]) -> (yes: bool)
        ensures
            yes <==> exists|i: int|
                0 <= i < devices@.len() && #[trigger] devices@[i] == (0x0547u16, 0x3016u16),
    {
        let mut i: usize = 0;
        while i < devices.len()
            invariant
                i <= devices.len(),
                forall|j: int| 0 <= j < i ==> #[trigger] devices@[j] != (0x0547u16, 0x3016u16),
            decreases devices.len() - i,
        {
            let (vendor_id, product_id) = devices[i];
            if Mu1603::is_camera(vendor_id, product_id) {
                return true;
            }
            i = i + 1;
        }
        false
    }

    /// Handle a request to connect to the camera.
    pub fn handle_connect(&self) -> (request: Request)
        ensures
            request == self@.handle_connect(),
    {
        // Ignore this message if we're already connected.
        if self.is_connected() {
            Request::Nothing
        } else {
            Request::OpenDevice
        }
    }

    /// Takes what became of the attempt to open the device. A device that
    /// was opened gets a driver with the start sequence for the default mode
    /// queued; a failure is news for the user interface.
    pub fn opened(&mut self, result: Result<(), UsbError>) -> (news: Option<CameraMessage>)
        ensures
            final(self)@ == old(self)@.opened(result),
            result is Ok ==> news is None,
            result matches Err(e) ==> news == Some(CameraMessage::ConnectFailure(e)),
    {
        match result {
            Ok(()) => {
                if self.cam.is_none() {
                    let mut cam = Mu1603::new();
                    cam.start_stream(Mu1603::DEFAULT_MODE);
                    self.cam = Some(cam);
                    self.announce = true;
                }
                None
            },
            Err(e) => Some(CameraMessage::ConnectFailure(e)),
        }
    }

    /// Handle a request to disconnect from the camera.
    pub fn handle_disconnect(&mut self) -> (request: Request)
        ensures
            final(self)@ == old(self)@.handle_disconnect().0,
            request == old(self)@.handle_disconnect().1,
    {
        match &mut self.cam {
            Some(cam) => {
                cam.stop_stream();
                Request::RunDriver
            },
            None => Request::Nothing,
        }
    }

    /// Handle a request to update camera settings.
    pub fn handle_update(&self, state: Mu1603State) -> (request: Request)
        ensures
            request == Request::Nothing,
    {
        Request::Nothing
    }

    /// Handle a message from the egui thread.
    pub fn handle_msg(&mut self, msg: ControlMessage) -> (res: Result<Request, CameraThreadError>)
        ensures
            final(self)@ == old(self)@.handle_msg(msg).0,
            res == old(self)@.handle_msg(msg).1,
    {
        match msg {
            ControlMessage::Connect => Ok(self.handle_connect()),
            ControlMessage::Update(state) => Ok(self.handle_update(state)),
            ControlMessage::Disconnect => Ok(self.handle_disconnect()),
            ControlMessage::Shutdown => Err(CameraThreadError::Terminated),
        }
    }

    /// The first half of a turn of the main loop: what follows from a look
    /// at the control channel.
    pub fn on_control(&mut self, poll: Poll) -> (step: Step)
        ensures
            final(self)@ == old(self)@.on_control(poll).0,
            step == old(self)@.on_control(poll).1,
    {
        match poll {
            // Handle a message from the egui thread
            Poll::Message(msg) => match self.handle_msg(msg) {
                Ok(request) => Step::Continue { request, sleep_ms: POLL_INTERVAL_MS },
                Err(e) => Step::Exit(Err(e)),
            },
            // No message, nothing for us to do
            Poll::Empty => Step::Continue { request: Request::Nothing, sleep_ms: POLL_INTERVAL_MS },
            // Channel disconnected: leave the loop
            Poll::Disconnected => Step::Exit(Ok(())),
        }
    }

    /// The transfer that the driver of the connected camera is due.
    pub fn next_transfer(&self) -> (t: Option<Transfer>)
        ensures
            t == match self@.cam {
                Some(cam) => cam.next_transfer(),
                None => None,
            },
    {
        match &self.cam {
            Some(cam) => cam.next_transfer(),
            None => None,
        }
    }

    /// Takes what became of the transfer that was handed out last, and
    /// passes it on to the driver. When the start sequence of a camera that
    /// was just opened has been answered to its end, the user interface is
    /// told that the camera is connected, once.
    pub fn advance(&mut self, reply: Reply) -> (res: Result<Option<CameraMessage>, Mu1603Error>)
        ensures
            final(self)@ == old(self)@.advance(reply).0,
            res == old(self)@.advance(reply).1,
    {
        match &mut self.cam {
            Some(cam) => {
                match cam.advance(reply) {
                    Ok(()) => {},
                    Err(e) => {
                        return Err(e);
                    },
                }
                if self.announce && cam.is_idle() {
                    if let Some(state) = cam.state() {
                        self.announce = false;
                        return Ok(Some(CameraMessage::Connected(state)));
                    }
                }
                Ok(None)
            },
            None => Ok(None),
        }
    }

    /// Begins to read a frame from the connected camera. Without a camera
    /// there is nothing to read; without a stream the attempt fails at once.
    pub fn try_read_frame(&self) -> (res: Option<Result<FrameReader, Mu1603Error>>)
        ensures
            self@.cam is None <==> res is None,
            self@.cam is Some && self@.cam->0.state is None ==> res == Some(
                Err::<FrameReader, Mu1603Error>(Mu1603Error::NotStreaming),
            ),
            self@.cam is Some && self@.cam->0.state is Some ==> (res matches Some(Ok(reader))
                && reader@ == ReaderView::start(
                raw_frame_len(self@.cam->0.state->0.mode, self@.cam->0.state->0.bitdepth),
            )),
    {
        match &self.cam {
            Some(cam) => Some(cam.try_read_frame()),
            None => None,
        }
    }

    /// The second half of a turn of the main loop: what follows from the
    /// attempt to read a frame. A frame that was read is offered to the
    /// shared buffer, whose lock was tried and gave `slot`. The errors that
    /// only a command sequence can give do not come from reading.
    pub fn on_frame(
        &self,
        frame: Result<Vec<u8>, Mu1603Error>,
        slot: Option<&mut SharedFrameBuffer>,
    ) -> (step: FrameStep)
        requires
            !(frame matches Err(Mu1603Error::Unimplemented)),
            !(frame matches Err(Mu1603Error::FailedSensorCmd(_, _))),
            slot matches Some(shared) ==> shared@.frame_id < usize::MAX,
        ensures
            frame matches Err(e) ==> step == frame_error_step(e),
            frame is Err ==> (slot matches Some(shared) ==> final(shared)@ == shared@),
            frame is Ok && slot is None ==> step == FrameStep::Offered(Publish::Busy),
            frame is Ok ==> (slot matches Some(shared) ==> final(shared)@ == shared@.publish(
                frame->Ok_0@,
            ) && step == FrameStep::Offered(
                if frame->Ok_0@.len() == shared@.bytes.len() {
                    Publish::Published((shared@.frame_id + 1) as usize)
                } else {
                    Publish::Rejected
                },
            )),
    {
        match frame {
            Ok(data) => {
                // Try the lock and write the data for this frame
                FrameStep::Offered(SharedFrameBuffer::try_publish(slot, data.as_slice()))
            },
            Err(e) => match e {
                Mu1603Error::NotStreaming => FrameStep::Sleep { sleep_ms: POLL_INTERVAL_MS },
                Mu1603Error::Rusb(UsbError::NoDevice) => FrameStep::Exit(
                    Err(CameraThreadError::DeviceLost),
                ),
                _ => FrameStep::Skip,
            },
        }
    }
}

} // verus!
