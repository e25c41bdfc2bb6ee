//! The vendor protocol of the sensor: the commands it understands, the fixed
//! command sequences, and the control transfers that carry them.
//!
//! NOTE: In a command the register index comes before the value. In the
//! setup packet of a control transfer the value comes first.

use vstd::prelude::*;
use crate::state::Mu1603Mode;

verus! {

/// Request code of the handshake that sets the obfuscation key.
pub const REQ_KEY: u8 = 0x16;

/// Request code of the sensor enable switch and of the streaming switch.
pub const REQ_ENABLE: u8 = 0x01;

/// Request code of the two probe reads that follow the enable switch.
pub const REQ_PROBE: u8 = 0x0a;

/// Request code of the system and sensor register commands.
pub const REQ_REGISTER: u8 = 0x0b;

/// Request code of the status read that ends a stream.
pub const REQ_STATUS: u8 = 0x17;

/// Register index of the enable switch.
pub const IDX_ENABLE: u16 = 0x000f;

/// Register index that a sensor command reads back after it was acknowledged.
pub const IDX_READBACK: u16 = 0x1100;

/// The status byte with which the device acknowledges a sensor command.
pub const SENSOR_ACK: u8 = 0x08;

/// Direction of the data stage of a control transfer.
#[derive(Copy, Clone, Debug, PartialEq, Eq, Structural)]
pub enum Direction {
    /// Host to device.
    Out,
    /// Device to host.
    In,
}

/// Who defines the meaning of a control request.
#[derive(Copy, Clone, Debug, PartialEq, Eq, Structural)]
pub enum RequestType {
    Standard,
    Class,
    Vendor,
    Reserved,
}

/// The part of the device that a control request addresses.
#[derive(Copy, Clone, Debug, PartialEq, Eq, Structural)]
pub enum Recipient {
    Device,
    Interface,
    Endpoint,
    Other,
}

/// The `bmRequestType` byte of a setup packet: the direction in bit 7, the
/// type in bits 5 and 6, the recipient in the low bits.
pub open spec fn spec_request_type(
    direction: Direction,
    kind: RequestType,
    recipient: Recipient,
) -> u8 {
    let d: u8 = match direction {
        Direction::Out => 0x00,
        Direction::In => 0x80,
    };
    let t: u8 = match kind {
        RequestType::Standard => 0x00,
        RequestType::Class => 0x20,
        RequestType::Vendor => 0x40,
        RequestType::Reserved => 0x60,
    };
    let r: u8 = match recipient {
        Recipient::Device => 0x00,
        Recipient::Interface => 0x01,
        Recipient::Endpoint => 0x02,
        Recipient::Other => 0x03,
    };
    (d + t + r) as u8
}

#[verifier::when_used_as_spec(spec_request_type)]
pub fn request_type(direction: Direction, kind: RequestType, recipient: Recipient) -> (bits: u8)
    ensures
        bits == spec_request_type(direction, kind, recipient),
{
    let d: u8 = match direction {
        Direction::Out => 0x00,
        Direction::In => 0x80,
    };
    let t: u8 = match kind {
        RequestType::Standard => 0x00,
        RequestType::Class => 0x20,
        RequestType::Vendor => 0x40,
        RequestType::Reserved => 0x60,
    };
    let r: u8 = match recipient {
        Recipient::Device => 0x00,
        Recipient::Interface => 0x01,
        Recipient::Endpoint => 0x02,
        Recipient::Other => 0x03,
    };
    d + t + r
}

/// One thing the driver asks to be done on the bus, or a pause between two.
#[derive(Copy, Clone, Debug, PartialEq, Eq, Structural)]
pub enum Transfer {
    /// A control transfer that reads up to `len` bytes from the device.
    Read { request_type: u8, request: u8, value: u16, index: u16, len: usize },
    /// A control transfer to the device without a data stage.
    Write { request_type: u8, request: u8, value: u16, index: u16 },
    /// No transfer for this many milliseconds.
    Sleep { millis: u64 },
}

/// One command of the vendor protocol.
#[derive(Copy, Clone, Debug, PartialEq, Eq, Structural)]
pub enum Command {
    /// A vendor read of `len` bytes, whose answer is ignored.
    VenRead { req: u8, idx: u16, val: u16, len: usize },
    /// A vendor write.
    VenWrite { req: u8, idx: u16, val: u16 },
    /// Sets a system register.
    System { idx: u16, val: u16 },
    /// Sets a sensor register: the device must acknowledge the command, and
    /// the value is then read back.
    Sensor { idx: u16, val: u16 },
    /// A pause that the device needs before the next command.
    Sleep { millis: u64 },
}

impl Command {
    /// What is to be done in a phase of the command.
    pub open spec fn spec_transfer(&self, phase: nat) -> Transfer {
        let vendor_in = spec_request_type(Direction::In, RequestType::Vendor, Recipient::Device);
        let vendor_out = spec_request_type(Direction::Out, RequestType::Vendor, Recipient::Device);
        match *self {
            Command::VenRead { req, idx, val, len } => Transfer::Read {
                request_type: vendor_in,
                request: req,
                value: val,
                index: idx,
                len,
            },
            Command::VenWrite { req, idx, val } => Transfer::Write {
                request_type: vendor_out,
                request: req,
                value: val,
                index: idx,
            },
            Command::System { idx, val } => Transfer::Read {
                request_type: vendor_in,
                request: REQ_REGISTER,
                value: val,
                index: idx,
                len: 1,
            },
            Command::Sensor { idx, val } => Transfer::Read {
                request_type: vendor_in,
                request: REQ_REGISTER,
                value: val,
                index: if phase == 0 {
                    idx
                } else {
                    IDX_READBACK
                },
                len: 1,
            },
            Command::Sleep { millis } => Transfer::Sleep { millis },
        }
    }

    /// What is to be done in a phase of the command; `second` tells the
    /// read-back of a sensor command from its first step.
    pub fn transfer(&self, second: bool) -> (t: Transfer)
        ensures
            t == self.spec_transfer(
                if second {
                    1
                } else {
                    0
                },
            ),
    {
        let vendor_in = request_type(Direction::In, RequestType::Vendor, Recipient::Device);
        let vendor_out = request_type(Direction::Out, RequestType::Vendor, Recipient::Device);
        match *self {
            Command::VenRead { req, idx, val, len } => Transfer::Read {
                request_type: vendor_in,
                request: req,
                value: val,
                index: idx,
                len,
            },
            Command::VenWrite { req, idx, val } => Transfer::Write {
                request_type: vendor_out,
                request: req,
                value: val,
                index: idx,
            },
            Command::System { idx, val } => Transfer::Read {
                request_type: vendor_in,
                request: REQ_REGISTER,
                value: val,
                index: idx,
                len: 1,
            },
            Command::Sensor { idx, val } => Transfer::Read {
                request_type: vendor_in,
                request: REQ_REGISTER,
                value: val,
                index: if second {
                    IDX_READBACK
                } else {
                    idx
                },
                len: 1,
            },
            Command::Sleep { millis } => Transfer::Sleep { millis },
        }
    }
}

/// The handshake that sets the key `0x0000`. The device expects indexes and
/// values XOR'ed with the key; with a key of zero they go out as they are.
pub open spec fn null_key_table() -> Seq<Command> {
    seq![Command::VenRead { req: REQ_KEY, idx: 0x0000, val: 0x0000, len: 2 }]
}

pub fn null_key_commands() -> (v: Vec<Command>)
    ensures
        v@ == null_key_table(),
{
    let mut v: Vec<Command> = Vec::new();
    v.push(Command::VenRead { req: REQ_KEY, idx: 0x0000, val: 0x0000, len: 2 });
    v
}

/// The sequence that sets the exposure registers. Only `0x1064` and `0x5000`
/// vary with the exposure.
pub open spec fn set_exposure_table(val1064: u16, val5000: u16) -> Seq<Command> {
    seq![
        Command::Sensor { idx: 0x1063, val: 0x0000 },
        Command::Sensor { idx: 0x1064, val: val1064 },
        Command::System { idx: 0x4000, val: 0x0000 },
        Command::System { idx: 0x5000, val: val5000 },
    ]
}

pub fn set_exposure_commands(val1064: u16, val5000: u16) -> (v: Vec<Command>)
    ensures
        v@ == set_exposure_table(val1064, val5000),
{
    let mut v: Vec<Command> = Vec::new();
    v.push(Command::Sensor { idx: 0x1063, val: 0x0000 });
    v.push(Command::Sensor { idx: 0x1064, val: val1064 });
    v.push(Command::System { idx: 0x4000, val: 0x0000 });
    v.push(Command::System { idx: 0x5000, val: val5000 });
    v
}

/// The sequence that sets the analog gain register.
pub open spec fn set_analog_gain_table(val1061: u16) -> Seq<Command> {
    seq![Command::Sensor { idx: 0x1061, val: val1061 }]
}

pub fn set_analog_gain_commands(val1061: u16) -> (v: Vec<Command>)
    ensures
        v@ == set_analog_gain_table(val1061),
{
    let mut v: Vec<Command> = Vec::new();
    v.push(Command::Sensor { idx: 0x1061, val: val1061 });
    v
}

/// The sensor programming sequence that precedes a change of resolution.
/// Only the values for `0x1004` and `0x1006` depend on the mode. The two
/// pauses are part of the protocol.
pub open spec fn sensor_program_table(val_1004: u16, val_1006: u16) -> Seq<Command> {
    seq![
        Command::Sensor { idx: 0x1008, val: 0x4299 },
        Command::Sensor { idx: 0x100f, val: 0x7fff },
        Command::Sensor { idx: 0x1001, val: 0x0030 },
        Command::Sensor { idx: 0x1002, val: 0x0003 },
        Command::Sensor { idx: 0x1003, val: 0x07e9 },
        Command::Sensor { idx: 0x1000, val: 0x0003 },
        Command::Sensor { idx: 0x1004, val: val_1004 },
        Command::Sensor { idx: 0x1006, val: val_1006 },
        Command::Sensor { idx: 0x1009, val: 0x02c0 },
        Command::Sensor { idx: 0x1005, val: 0x0001 },
        Command::Sensor { idx: 0x1007, val: 0x7fff },
        Command::Sensor { idx: 0x100a, val: 0x0000 },
        Command::Sensor { idx: 0x100b, val: 0x0100 },
        Command::Sensor { idx: 0x100c, val: 0x0000 },
        Command::Sensor { idx: 0x100d, val: 0x2090 },
        Command::Sensor { idx: 0x100e, val: 0x0103 },
        Command::Sensor { idx: 0x1010, val: 0x0000 },
        Command::Sensor { idx: 0x1011, val: 0x0000 },
        Command::Sleep { millis: 5 },
        Command::Sensor { idx: 0x1000, val: 0x0053 },
        Command::Sensor { idx: 0x1008, val: 0x0298 },
        Command::Sleep { millis: 5 },
    ]
}

pub fn sensor_program_commands(val_1004: u16, val_1006: u16) -> (v: Vec<Command>)
    ensures
        v@ == sensor_program_table(val_1004, val_1006),
{
    let mut v: Vec<Command> = Vec::new();
    v.push(Command::Sensor { idx: 0x1008, val: 0x4299 });
    v.push(Command::Sensor { idx: 0x100f, val: 0x7fff });
    v.push(Command::Sensor { idx: 0x1001, val: 0x0030 });
    v.push(Command::Sensor { idx: 0x1002, val: 0x0003 });
    v.push(Command::Sensor { idx: 0x1003, val: 0x07e9 });
    v.push(Command::Sensor { idx: 0x1000, val: 0x0003 });
    v.push(Command::Sensor { idx: 0x1004, val: val_1004 });
    v.push(Command::Sensor { idx: 0x1006, val: val_1006 });
    v.push(Command::Sensor { idx: 0x1009, val: 0x02c0 });
    v.push(Command::Sensor { idx: 0x1005, val: 0x0001 });
    v.push(Command::Sensor { idx: 0x1007, val: 0x7fff });
    v.push(Command::Sensor { idx: 0x100a, val: 0x0000 });
    v.push(Command::Sensor { idx: 0x100b, val: 0x0100 });
    v.push(Command::Sensor { idx: 0x100c, val: 0x0000 });
    v.push(Command::Sensor { idx: 0x100d, val: 0x2090 });
    v.push(Command::Sensor { idx: 0x100e, val: 0x0103 });
    v.push(Command::Sensor { idx: 0x1010, val: 0x0000 });
    v.push(Command::Sensor { idx: 0x1011, val: 0x0000 });
    v.push(Command::Sleep { millis: 5 });
    v.push(Command::Sensor { idx: 0x1000, val: 0x0053 });
    v.push(Command::Sensor { idx: 0x1008, val: 0x0298 });
    v.push(Command::Sleep { millis: 5 });
    v
}

/// The values of `0x1004` and `0x1006` with which a mode is programmed.
pub open spec fn spec_program_values(mode: Mu1603Mode) -> (u16, u16) {
    match mode {
        Mu1603Mode::Mode0 => (0x0087, 0x1104),
        Mu1603Mode::Mode1 => (0x0083, 0x11dc),
        Mu1603Mode::Mode2 => (0x0083, 0x11dc),
    }
}

#[verifier::when_used_as_spec(spec_program_values)]
pub fn program_values(mode: Mu1603Mode) -> (v: (u16, u16))
    ensures
        v == spec_program_values(mode),
{
    match mode {
        Mu1603Mode::Mode0 => (0x0087, 0x1104),
        Mu1603Mode::Mode1 => (0x0083, 0x11dc),
        Mu1603Mode::Mode2 => (0x0083, 0x11dc),
    }
}

/// The values of the system registers `0x2000`, `0x1200` and `0x8000` that
/// select a mode.
pub open spec fn spec_select_values(mode: Mu1603Mode) -> (u16, u16, u16) {
    match mode {
        Mu1603Mode::Mode0 => (0x0000, 0x0002, 0x09b0),
        Mu1603Mode::Mode1 => (0x0001, 0x0003, 0x060c),
        Mu1603Mode::Mode2 => (0x0002, 0x0004, 0x0666),
    }
}

#[verifier::when_used_as_spec(spec_select_values)]
pub fn select_values(mode: Mu1603Mode) -> (v: (u16, u16, u16))
    ensures
        v == spec_select_values(mode),
{
    match mode {
        Mu1603Mode::Mode0 => (0x0000, 0x0002, 0x09b0),
        Mu1603Mode::Mode1 => (0x0001, 0x0003, 0x060c),
        Mu1603Mode::Mode2 => (0x0002, 0x0004, 0x0666),
    }
}

/// What precedes the sensor programming when a stream starts: the key
/// handshake, the enable switch toggled on, off and on, and the probe reads.
pub open spec fn handshake_table() -> Seq<Command> {
    null_key_table() + seq![
        Command::VenWrite { req: REQ_ENABLE, idx: IDX_ENABLE, val: 0x0001 },
        Command::VenWrite { req: REQ_ENABLE, idx: IDX_ENABLE, val: 0x0000 },
        Command::VenWrite { req: REQ_ENABLE, idx: IDX_ENABLE, val: 0x0001 },
        Command::VenRead { req: REQ_PROBE, idx: 0xffff, val: 0x0000, len: 2 },
        Command::VenRead { req: REQ_PROBE, idx: 0xffff, val: 0x0000, len: 2 },
        Command::VenRead { req: REQ_PROBE, idx: 0xfeff, val: 0x0000, len: 2 },
        Command::VenRead { req: REQ_PROBE, idx: 0xfeff, val: 0x0000, len: 2 },
    ]
}

/// What follows the first sensor programming: the system registers are
/// brought up, with the pauses the device needs.
pub open spec fn bring_up_table() -> Seq<Command> {
    seq![
        Command::System { idx: 0x1200, val: 0x0001 },
        Command::Sleep { millis: 20 },
        Command::System { idx: 0x2000, val: 0x0000 },
        Command::System { idx: 0x1200, val: 0x0002 },
        Command::Sleep { millis: 20 },
        Command::System { idx: 0x0200, val: 0x0000 },
        Command::System { idx: 0x0a00, val: 0x0001 },
        Command::System { idx: 0x0a00, val: 0x0000 },
        Command::Sleep { millis: 20 },
    ]
}

/// The sequence that sets up the resolution of a mode. The pause of 10 ms is
/// required.
pub open spec fn mode_setup_table(mode: Mu1603Mode) -> Seq<Command> {
    sensor_program_table(spec_program_values(mode).0, spec_program_values(mode).1) + seq![
        Command::Sensor { idx: 0x103b, val: 0x0000 },
        Command::System { idx: 0x2000, val: spec_select_values(mode).0 },
        Command::System { idx: 0x1200, val: spec_select_values(mode).1 },
        Command::Sleep { millis: 10 },
        Command::System { idx: 0x8000, val: spec_select_values(mode).2 },
    ]
}

/// The end of the start sequence: the streaming switch, then the time the
/// device takes to settle.
pub open spec fn arm_table() -> Seq<Command> {
    seq![
        Command::VenWrite { req: REQ_ENABLE, idx: IDX_ENABLE, val: 0x0003 },
        Command::Sleep { millis: 10 },
    ]
}

/// The exposure register values of the default exposure of 94 ms.
pub const DEFAULT_VAL_1064: u16 = 0x000a;

pub const DEFAULT_VAL_5000: u16 = 0x0cbd;

/// The gain register value of the default gain of 100 percent.
pub const DEFAULT_VAL_1061: u16 = 0x610c;

/// Everything that is sent to start a stream in a mode, in order: the
/// handshake, the sensor programming (which leaves the sensor in mode 0), the
/// bring-up of the system registers, the setup of the requested mode, the
/// default exposure (sent before and after register `0x0a00` is set), the
/// default gain, and the streaming switch.
pub open spec fn start_stream_table(mode: Mu1603Mode) -> Seq<Command> {
    handshake_table() + sensor_program_table(0x0087, 0x1104) + bring_up_table() + mode_setup_table(
        mode,
    ) + set_exposure_table(DEFAULT_VAL_1064, DEFAULT_VAL_5000)
        + seq![Command::System { idx: 0x0a00, val: 0x0001 }] + set_exposure_table(
        DEFAULT_VAL_1064,
        DEFAULT_VAL_5000,
    ) + set_analog_gain_table(DEFAULT_VAL_1061) + arm_table()
}

fn handshake_commands() -> (v: Vec<Command>)
    ensures
        v@ == handshake_table(),
{
    let mut v = null_key_commands();
    let mut w: Vec<Command> = Vec::new();
    w.push(Command::VenWrite { req: REQ_ENABLE, idx: IDX_ENABLE, val: 0x0001 });
    w.push(Command::VenWrite { req: REQ_ENABLE, idx: IDX_ENABLE, val: 0x0000 });
    w.push(Command::VenWrite { req: REQ_ENABLE, idx: IDX_ENABLE, val: 0x0001 });
    w.push(Command::VenRead { req: REQ_PROBE, idx: 0xffff, val: 0x0000, len: 2 });
    w.push(Command::VenRead { req: REQ_PROBE, idx: 0xffff, val: 0x0000, len: 2 });
    w.push(Command::VenRead { req: REQ_PROBE, idx: 0xfeff, val: 0x0000, len: 2 });
    w.push(Command::VenRead { req: REQ_PROBE, idx: 0xfeff, val: 0x0000, len: 2 });
    v.append(&mut w);
    v
}

fn bring_up_commands() -> (v: Vec<Command>)
    ensures
        v@ == bring_up_table(),
{
    let mut v: Vec<Command> = Vec::new();
    v.push(Command::System { idx: 0x1200, val: 0x0001 });
    v.push(Command::Sleep { millis: 20 });
    v.push(Command::System { idx: 0x2000, val: 0x0000 });
    v.push(Command::System { idx: 0x1200, val: 0x0002 });
    v.push(Command::Sleep { millis: 20 });
    v.push(Command::System { idx: 0x0200, val: 0x0000 });
    v.push(Command::System { idx: 0x0a00, val: 0x0001 });
    v.push(Command::System { idx: 0x0a00, val: 0x0000 });
    v.push(Command::Sleep { millis: 20 });
    v
}

fn mode_setup_commands(mode: Mu1603Mode) -> (v: Vec<Command>)
    ensures
        v@ == mode_setup_table(mode),
{
    let (val_1004, val_1006) = program_values(mode);
    let (val_2000, val_1200, val_8000) = select_values(mode);
    let mut v = sensor_program_commands(val_1004, val_1006);
    let mut w: Vec<Command> = Vec::new();
    w.push(Command::Sensor { idx: 0x103b, val: 0x0000 });
    w.push(Command::System { idx: 0x2000, val: val_2000 });
    w.push(Command::System { idx: 0x1200, val: val_1200 });
    w.push(Command::Sleep { millis: 10 });
    w.push(Command::System { idx: 0x8000, val: val_8000 });
    v.append(&mut w);
    v
}

fn arm_commands() -> (v: Vec<Command>)
    ensures
        v@ == arm_table(),
{
    let mut v: Vec<Command> = Vec::new();
    v.push(Command::VenWrite { req: REQ_ENABLE, idx: IDX_ENABLE, val: 0x0003 });
    v.push(Command::Sleep { millis: 10 });
    v
}

pub fn start_stream_commands(mode: Mu1603Mode) -> (v: Vec<Command>)
    ensures
        v@ == start_stream_table(mode),
{
    let mut v = handshake_commands();
    let mut part = sensor_program_commands(0x0087, 0x1104);
    v.append(&mut part);
    let mut part = bring_up_commands();
    v.append(&mut part);
    let mut part = mode_setup_commands(mode);
    v.append(&mut part);
    let mut part = set_exposure_commands(DEFAULT_VAL_1064, DEFAULT_VAL_5000);
    v.append(&mut part);
    v.push(Command::System { idx: 0x0a00, val: 0x0001 });
    let mut part = set_exposure_commands(DEFAULT_VAL_1064, DEFAULT_VAL_5000);
    v.append(&mut part);
    let mut part = set_analog_gain_commands(DEFAULT_VAL_1061);
    v.append(&mut part);
    let mut part = arm_commands();
    v.append(&mut part);
    v
}

/// Everything that is sent to stop a stream: streaming and the sensor
/// registers are switched off, the sensor is disabled, and the status that is
/// left over is read and dropped.
pub open spec fn stop_stream_table() -> Seq<Command> {
    seq![
        Command::System { idx: 0x0a00, val: 0x0000 },
        Command::Sensor { idx: 0x1000, val: 0x0000 },
        Command::VenWrite { req: REQ_ENABLE, idx: IDX_ENABLE, val: 0x0000 },
        Command::VenRead { req: REQ_STATUS, idx: 0x0000, val: 0x0000, len: 4 },
        Command::Sleep { millis: 10 },
    ]
}

pub fn stop_stream_commands() -> (v: Vec<Command>)
    ensures
        v@ == stop_stream_table(),
{
    let mut v: Vec<Command> = Vec::new();
    v.push(Command::System { idx: 0x0a00, val: 0x0000 });
    v.push(Command::Sensor { idx: 0x1000, val: 0x0000 });
    v.push(Command::VenWrite { req: REQ_ENABLE, idx: IDX_ENABLE, val: 0x0000 });
    v.push(Command::VenRead { req: REQ_STATUS, idx: 0x0000, val: 0x0000, len: 4 });
    v.push(Command::Sleep { millis: 10 });
    v
}

} // verus!
