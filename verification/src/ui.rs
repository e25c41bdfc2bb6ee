//! What the control panel keeps between two frames of the user interface.

use vstd::prelude::*;
use crate::ipc::{CameraMessage, ControlMessage};
use crate::state::{Mu1603Mode, Mu1603State};

verus! {

/// What can go wrong in the user interface.
#[derive(Copy, Clone, Debug)]
pub enum AppError {
    IpcFailure(ControlMessage),
}

/// What the log of the user interface records.
#[derive(Copy, Clone, Debug)]
pub enum LogEvent {
    Acquire,
    Exposure(usize),
    AnalogGain(usize),
    Msg(usize),
    CameraMsg(CameraMessage),
    LostThread,
}

/// Ephemeral state of the UI elements.
#[derive(Copy, Clone, Debug, PartialEq, Eq, Structural)]
pub struct RequestedSettings {
    pub mode: Mu1603Mode,
    pub exposure_ms: usize,
    pub analog_gain_percent: usize,
}

impl RequestedSettings {
    /// Whether the camera runs with other settings than these. Without a
    /// camera nothing is in step.
    pub open spec fn spec_desync(&self, camera: Option<Mu1603State>) -> bool {
        match camera {
            Some(state) => {
                ||| state.analog_gain.spec_value() != self.analog_gain_percent
                ||| state.exposure.spec_value() / 1000 != self.exposure_ms
                ||| state.mode != self.mode
            },
            None => true,
        }
    }

    #[verifier::when_used_as_spec(spec_desync)]
    pub fn desync(&self, camera: Option<Mu1603State>) -> (yes: bool)
        ensures
            yes == self.spec_desync(camera),
    {
        match camera {
            Some(state) => {
                let gain_desync = state.analog_gain_percent() != self.analog_gain_percent;
                let exp_desync = state.exposure_ms() != self.exposure_ms;
                let mode_desync = match (state.mode, self.mode) {
                    (Mu1603Mode::Mode0, Mu1603Mode::Mode0) => false,
                    (Mu1603Mode::Mode1, Mu1603Mode::Mode1) => false,
                    (Mu1603Mode::Mode2, Mu1603Mode::Mode2) => false,
                    _ => true,
                };
                gain_desync || exp_desync || mode_desync
            },
            None => true,
        }
    }
}

impl Default for RequestedSettings {
    fn default() -> (res: Self)
        ensures
            res == (RequestedSettings {
                exposure_ms: 94,
                analog_gain_percent: 100,
                mode: Mu1603Mode::Mode1,
            }),
    {
        Self { exposure_ms: 94, analog_gain_percent: 100, mode: Mu1603Mode::Mode1 }
    }
}

} // verus!
