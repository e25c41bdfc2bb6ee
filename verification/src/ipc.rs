//! The messages that the user interface and the camera thread exchange.

use vstd::prelude::*;
use crate::driver::UsbError;
use crate::state::Mu1603State;

verus! {

/// Control messages from the egui thread to the camera thread.
#[derive(Copy, Clone, Debug, PartialEq, Eq, Structural)]
pub enum ControlMessage {
    /// Update camera settings
    Update(Mu1603State),
    /// Connect to the camera
    Connect,
    /// Disconnect from the camera
    Disconnect,
    /// Shutdown the camera thread
    Shutdown,
}

/// Messages from the camera thread to the egui thread.
#[derive(Copy, Clone, Debug)]
pub enum CameraMessage {
    ThreadInit,
    /// The camera thread has connected to the device
    Connected(Mu1603State),
    /// The camera thread failed to connect to the device
    ConnectFailure(UsbError),
    /// The camera thread has disconnected from the device
    Disconnected,
    /// The camera thread has started streaming frames
    StartStreaming,
    /// The camera thread has acknowledged an update to the camera state
    UpdateAck(Mu1603State),
    Debug(&'static str),
}

impl CameraMessage {
    /// What the user interface knows of the camera after the message, if
    /// it knew `current` before: the state that came with a connection,
    /// nothing after a disconnection or a failure to connect, and else what
    /// it knew.
    pub open spec fn spec_camera_after(self, current: Option<Mu1603State>) -> Option<
        Mu1603State,
    > {
        match self {
            CameraMessage::Connected(state) => Some(state),
            CameraMessage::Disconnected => None,
            CameraMessage::ConnectFailure(_) => None,
            _ => current,
        }
    }

    #[verifier::when_used_as_spec(spec_camera_after)]
    pub fn camera_after(self, current: Option<Mu1603State>) -> (next: Option<Mu1603State>)
        ensures
            next == self.spec_camera_after(current),
    {
        match self {
            CameraMessage::Connected(state) => Some(state),
            CameraMessage::Disconnected => None,
            CameraMessage::ConnectFailure(_) => None,
            _ => current,
        }
    }
}

} // verus!
