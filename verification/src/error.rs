use vstd::prelude::*;

verus! {

/// The ways in which a capture session can fail.
#[derive(Debug, PartialEq, Eq)]
pub enum CameraError {
    /// The host listed no capture device.
    NoCameraFound,
    /// The backend failed to list, connect to, start or read the device.
    /// Holds the backend's own message, unchanged.
    InitializationFailed(String),
    /// A raw frame could not be turned into a pixel grid of the session's
    /// resolution.
    FrameDecodeError,
    /// A frame was asked for while the session was not streaming.
    StreamNotOpen,
}

} // verus!
