//! A capture session for one camera, kept apart from the device itself.
//!
//! The session decides; the caller talks to the device. Each operation takes
//! what the device answered (a list of devices, the outcome of connecting or
//! starting, a raw frame) and returns what the session makes of it: which
//! device to connect to, whether the session is streaming, and the decoded
//! frame or the error.

pub mod decode;
pub mod error;
pub mod format;
pub mod frame;
pub mod laws;
pub mod session;

pub use error::CameraError;
pub use format::{DeviceDescriptor, FormatRequest, PixelEncoding};
pub use frame::{DecodedFrame, FrameView, RawFrame};
pub use session::{Camera, ConnectRequest, SessionView, StreamState};
