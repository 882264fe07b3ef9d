use crate::decode::decode_outcome;
use crate::error::CameraError;
use crate::format::{DeviceDescriptor, FormatRequest};
use crate::frame::{DecodedFrame, FrameView, RawFrame};
use vstd::prelude::*;

verus! {

/// Whether a session's device is delivering frames.
#[derive(Debug, Clone, Copy, PartialEq, Eq)]
pub enum StreamState {
    /// Connected, not delivering: no frame can be captured.
    Closed,
    /// Delivering: frames can be captured.
    Open,
}

/// What the caller is to ask of the backend to get a session: a connection to
/// `device` that delivers exactly `format`.
#[derive(Debug, PartialEq, Eq)]
pub struct ConnectRequest {
    /// The device to connect to.
    pub device: DeviceDescriptor,
    /// The format that the device must deliver, with no substitute.
    pub format: FormatRequest,
}

/// A session as contracts see it.
pub struct SessionView {
    /// The device that the session is connected to.
    pub device: DeviceDescriptor,
    /// The format that was asked for when the session was made.
    pub format: FormatRequest,
    /// Whether the device is delivering frames.
    pub state: StreamState,
}

/// A capture session with one device. It starts closed, is opened by
/// `open_stream`, and yields frames only while open. Device and format are
/// fixed when the session is made.
#[derive(Debug)]
pub struct Camera {
    device: DeviceDescriptor,
    format: FormatRequest,
    state: StreamState,
}

impl View for Camera {
    type V = SessionView;

    closed spec fn view(&self) -> SessionView {
        SessionView { device: self.device, format: self.format, state: self.state }
    }
}

/// The request that an enumeration leads to: none when the backend could not
/// enumerate or listed nothing, else the first device listed, with the
/// standard format.
pub open spec fn selection(enumeration: Result<Vec<DeviceDescriptor>, String>) -> Result<
    ConnectRequest,
    CameraError,
> {
    match enumeration {
        Err(message) => Err(CameraError::InitializationFailed(message)),
        Ok(devices) => if devices@.len() == 0 {
            Err(CameraError::NoCameraFound)
        } else {
            Ok(ConnectRequest { device: devices@[0], format: FormatRequest::spec_standard() })
        },
    }
}

/// The session that a connection attempt leads to: a closed one for the
/// requested device and format when the backend connected, else the backend's
/// failure.
pub open spec fn connected(request: ConnectRequest, connection: Result<(), String>) -> Result<
    SessionView,
    CameraError,
> {
    match connection {
        Ok(_) => Ok(
            SessionView {
                device: request.device,
                format: request.format,
                state: StreamState::Closed,
            },
        ),
        Err(message) => Err(CameraError::InitializationFailed(message)),
    }
}

/// The session after the backend answered a request to start delivering:
/// open when it started, unchanged when it failed.
pub open spec fn started(session: SessionView, start: Result<(), String>) -> SessionView {
    match start {
        Ok(_) => SessionView { state: StreamState::Open, ..session },
        Err(_) => session,
    }
}

/// What `open_stream` reports for the backend's answer.
pub open spec fn start_report(start: Result<(), String>) -> Result<(), CameraError> {
    match start {
        Ok(_) => Ok(()),
        Err(message) => Err(CameraError::InitializationFailed(message)),
    }
}

/// Whether a session may ask its device for a frame: only while it is open.
pub open spec fn streaming_check(session: SessionView) -> Result<(), CameraError> {
    match session.state {
        StreamState::Open => Ok(()),
        StreamState::Closed => Err(CameraError::StreamNotOpen),
    }
}

/// What a capture gives for the backend's answer to a request for the next
/// frame: `StreamNotOpen` while the session is closed, whatever the answer;
/// else the backend's failure, or the frame decoded into a grid of the
/// session's width and height, or `FrameDecodeError` where there is no such
/// frame.
pub open spec fn capture_outcome(session: SessionView, pulled: Result<RawFrame, String>) -> Result<
    FrameView,
    CameraError,
> {
    match session.state {
        StreamState::Closed => Err(CameraError::StreamNotOpen),
        StreamState::Open => match pulled {
            Err(message) => Err(CameraError::InitializationFailed(message)),
            Ok(raw) => match decode_outcome(session.format.width, session.format.height, raw) {
                Some(frame) => Ok(frame),
                None => Err(CameraError::FrameDecodeError),
            },
        },
    }
}

impl Camera {
    /// Chooses the device for a new session from what the backend enumerated.
    ///
    /// The first device listed is taken, whatever it is; no device is
    /// preferred for its name or its capabilities. With no device listed the
    /// result is `NoCameraFound` and holds nothing to connect to, so the
    /// caller makes no further call to the backend. A failed enumeration is
    /// handed on as `InitializationFailed` with the backend's message.
    pub fn select_device(enumeration: Result<Vec<DeviceDescriptor>, String>) -> (result: Result<
        ConnectRequest,
        CameraError,
    >)
        ensures
            result == selection(enumeration),
            enumeration matches Ok(devices) && devices@.len() == 0 ==> result == Err::<
                ConnectRequest,
                CameraError,
            >(CameraError::NoCameraFound),
            result matches Ok(request) ==> request.format == FormatRequest::spec_standard(),
    {
        match enumeration {
            Err(message) => Err(CameraError::InitializationFailed(message)),
            Ok(devices) => {
                if devices.len() == 0 {
                    Err(CameraError::NoCameraFound)
                } else {
                    let mut devices = devices;
                    let first = devices.remove(0);
                    Ok(ConnectRequest { device: first, format: FormatRequest::standard() })
                }
            },
        }
    }

    /// Makes the session for `request` from the backend's answer to it.
    ///
    /// `connection` is what the backend returned when asked to connect to
    /// `request.device` with exactly `request.format`. A session is made if
    /// and only if the backend connected; it is closed and holds the
    /// requested device and format. Any failure of the backend is handed on
    /// as `InitializationFailed` with the backend's message.
    pub fn new(request: ConnectRequest, connection: Result<(), String>) -> (result: Result<
        Camera,
        CameraError,
    >)
        ensures
            match result {
                Ok(camera) => connected(request, connection) == Ok::<SessionView, CameraError>(
                    camera@,
                ),
                Err(error) => connected(request, connection) == Err::<SessionView, CameraError>(
                    error,
                ),
            },
    {
        match connection {
            Ok(_) => Ok(
                Camera { device: request.device, format: request.format, state: StreamState::Closed },
            ),
            Err(message) => Err(CameraError::InitializationFailed(message)),
        }
    }

    /// Takes the backend's answer to a request to start delivering frames.
    ///
    /// When the backend started, the session is open afterwards. When it
    /// failed, the session is left as it was and the failure is handed on as
    /// `InitializationFailed` with the backend's message. Device and format
    /// never change.
    ///
    /// The session is meant to be closed when this is called. What a backend
    /// does when asked to start twice is its own affair; this function takes
    /// its answer the same way in either state.
    pub fn open_stream(&mut self, start: Result<(), String>) -> (result: Result<(), CameraError>)
        ensures
            final(self)@ == started(old(self)@, start),
            result == start_report(start),
    {
        match start {
            Ok(_) => {
                self.state = StreamState::Open;
                Ok(())
            },
            Err(message) => Err(CameraError::InitializationFailed(message)),
        }
    }

    /// Whether the session is streaming.
    pub fn is_open(&self) -> (open: bool)
        ensures
            open == (self@.state == StreamState::Open),
    {
        match self.state {
            StreamState::Open => true,
            StreamState::Closed => false,
        }
    }

    /// The device that the session is connected to.
    pub fn device(&self) -> (device: &DeviceDescriptor)
        ensures
            *device == self@.device,
    {
        &self.device
    }

    /// The format that was asked for when the session was made.
    pub fn format(&self) -> (format: FormatRequest)
        ensures
            format == self@.format,
    {
        self.format
    }

    /// Says whether the device may be asked for a frame: `StreamNotOpen`
    /// while the session is closed. The caller asks this before it turns to
    /// the backend, so that a closed session never reaches it.
    pub fn check_streaming(&self) -> (result: Result<(), CameraError>)
        ensures
            result == streaming_check(self@),
    {
        match self.state {
            StreamState::Open => Ok(()),
            StreamState::Closed => Err(CameraError::StreamNotOpen),
        }
    }

    /// Takes the backend's answer to a request for the next frame and returns
    /// the decoded frame.
    ///
    /// While the session is closed the result is `StreamNotOpen`, whatever
    /// `pulled` holds. While it is open, a failure of the backend is handed
    /// on as `InitializationFailed` with the backend's message, and a raw
    /// frame is decoded from its own encoding into a grid of exactly the
    /// session's width and height; where that cannot be done the result is
    /// `FrameDecodeError` and no frame. The session is the same afterwards
    /// in every case: a frame that fails to decode does not close it.
    pub fn capture_frame(&mut self, pulled: Result<RawFrame, String>) -> (result: Result<
        DecodedFrame,
        CameraError,
    >)
        ensures
            final(self)@ == old(self)@,
            match result {
                Ok(frame) => capture_outcome(old(self)@, pulled) == Ok::<FrameView, CameraError>(
                    frame@,
                ),
                Err(error) => capture_outcome(old(self)@, pulled) == Err::<FrameView, CameraError>(
                    error,
                ),
            },
            old(self)@.state == StreamState::Closed ==> result == Err::<DecodedFrame, CameraError>(
                CameraError::StreamNotOpen,
            ),
            result matches Ok(frame) ==> frame@.width == old(self)@.format.width && frame@.height
                == old(self)@.format.height && frame@.well_formed(),
    {
        match self.state {
            StreamState::Closed => Err(CameraError::StreamNotOpen),
            StreamState::Open => match pulled {
                Err(message) => Err(CameraError::InitializationFailed(message)),
                Ok(raw) => raw.decode(self.format.width, self.format.height),
            },
        }
    }
}

} // verus!
