use crate::decode::{accepted, decode_outcome, rgb_decoding, within_limits};
use crate::error::CameraError;
use crate::format::{DeviceDescriptor, FormatRequest};
use crate::frame::{pack_rgb, FrameView, RawFrame};
use crate::session::{
    capture_outcome, connected, selection, started, streaming_check, ConnectRequest, SessionView,
    StreamState,
};
use vstd::prelude::*;

verus! {

/// An enumeration that lists no device leads to `NoCameraFound` and to no
/// request, so there is nothing to connect to.
pub proof fn empty_enumeration_selects_nothing(enumeration: Result<Vec<DeviceDescriptor>, String>)
    requires
        enumeration matches Ok(devices) && devices@.len() == 0,
    ensures
        selection(enumeration) == Err::<ConnectRequest, CameraError>(CameraError::NoCameraFound),
{
}

/// Whatever is enumerated, a request asks for the first device listed and for
/// the standard format, which names a grid with pixels and a positive rate.
pub proof fn selection_is_first_device_with_standard_format(
    enumeration: Result<Vec<DeviceDescriptor>, String>,
)
    ensures
        selection(enumeration) matches Ok(request) ==> {
            &&& enumeration matches Ok(devices) && devices@.len() > 0 && request.device
                == devices@[0]
            &&& request.format == FormatRequest::spec_standard()
            &&& request.format.well_formed()
            &&& request.format.width == 640 && request.format.height == 360
                && request.format.frame_rate == 30
        },
{
}

/// A session that was just made is closed, and a capture on it is refused
/// with `StreamNotOpen` whatever the backend would have answered.
pub proof fn new_session_refuses_capture(
    request: ConnectRequest,
    connection: Result<(), String>,
    pulled: Result<RawFrame, String>,
)
    ensures
        connected(request, connection) matches Ok(session) ==> {
            &&& session.state == StreamState::Closed
            &&& streaming_check(session) == Err::<(), CameraError>(CameraError::StreamNotOpen)
            &&& capture_outcome(session, pulled) == Err::<FrameView, CameraError>(
                CameraError::StreamNotOpen,
            )
        },
{
}

/// A session is made if and only if the backend connected, and then for the
/// device and the format that were requested, never for another.
pub proof fn session_keeps_requested_format(request: ConnectRequest, connection: Result<(), String>)
    ensures
        connected(request, connection) is Ok <==> connection is Ok,
        connected(request, connection) matches Ok(session) ==> session.device == request.device
            && session.format == request.format,
{
}

/// After the backend started, the session is open: it may ask its device for
/// frames, and a capture is no longer refused with `StreamNotOpen`. After a
/// failed start the session is what it was. Neither changes device or format.
pub proof fn start_opens_session(
    session: SessionView,
    message: String,
    pulled: Result<RawFrame, String>,
)
    ensures
        started(session, Ok(())).state == StreamState::Open,
        streaming_check(started(session, Ok(()))) == Ok::<(), CameraError>(()),
        capture_outcome(started(session, Ok(())), pulled) != Err::<FrameView, CameraError>(
            CameraError::StreamNotOpen,
        ),
        started(session, Err(message)) == session,
        started(session, Ok(())).device == session.device,
        started(session, Ok(())).format == session.format,
{
}

/// Every frame that a capture yields has exactly the width and height of the
/// session's format, and three bytes for each pixel. For the standard format
/// that is 640 by 360 pixels in 691200 bytes.
pub proof fn captured_frame_has_requested_size(
    session: SessionView,
    pulled: Result<RawFrame, String>,
)
    ensures
        capture_outcome(session, pulled) matches Ok(frame) ==> {
            &&& frame.width == session.format.width
            &&& frame.height == session.format.height
            &&& frame.well_formed()
            &&& session.format == FormatRequest::spec_standard() ==> frame.width == 640
                && frame.height == 360 && frame.pixels.len() == 691200 && frame.packed().len()
                == 230400
        },
{
}

/// Every frame that decoding yields has exactly the width and height that it
/// was decoded for, and three bytes for each pixel; and it comes only of a raw
/// frame that, by the device's account, has that width and height.
pub proof fn decoded_frame_has_requested_size(width: u32, height: u32, raw: RawFrame)
    ensures
        decode_outcome(width, height, raw) matches Some(frame) ==> {
            &&& frame.width == width
            &&& frame.height == height
            &&& frame.well_formed()
            &&& raw.width == width
            &&& raw.height == height
        },
{
}

/// A raw frame of 640 by 360 pixels, by the device's account, and of no more
/// than 715827882 bytes is within every machine's limits: what becomes of it
/// for the standard grid is for the decoder to say.
pub proof fn standard_frame_reaches_decoder(raw: RawFrame)
    requires
        raw.width == 640,
        raw.height == 360,
        raw.data@.len() <= 0x2AAA_AAAA,
    ensures
        within_limits(640, 360, raw.data@.len()),
        decode_outcome(640, 360, raw) == accepted(
            640,
            360,
            rgb_decoding(raw.encoding, 640, 360, raw.data@),
        ),
{
}

/// Where the decoder fails on a raw frame, a capture yields
/// `FrameDecodeError` and no frame.
pub proof fn failed_decoding_yields_no_frame(session: SessionView, raw: RawFrame)
    requires
        session.state == StreamState::Open,
        rgb_decoding(raw.encoding, raw.width, raw.height, raw.data@) is None,
    ensures
        decode_outcome(session.format.width, session.format.height, raw) is None,
        capture_outcome(session, Ok(raw)) == Err::<FrameView, CameraError>(
            CameraError::FrameDecodeError,
        ),
{
}

/// An image of another size than the grid is never accepted, however many
/// bytes it holds.
pub proof fn other_size_is_refused(width: u32, height: u32, w: u32, h: u32, pixels: Seq<u8>)
    requires
        w != width || h != height,
    ensures
        accepted(width, height, Some((w, h, pixels))) is None,
{
}

/// The packed words follow the grid: the word at `y * width + x` is the
/// packed pixel in column `x` of row `y`.
pub proof fn packed_word_is_pixel(frame: FrameView, x: int, y: int)
    requires
        frame.well_formed(),
        0 <= x < frame.width,
        0 <= y < frame.height,
    ensures
        0 <= y * frame.width + x < frame.packed().len(),
        frame.packed()[y * frame.width + x] == pack_rgb(
            frame.pixel(x, y).0,
            frame.pixel(x, y).1,
            frame.pixel(x, y).2,
        ),
{
    assert(0 <= y * frame.width + x < frame.width * frame.height) by (nonlinear_arith)
        requires
            0 <= x < frame.width,
            0 <= y < frame.height,
    ;
}

} // verus!
