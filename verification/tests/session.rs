use camera_capture::{
    Camera, CameraError, ConnectRequest, DeviceDescriptor, FormatRequest, PixelEncoding, RawFrame,
};

fn standard_request() -> ConnectRequest {
    Camera::select_device(Ok(vec![DeviceDescriptor::Index(0)])).unwrap()
}

fn closed_session() -> Camera {
    Camera::new(standard_request(), Ok(())).unwrap()
}

fn open_session() -> Camera {
    let mut camera = closed_session();
    camera.open_stream(Ok(())).unwrap();
    camera
}

/// A 640 by 360 NV12 frame of one colour: every luma byte `luma`, neutral chroma.
fn grey_nv12_frame(luma: u8) -> RawFrame {
    let mut data: Vec<u8> = vec![luma; 640 * 360];
    data.extend(vec![128u8; 640 * 360 / 2]);
    RawFrame { width: 640, height: 360, encoding: PixelEncoding::Nv12, data }
}

#[test]
fn empty_enumeration_gives_no_camera_found() {
    let result = Camera::select_device(Ok(vec![]));
    assert_eq!(result, Err(CameraError::NoCameraFound));
}

#[test]
fn failed_enumeration_is_handed_on() {
    let result = Camera::select_device(Err("no backend".to_string()));
    assert_eq!(result, Err(CameraError::InitializationFailed("no backend".to_string())));
}

#[test]
fn first_listed_device_is_selected_with_standard_format() {
    let devices = vec![
        DeviceDescriptor::Index(7),
        DeviceDescriptor::Index(2),
        DeviceDescriptor::Name("rtsp://attic".to_string()),
    ];
    let request = Camera::select_device(Ok(devices)).unwrap();
    assert_eq!(request.device, DeviceDescriptor::Index(7));
    assert_eq!(
        request.format,
        FormatRequest { width: 640, height: 360, encoding: PixelEncoding::Nv12, frame_rate: 30 }
    );
}

#[test]
fn named_device_is_selected_when_listed_first() {
    let devices = vec![DeviceDescriptor::Name("front".to_string()), DeviceDescriptor::Index(0)];
    let request = Camera::select_device(Ok(devices)).unwrap();
    assert_eq!(request.device, DeviceDescriptor::Name("front".to_string()));
}

#[test]
fn standard_format_is_640_by_360_nv12_at_30() {
    let format = FormatRequest::standard();
    assert_eq!(format.width, 640);
    assert_eq!(format.height, 360);
    assert_eq!(format.encoding, PixelEncoding::Nv12);
    assert_eq!(format.frame_rate, 30);
}

#[test]
fn accepted_connection_gives_closed_session() {
    let camera = Camera::new(standard_request(), Ok(())).unwrap();
    assert!(!camera.is_open());
    assert_eq!(camera.device(), &DeviceDescriptor::Index(0));
    assert_eq!(camera.format(), FormatRequest::standard());
    assert_eq!(camera.check_streaming(), Err(CameraError::StreamNotOpen));
}

#[test]
fn session_keeps_the_device_it_was_made_for() {
    let devices = vec![DeviceDescriptor::Name("front".to_string())];
    let request = Camera::select_device(Ok(devices)).unwrap();
    let mut camera = Camera::new(request, Ok(())).unwrap();
    assert_eq!(camera.device(), &DeviceDescriptor::Name("front".to_string()));
    camera.open_stream(Ok(())).unwrap();
    assert_eq!(camera.device(), &DeviceDescriptor::Name("front".to_string()));
    assert_eq!(camera.format(), FormatRequest::standard());
}

#[test]
fn refused_connection_gives_initialization_failed() {
    let result = Camera::new(standard_request(), Err("format not supported".to_string()));
    match result {
        Err(error) => {
            assert_eq!(error, CameraError::InitializationFailed("format not supported".to_string()))
        }
        Ok(_) => panic!("a refused connection made a session"),
    }
}

#[test]
fn capture_on_closed_session_is_stream_not_open() {
    let mut camera = closed_session();
    let result = camera.capture_frame(Ok(grey_nv12_frame(16)));
    assert_eq!(result, Err(CameraError::StreamNotOpen));
    let result = camera.capture_frame(Err("device gone".to_string()));
    assert_eq!(result, Err(CameraError::StreamNotOpen));
    assert!(!camera.is_open());
}

#[test]
fn started_stream_opens_session() {
    let mut camera = closed_session();
    assert_eq!(camera.open_stream(Ok(())), Ok(()));
    assert!(camera.is_open());
    assert_eq!(camera.check_streaming(), Ok(()));
    assert_eq!(camera.device(), &DeviceDescriptor::Index(0));
    assert_eq!(camera.format(), FormatRequest::standard());
}

#[test]
fn failed_start_leaves_session_closed() {
    let mut camera = closed_session();
    let result = camera.open_stream(Err("device busy".to_string()));
    assert_eq!(result, Err(CameraError::InitializationFailed("device busy".to_string())));
    assert!(!camera.is_open());
    assert_eq!(camera.check_streaming(), Err(CameraError::StreamNotOpen));
}

#[test]
fn second_start_keeps_session_open() {
    let mut camera = open_session();
    assert_eq!(camera.open_stream(Ok(())), Ok(()));
    assert!(camera.is_open());
    assert_eq!(camera.check_streaming(), Ok(()));
}

#[test]
fn failed_restart_leaves_session_open() {
    let mut camera = open_session();
    let result = camera.open_stream(Err("already streaming".to_string()));
    assert_eq!(result, Err(CameraError::InitializationFailed("already streaming".to_string())));
    assert!(camera.is_open());
}

#[test]
fn supported_device_yields_640_by_360_grid() {
    let request = Camera::select_device(Ok(vec![DeviceDescriptor::Index(0)])).unwrap();
    let mut camera = Camera::new(request, Ok(())).unwrap();
    assert!(!camera.is_open());
    assert_eq!(camera.open_stream(Ok(())), Ok(()));
    assert!(camera.is_open());
    let frame = camera.capture_frame(Ok(grey_nv12_frame(235))).unwrap();
    assert_eq!(frame.width(), 640);
    assert_eq!(frame.height(), 360);
    assert_eq!(frame.pixels().len(), 640 * 360 * 3);
    assert!(frame.pixels().iter().all(|byte| *byte == 255));
    assert_eq!(frame.packed_rgb().len(), 640 * 360);
}

#[test]
fn backend_failure_while_streaming_is_handed_on() {
    let mut camera = open_session();
    let result = camera.capture_frame(Err("read timed out".to_string()));
    assert_eq!(result, Err(CameraError::InitializationFailed("read timed out".to_string())));
    assert!(camera.is_open());
}

#[test]
fn malformed_frame_fails_and_next_good_frame_decodes() {
    let mut camera = open_session();
    let malformed = RawFrame {
        width: 640,
        height: 360,
        encoding: PixelEncoding::Nv12,
        data: vec![16u8; 1000],
    };
    assert_eq!(camera.capture_frame(Ok(malformed)), Err(CameraError::FrameDecodeError));
    assert!(camera.is_open());
    let frame = camera.capture_frame(Ok(grey_nv12_frame(16))).unwrap();
    assert_eq!(frame.width(), 640);
    assert_eq!(frame.height(), 360);
    assert!(frame.pixels().iter().all(|byte| *byte == 0));
    assert!(camera.is_open());
}

#[test]
fn frame_of_another_size_is_not_passed_on() {
    let mut camera = open_session();
    let mut data: Vec<u8> = vec![16u8; 320 * 240];
    data.extend(vec![128u8; 320 * 240 / 2]);
    let smaller = RawFrame { width: 320, height: 240, encoding: PixelEncoding::Nv12, data };
    assert_eq!(smaller.decode(320, 240).map(|frame| frame.width()), Ok(320));
    assert_eq!(camera.capture_frame(Ok(smaller)), Err(CameraError::FrameDecodeError));
    assert!(camera.is_open());
}

#[test]
fn frame_in_another_encoding_is_decoded_from_its_own() {
    let mut camera = open_session();
    let gray = RawFrame {
        width: 640,
        height: 360,
        encoding: PixelEncoding::Gray,
        data: vec![9u8; 640 * 360],
    };
    let frame = camera.capture_frame(Ok(gray)).unwrap();
    assert_eq!(frame.width(), 640);
    assert_eq!(frame.height(), 360);
    assert_eq!(frame.pixel(639, 359), Some((9, 9, 9)));
}
