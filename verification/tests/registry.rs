use cnokhwa::boundary::{
    cnokhwa_capture_opened, cnokhwa_capture_stopped, cnokhwa_device_format_frame_rate,
    cnokhwa_device_format_height, cnokhwa_device_format_type, cnokhwa_device_format_width,
    cnokhwa_device_formats_count, cnokhwa_device_model_id, cnokhwa_device_name,
    cnokhwa_device_unique_id, cnokhwa_devices_count, cnokhwa_frame_bytes_per_row,
    cnokhwa_frame_height, cnokhwa_frame_width, cnokhwa_has_first_frame,
    cnokhwa_has_videocapture_auth, cnokhwa_initialize, cnokhwa_start_capture,
    cnokhwa_stop_capture, copy_str,
};
use cnokhwa::registry::Registry;
use cnokhwa::result_code::{
    CaptureError, ERROR_BUFFER_NOT_ENOUGH_CAPACITY, ERROR_BUFFER_NULL, ERROR_DECODING_FRAME,
    ERROR_DEVICE_NOT_FOUND, ERROR_FORMAT_NOT_FOUND, ERROR_OPENING_DEVICE,
    ERROR_READING_CAMERA_SESSION, ERROR_READING_FRAME, ERROR_SESSION_ALREADY_STARTED,
    ERROR_SESSION_NOT_STARTED, ERROR_STATE_NOT_INITIALIZED, ERROR_UNKNOWN, RESULT_NO, RESULT_OK,
    RESULT_YES, STATUS_AUTHORIZED, STATUS_DENIED,
};
use cnokhwa::video_device::DiscoveredDevice;
use cnokhwa::video_format::{PixelEncoding, VideoFormat};

fn fmt(width: u32, height: u32, format: PixelEncoding, frame_rate: u32) -> VideoFormat {
    VideoFormat { width, height, format, frame_rate }
}

fn three_formats() -> Vec<VideoFormat> {
    vec![
        fmt(1280, 720, PixelEncoding::RAWRGB, 30),
        fmt(1280, 720, PixelEncoding::MJPEG, 60),
        fmt(640, 480, PixelEncoding::YUYV, 30),
    ]
}

fn found() -> Vec<DiscoveredDevice> {
    vec![
        DiscoveredDevice {
            index: 7,
            description: "Model A".to_string(),
            misc: String::new(),
            human_name: "Front camera".to_string(),
            formats: Some(three_formats()),
        },
        DiscoveredDevice {
            index: 9,
            description: "Model B".to_string(),
            misc: "serial-9".to_string(),
            human_name: "Rear camera".to_string(),
            formats: Some(vec![fmt(320, 240, PixelEncoding::NV12, 30)]),
        },
    ]
}

fn ready() -> Registry {
    let mut reg = Registry::new();
    assert_eq!(cnokhwa_initialize(&mut reg, Some(&found())), RESULT_OK);
    reg
}

fn open(reg: &mut Registry, device_index: u32, width: u32, height: u32) -> i32 {
    match cnokhwa_start_capture(reg, device_index, width, height) {
        Ok(request) => cnokhwa_capture_opened(reg, request.device, true),
        Err(code) => code,
    }
}

#[test]
fn codes_have_their_values() {
    assert_eq!(RESULT_OK, 0);
    assert_eq!(RESULT_YES, 0);
    assert_eq!(RESULT_NO, -256);
    assert_eq!(ERROR_DEVICE_NOT_FOUND, -1);
    assert_eq!(ERROR_FORMAT_NOT_FOUND, -2);
    assert_eq!(ERROR_OPENING_DEVICE, -3);
    assert_eq!(ERROR_SESSION_ALREADY_STARTED, -4);
    assert_eq!(ERROR_SESSION_NOT_STARTED, -5);
    assert_eq!(ERROR_STATE_NOT_INITIALIZED, -6);
    assert_eq!(ERROR_READING_CAMERA_SESSION, -7);
    assert_eq!(ERROR_READING_FRAME, -8);
    assert_eq!(ERROR_DECODING_FRAME, -9);
    assert_eq!(ERROR_BUFFER_NULL, -10);
    assert_eq!(ERROR_BUFFER_NOT_ENOUGH_CAPACITY, -11);
    assert_eq!(ERROR_UNKNOWN, -512);
    assert_eq!(STATUS_AUTHORIZED, 0);
    assert_eq!(STATUS_DENIED, -1);
}

#[test]
fn every_error_has_its_code() {
    assert_eq!(CaptureError::DeviceNotFound.code(), -1);
    assert_eq!(CaptureError::FormatNotFound.code(), -2);
    assert_eq!(CaptureError::OpeningDeviceFailed.code(), -3);
    assert_eq!(CaptureError::SessionAlreadyStarted.code(), -4);
    assert_eq!(CaptureError::SessionNotStarted.code(), -5);
    assert_eq!(CaptureError::StateNotInitialized.code(), -6);
    assert_eq!(CaptureError::ReadingCameraSessionFailed.code(), -7);
    assert_eq!(CaptureError::ReadingFrameFailed.code(), -8);
    assert_eq!(CaptureError::DecodingFrameFailed.code(), -9);
    assert_eq!(CaptureError::BufferNull.code(), -10);
    assert_eq!(CaptureError::BufferTooSmall.code(), -11);
    assert_eq!(CaptureError::Unknown.code(), -512);
}

#[test]
fn authorization_status() {
    assert_eq!(cnokhwa_has_videocapture_auth(true), 0);
    assert_eq!(cnokhwa_has_videocapture_auth(false), -1);
}

#[test]
fn nothing_works_before_the_first_listing() {
    let mut reg = Registry::new();
    assert!(!reg.ready());
    assert_eq!(cnokhwa_devices_count(&reg), ERROR_STATE_NOT_INITIALIZED);
    assert_eq!(cnokhwa_device_formats_count(&reg, 0), ERROR_STATE_NOT_INITIALIZED);
    assert_eq!(cnokhwa_start_capture(&reg, 0, 640, 480), Err(ERROR_STATE_NOT_INITIALIZED));
    assert_eq!(cnokhwa_stop_capture(&mut reg, 0), Err(ERROR_STATE_NOT_INITIALIZED));
    assert_eq!(cnokhwa_has_first_frame(&reg, 0, true), ERROR_STATE_NOT_INITIALIZED);
    assert_eq!(cnokhwa_frame_width(&reg, 0, None), ERROR_STATE_NOT_INITIALIZED);
    assert_eq!(cnokhwa_capture_opened(&mut reg, 7, true), ERROR_STATE_NOT_INITIALIZED);
    let mut buf = vec![9u8; 4];
    assert_eq!(cnokhwa_device_name(&reg, 0, &mut buf), 0);
    assert_eq!(buf, vec![9u8; 4]);
    assert_eq!(cnokhwa_device_format_width(&reg, 0, 0), 0);
}

#[test]
fn failed_listing_changes_nothing() {
    let mut reg = Registry::new();
    assert_eq!(cnokhwa_initialize(&mut reg, None), ERROR_UNKNOWN);
    assert!(!reg.ready());
    let mut reg = ready();
    assert_eq!(open(&mut reg, 0, 640, 480), RESULT_OK);
    assert_eq!(cnokhwa_initialize(&mut reg, None), ERROR_UNKNOWN);
    assert_eq!(cnokhwa_devices_count(&reg), 2);
    assert!(reg.session_exists(7));
}

#[test]
fn listing_is_counted_and_read() {
    let reg = ready();
    assert_eq!(cnokhwa_devices_count(&reg), 2);
    assert_eq!(cnokhwa_device_formats_count(&reg, 0), 3);
    assert_eq!(cnokhwa_device_formats_count(&reg, 1), 1);
    assert_eq!(cnokhwa_device_formats_count(&reg, 2), ERROR_DEVICE_NOT_FOUND);
    assert_eq!(cnokhwa_device_formats_count(&reg, -1), ERROR_DEVICE_NOT_FOUND);
    // formats are kept sorted: 640x480 YUYV, 1280x720 MJPEG, 1280x720 RAWRGB
    assert_eq!(cnokhwa_device_format_width(&reg, 0, 0), 640);
    assert_eq!(cnokhwa_device_format_height(&reg, 0, 0), 480);
    assert_eq!(cnokhwa_device_format_frame_rate(&reg, 0, 0), 30);
    assert_eq!(cnokhwa_device_format_width(&reg, 0, 1), 1280);
    assert_eq!(cnokhwa_device_format_frame_rate(&reg, 0, 1), 60);
    assert_eq!(cnokhwa_device_format_height(&reg, 0, 2), 720);
    assert_eq!(cnokhwa_device_format_width(&reg, 0, 3), 0);
    assert_eq!(cnokhwa_device_format_height(&reg, 0, -1), 0);
    assert_eq!(cnokhwa_device_format_frame_rate(&reg, 5, 0), 0);
    assert_eq!(cnokhwa_device_format_width(&reg, -1, 0), 0);
}

#[test]
fn texts_are_written_with_a_terminator() {
    let reg = ready();
    let mut buf = vec![0xAAu8; 16];
    assert_eq!(cnokhwa_device_name(&reg, 0, &mut buf), 12);
    assert_eq!(&buf[..13], b"Front camera\0");
    assert_eq!(&buf[13..], &[0xAAu8; 3]);
    let mut buf = vec![0xAAu8; 16];
    assert_eq!(cnokhwa_device_unique_id(&reg, 0, &mut buf), 7);
    assert_eq!(&buf[..8], b"Model A\0");
    let mut buf = vec![0xAAu8; 16];
    assert_eq!(cnokhwa_device_unique_id(&reg, 1, &mut buf), 8);
    assert_eq!(&buf[..9], b"serial-9\0");
    let mut buf = vec![0xAAu8; 16];
    assert_eq!(cnokhwa_device_model_id(&reg, 1, &mut buf), 7);
    assert_eq!(&buf[..8], b"Model B\0");
    let mut buf = vec![0xAAu8; 16];
    assert_eq!(cnokhwa_device_format_type(&reg, 0, 2, &mut buf), 6);
    assert_eq!(&buf[..7], b"RAWRGB\0");
    let mut buf = vec![0xAAu8; 16];
    assert_eq!(cnokhwa_device_format_type(&reg, 0, 3, &mut buf), 0);
    assert_eq!(cnokhwa_device_model_id(&reg, 2, &mut buf), 0);
    assert_eq!(cnokhwa_device_name(&reg, -1, &mut buf), 0);
    assert_eq!(buf, vec![0xAAu8; 16]);
}

#[test]
fn copy_truncates_silently() {
    let mut buf = vec![1u8; 4];
    assert_eq!(copy_str("abcdef", &mut buf), 3);
    assert_eq!(buf, b"abc\0".to_vec());
    let mut buf = vec![1u8; 7];
    assert_eq!(copy_str("abcdef", &mut buf), 6);
    assert_eq!(buf, b"abcdef\0".to_vec());
    let mut buf = vec![1u8; 6];
    assert_eq!(copy_str("abcdef", &mut buf), 5);
    assert_eq!(buf, b"abcde\0".to_vec());
    let mut buf = vec![1u8; 1];
    assert_eq!(copy_str("abcdef", &mut buf), 0);
    assert_eq!(buf, vec![0u8]);
    let mut buf: Vec<u8> = Vec::new();
    assert_eq!(copy_str("abcdef", &mut buf), 0);
    assert!(buf.is_empty());
    let mut buf = vec![1u8; 3];
    assert_eq!(copy_str("", &mut buf), 0);
    assert_eq!(buf, vec![0u8, 1, 1]);
}

#[test]
fn start_on_unknown_device_is_refused() {
    let reg = ready();
    assert_eq!(cnokhwa_start_capture(&reg, 2, 640, 480), Err(ERROR_DEVICE_NOT_FOUND));
    assert_eq!(cnokhwa_start_capture(&reg, u32::MAX, 1, 1), Err(ERROR_DEVICE_NOT_FOUND));
    let mut empty = Registry::new();
    assert_eq!(cnokhwa_initialize(&mut empty, Some(&Vec::new())), RESULT_OK);
    assert_eq!(cnokhwa_start_capture(&empty, 0, 640, 480), Err(ERROR_DEVICE_NOT_FOUND));
}

#[test]
fn start_selects_the_only_match() {
    let reg = ready();
    let request = cnokhwa_start_capture(&reg, 0, 640, 480).unwrap();
    assert_eq!(request.device, 7);
    assert_eq!(request.format, fmt(640, 480, PixelEncoding::YUYV, 30));
}

#[test]
fn start_prefers_raw_to_faster_mjpeg() {
    let reg = ready();
    let request = cnokhwa_start_capture(&reg, 0, 1280, 720).unwrap();
    assert_eq!(request.format, fmt(1280, 720, PixelEncoding::RAWRGB, 30));
    assert_eq!(request.format_index, 2);
}

#[test]
fn start_without_matching_format() {
    let reg = ready();
    assert_eq!(cnokhwa_start_capture(&reg, 0, 800, 600), Err(ERROR_FORMAT_NOT_FOUND));
}

#[test]
fn second_start_is_refused_and_session_kept() {
    let mut reg = ready();
    assert_eq!(open(&mut reg, 0, 640, 480), RESULT_OK);
    let sessions = reg.state.as_ref().unwrap().camera_sessions.clone();
    assert_eq!(sessions, vec![7]);
    assert_eq!(open(&mut reg, 0, 640, 480), ERROR_SESSION_ALREADY_STARTED);
    assert_eq!(open(&mut reg, 0, 1280, 720), ERROR_SESSION_ALREADY_STARTED);
    assert_eq!(cnokhwa_capture_opened(&mut reg, 7, true), ERROR_SESSION_ALREADY_STARTED);
    assert_eq!(reg.state.as_ref().unwrap().camera_sessions, sessions);
    assert_eq!(open(&mut reg, 1, 320, 240), RESULT_OK);
    assert_eq!(reg.state.as_ref().unwrap().camera_sessions, vec![7, 9]);
}

#[test]
fn failed_open_enters_no_session() {
    let mut reg = ready();
    let request = cnokhwa_start_capture(&reg, 0, 640, 480).unwrap();
    assert_eq!(cnokhwa_capture_opened(&mut reg, request.device, false), ERROR_OPENING_DEVICE);
    assert!(!reg.session_exists(7));
    assert_eq!(open(&mut reg, 0, 640, 480), RESULT_OK);
}

#[test]
fn stop_without_session_changes_nothing() {
    let mut reg = ready();
    assert_eq!(open(&mut reg, 1, 320, 240), RESULT_OK);
    let devices = reg.state.as_ref().unwrap().devices.clone();
    assert_eq!(cnokhwa_stop_capture(&mut reg, 0), Err(ERROR_SESSION_NOT_STARTED));
    assert_eq!(cnokhwa_stop_capture(&mut reg, 5), Err(ERROR_DEVICE_NOT_FOUND));
    assert_eq!(reg.state.as_ref().unwrap().devices, devices);
    assert_eq!(reg.state.as_ref().unwrap().camera_sessions, vec![9]);
}

#[test]
fn stop_takes_the_session_out() {
    let mut reg = ready();
    assert_eq!(open(&mut reg, 0, 640, 480), RESULT_OK);
    assert_eq!(open(&mut reg, 1, 320, 240), RESULT_OK);
    assert_eq!(cnokhwa_stop_capture(&mut reg, 0), Ok(7));
    assert_eq!(cnokhwa_capture_stopped(true), RESULT_OK);
    assert_eq!(cnokhwa_capture_stopped(false), ERROR_SESSION_NOT_STARTED);
    assert!(!reg.session_exists(7));
    assert!(reg.session_exists(9));
    assert_eq!(cnokhwa_stop_capture(&mut reg, 0), Err(ERROR_SESSION_NOT_STARTED));
    assert_eq!(open(&mut reg, 0, 640, 480), RESULT_OK);
}

#[test]
fn sessions_survive_a_new_listing() {
    let mut reg = ready();
    assert_eq!(open(&mut reg, 0, 640, 480), RESULT_OK);
    assert_eq!(cnokhwa_initialize(&mut reg, Some(&found())), RESULT_OK);
    assert_eq!(reg.session_of(0), Ok(7));
    assert_eq!(cnokhwa_has_first_frame(&reg, 0, true), RESULT_YES);
    assert_eq!(open(&mut reg, 0, 640, 480), ERROR_SESSION_ALREADY_STARTED);
    assert_eq!(cnokhwa_stop_capture(&mut reg, 0), Ok(7));
}

#[test]
fn first_frame_is_yes_no_or_an_error() {
    let mut reg = ready();
    assert_eq!(cnokhwa_has_first_frame(&reg, 0, true), ERROR_SESSION_NOT_STARTED);
    assert_eq!(cnokhwa_has_first_frame(&reg, 4, true), ERROR_DEVICE_NOT_FOUND);
    assert_eq!(open(&mut reg, 0, 640, 480), RESULT_OK);
    assert_eq!(cnokhwa_has_first_frame(&reg, 0, true), RESULT_YES);
    assert_eq!(cnokhwa_has_first_frame(&reg, 0, false), RESULT_NO);
    assert_eq!(cnokhwa_has_first_frame(&reg, 1, false), ERROR_SESSION_NOT_STARTED);
}

#[test]
fn frame_geometry_comes_from_the_active_format() {
    let mut reg = ready();
    let active = Some(fmt(640, 480, PixelEncoding::YUYV, 30));
    assert_eq!(cnokhwa_frame_width(&reg, 0, active), ERROR_SESSION_NOT_STARTED);
    assert_eq!(cnokhwa_frame_height(&reg, 3, active), ERROR_DEVICE_NOT_FOUND);
    assert_eq!(open(&mut reg, 0, 640, 480), RESULT_OK);
    assert_eq!(cnokhwa_frame_width(&reg, 0, active), 640);
    assert_eq!(cnokhwa_frame_height(&reg, 0, active), 480);
    assert_eq!(cnokhwa_frame_bytes_per_row(&reg, 0, active), 1920);
    assert_eq!(cnokhwa_frame_width(&reg, 0, None), ERROR_READING_CAMERA_SESSION);
    assert_eq!(cnokhwa_frame_height(&reg, 0, None), ERROR_READING_CAMERA_SESSION);
    assert_eq!(cnokhwa_frame_bytes_per_row(&reg, 0, None), ERROR_READING_CAMERA_SESSION);
    assert_eq!(cnokhwa_frame_bytes_per_row(&reg, 1, active), ERROR_SESSION_NOT_STARTED);
}

#[test]
fn state_is_read_and_replaced() {
    let mut reg = Registry::new();
    assert!(cnokhwa::registry::State::current(&reg).is_none());
    let state = cnokhwa::registry::State { devices: Vec::new(), camera_sessions: vec![3] };
    state.make_current(&mut reg);
    let current = cnokhwa::registry::State::current(&reg).unwrap();
    assert!(current.devices.is_empty());
    assert_eq!(current.camera_sessions, vec![3]);
    assert_eq!(cnokhwa_devices_count(&reg), 0);
}
