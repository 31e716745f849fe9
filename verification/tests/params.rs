use zed_sdk::utils::{contains_nul, optional_cstr, osstr_to_cstr};
use zed_sdk::{
    CoordinateSystem, DepthMode, FlipMode, InitParameters, Input, InputType, RecordingParams,
    ReferenceFrame, Resolution, RuntimeParameters, SensingMode, StreamAddress, StreamingCodec,
    StreamingParameters, SvoCompressionMode, Unit, MAX_CAMERA_PLUGIN,
};

#[test]
fn init_parameters_defaults() {
    let p = InitParameters::default();
    assert_eq!(p.input_type, InputType::Usb);
    assert_eq!(p.resolution, Resolution::Hd720);
    assert_eq!(p.camera_fps, 0);
    assert_eq!(p.camera_device_id, 0);
    assert_eq!(p.camera_image_flip, FlipMode::Auto);
    assert!(!p.camera_disable_self_calib);
    assert!(!p.enable_right_side_measure);
    assert!(!p.svo_real_time_mode);
    assert_eq!(p.depth_mode, DepthMode::Ultra);
    assert!(p.depth_stabilization);
    assert_eq!(p.depth_minimum_distance_milli, -1000);
    assert_eq!(p.depth_maximum_distance_milli, -1000);
    assert_eq!(p.coordinate_unit, Unit::Millimeter);
    assert_eq!(p.coordinate_system, CoordinateSystem::Image);
    assert_eq!(p.sdk_gpu_id, -1);
    assert_eq!(p.sdk_verbose, 0);
    assert!(!p.sensors_required);
    assert!(p.enable_image_enhancement);
    assert_eq!(p.open_timeout_millis, 5000);
}

#[test]
fn open_timeout_default_is_five_seconds() {
    let p = InitParameters::default();
    let seconds = p.open_timeout_millis as f64 / 1000.0;
    assert_eq!(seconds, 5.0);
    assert_eq!(p.depth_minimum_distance_milli as f32 / 1000.0, -1.0);
    assert_eq!(p.depth_maximum_distance_milli as f32 / 1000.0, -1.0);
}

#[test]
fn runtime_parameters_defaults() {
    let p = RuntimeParameters::default();
    assert_eq!(p.sensing_mode, SensingMode::Standard);
    assert_eq!(p.reference_frame, ReferenceFrame::Camera);
    assert!(p.enable_depth);
    assert_eq!(p.confidence_threshold, 100);
    assert_eq!(p.texture_confidence_threshold, 100);
}

#[test]
fn recording_params_defaults() {
    let p = RecordingParams::default();
    assert_eq!(p.compression_mode, SvoCompressionMode::H264);
    assert_eq!(p.bitrate, 0);
    assert_eq!(p.target_framerate, 0);
    assert!(!p.transcode_streaming_input);
}

#[test]
fn streaming_parameters_defaults() {
    let p = StreamingParameters::default();
    assert_eq!(p.codec, StreamingCodec::H265);
    assert_eq!(p.bitrate, 80000);
    assert_eq!(p.port, 30000);
    assert_eq!(p.gop_size, None);
    assert!(!p.adaptative_bitrate);
    assert_eq!(p.chunk_size, 16084);
    assert_eq!(p.target_framerate, None);
}

#[test]
fn camera_limit_is_twenty() {
    assert_eq!(MAX_CAMERA_PLUGIN, 20);
}

#[test]
fn c_string_ends_in_one_zero_byte() {
    assert_eq!(osstr_to_cstr(b"/tmp/a.svo"), b"/tmp/a.svo\0".to_vec());
    assert_eq!(osstr_to_cstr(b""), vec![0u8]);
    assert_eq!(osstr_to_cstr(&[0xff, 0x80]), vec![0xff, 0x80, 0]);
}

#[test]
fn optional_c_string_keeps_absence() {
    assert_eq!(optional_cstr(&None), None);
    assert_eq!(optional_cstr(&Some(b"ab".to_vec())), Some(b"ab\0".to_vec()));
}

#[test]
fn zero_bytes_are_found() {
    assert!(!contains_nul(b""));
    assert!(!contains_nul(b"/tmp/a.svo"));
    assert!(contains_nul(b"\0"));
    assert!(contains_nul(b"/tmp/\0a.svo"));
    assert!(contains_nul(b"/tmp/a.svo\0"));
}

#[test]
fn input_of_a_file() {
    let input = Input::svo_file(b"/data/run.svo".to_vec());
    assert_eq!(input, Input::Svo(b"/data/run.svo".to_vec()));
    assert_eq!(input.input_type(), InputType::Svo);
    assert_eq!(Input::from(b"/data/run.svo".to_vec()), input);
}

#[test]
fn input_of_a_stream() {
    let addr = StreamAddress { ip: b"192.168.1.20".to_vec(), port: 30000 };
    let input = Input::stream(addr.clone());
    assert_eq!(input, Input::Stream(addr.clone()));
    assert_eq!(input.input_type(), InputType::Stream);
    assert_eq!(Input::from(addr), input);
}

#[test]
fn input_of_a_usb_camera() {
    let input = Input::usb(3);
    assert_eq!(input, Input::Usb(3));
    assert_eq!(input.input_type(), InputType::Usb);
    assert_eq!(Input::from(3), input);
    assert_eq!(Input::usb(-2), Input::Usb(-2));
    assert_eq!(Input::usb(2147483647), Input::Usb(i32::MAX));
    assert_eq!(Input::usb(-2147483648), Input::Usb(i32::MIN));
}

#[test]
fn usb_number_must_fit_a_c_integer() {
    assert_eq!(Input::checked_usb(0), Some(Input::Usb(0)));
    assert_eq!(Input::checked_usb(2147483647), Some(Input::Usb(i32::MAX)));
    assert_eq!(Input::checked_usb(2147483648), None);
    assert_eq!(Input::checked_usb(-2147483649), None);
    assert_eq!(Input::checked_usb(i64::MAX), None);
    assert_eq!(Input::checked_usb(4294967296 + 5), None);
}
