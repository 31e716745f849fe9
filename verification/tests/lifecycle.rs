use zed_sdk::camera::input_source::{SVO, USB};
use zed_sdk::camera::recording_state::{Inactive, Recording};
use zed_sdk::camera::streaming_state;
use zed_sdk::{
    Camera, CameraBuilder, Command, Error, ErrorCode, GrabRequest, Inner, Model,
    RecordingParams, RecordingState, RuntimeParameters, SensingMode, StreamingCodec,
    StreamingParameters, StreamingRequest, StreamingState, SvoCompressionMode,
};

fn open(id: u8) -> Camera<USB, Inactive, streaming_state::Inactive> {
    CameraBuilder::new().open_usb(id, 0).unwrap()
}

fn open_svo() -> Camera<SVO, Inactive, streaming_state::Inactive> {
    CameraBuilder::new().open_svo(0).unwrap()
}

fn recording(id: u8) -> Camera<USB, Recording, streaming_state::Inactive> {
    match open(id).enable_recording(0) {
        Ok(camera) => camera,
        Err((_, error)) => panic!("{}", error.message()),
    }
}

fn state(id: i32, recording_state: RecordingState, streaming_state: StreamingState) -> Inner {
    Inner { id, recording_state, streaming_state }
}

#[test]
fn recording_request_with_defaults() {
    let mut camera = open(4);
    let r = camera.enable_recording_request(b"/data/out.svo", RecordingParams::default());
    assert_eq!(r.camera_id, 4);
    assert_eq!(r.output_file, b"/data/out.svo\0".to_vec());
    assert_eq!(r.compression_mode, SvoCompressionMode::H264);
    assert_eq!(r.bitrate, 0);
    assert_eq!(r.target_framerate, 0);
    assert!(!r.transcode_streaming_input);
}

#[test]
fn recording_request_carries_the_parameters() {
    let mut camera = open(0);
    let params = RecordingParams {
        compression_mode: SvoCompressionMode::H265,
        bitrate: 8000,
        target_framerate: 30,
        transcode_streaming_input: true,
    };
    let r = camera.enable_recording_request(b"a", params);
    assert_eq!(r.output_file, vec![b'a', 0]);
    assert_eq!(r.compression_mode, SvoCompressionMode::H265);
    assert_eq!(r.bitrate, 8000);
    assert_eq!(r.target_framerate, 30);
    assert!(r.transcode_streaming_input);
    assert_eq!(camera.state(), state(0, RecordingState::Inactive, StreamingState::Inactive));
}

#[test]
fn enable_recording_success() {
    let camera = recording(2);
    assert_eq!(camera.state(), state(2, RecordingState::Recording, StreamingState::Inactive));
}

#[test]
fn failed_enable_recording_returns_the_session_unchanged() {
    let camera = open(2);
    let before = camera.state();
    let code = ErrorCode::SvoUnsupportedCompression.code() as i32;
    let (camera, error) = match camera.enable_recording(code) {
        Ok(_) => panic!("a refused recording must not start"),
        Err(pair) => pair,
    };
    assert_eq!(error, Error::Code(ErrorCode::SvoUnsupportedCompression));
    assert_eq!(camera.state(), before);
    assert_eq!(camera.state(), state(2, RecordingState::Inactive, StreamingState::Inactive));
    let camera = match camera.enable_recording(0) {
        Ok(camera) => camera,
        Err((_, error)) => panic!("{}", error.message()),
    };
    assert_eq!(camera.state().recording_state, RecordingState::Recording);
}

#[test]
fn failed_enable_recording_on_a_reply_that_is_no_code() {
    let (camera, error) = match open(1).enable_recording(99) {
        Ok(_) => panic!("a refused recording must not start"),
        Err(pair) => pair,
    };
    assert_eq!(error, Error::Desc("unknown native result code 99".to_string()));
    assert_eq!(camera.state(), state(1, RecordingState::Inactive, StreamingState::Inactive));
}

#[test]
fn recording_round_trip_returns_to_the_start() {
    let camera = open(5);
    let before = camera.state();
    let camera = match camera.enable_recording(0) {
        Ok(camera) => camera,
        Err((_, error)) => panic!("{}", error.message()),
    };
    assert_eq!(camera.state(), state(5, RecordingState::Recording, StreamingState::Inactive));
    let (camera, pause) = camera.pause_recording();
    assert_eq!(pause, Command::PauseRecording { camera_id: 5, status: true });
    assert_eq!(camera.state(), state(5, RecordingState::Paused, StreamingState::Inactive));
    let (camera, resume) = camera.resume_recording();
    assert_eq!(resume, Command::PauseRecording { camera_id: 5, status: false });
    assert_eq!(camera.state(), state(5, RecordingState::Recording, StreamingState::Inactive));
    let (camera, disable) = camera.disable_recording();
    assert_eq!(disable, Command::DisableRecording { camera_id: 5 });
    assert_eq!(camera.state(), before);
}

#[test]
fn streaming_request_with_defaults() {
    let mut camera = open(6);
    let r = camera.enable_streaming_request(StreamingParameters::default());
    assert_eq!(
        r,
        StreamingRequest {
            camera_id: 6,
            codec: StreamingCodec::H265,
            bitrate: 80000,
            port: 30000,
            gop_size: -1,
            adaptative_bitrate: 0,
            chunk_size: 16084,
            target_framerate: 0,
        }
    );
}

#[test]
fn streaming_request_carries_the_parameters() {
    let mut camera = open(6);
    let params = StreamingParameters {
        codec: StreamingCodec::H264,
        bitrate: 12000,
        port: 4000,
        gop_size: Some(255),
        adaptative_bitrate: true,
        chunk_size: 8192,
        target_framerate: Some(15),
    };
    assert_eq!(
        camera.enable_streaming_request(params),
        StreamingRequest {
            camera_id: 6,
            codec: StreamingCodec::H264,
            bitrate: 12000,
            port: 4000,
            gop_size: 255,
            adaptative_bitrate: 1,
            chunk_size: 8192,
            target_framerate: 15,
        }
    );
    let zero = StreamingParameters { gop_size: Some(0), target_framerate: Some(0), ..params };
    let r = camera.enable_streaming_request(zero);
    assert_eq!(r.gop_size, 0);
    assert_eq!(r.target_framerate, 0);
}

#[test]
fn streaming_round_trip() {
    let camera = open(7);
    let before = camera.state();
    let camera = match camera.enable_streaming(0) {
        Ok(camera) => camera,
        Err((_, error)) => panic!("{}", error.message()),
    };
    assert_eq!(camera.state(), state(7, RecordingState::Inactive, StreamingState::Streaming));
    let (camera, command) = camera.disable_streaming();
    assert_eq!(command, Command::DisableStreaming { camera_id: 7 });
    assert_eq!(camera.state(), before);
}

#[test]
fn failed_enable_streaming_returns_the_session_unchanged() {
    let camera = recording(7);
    let before = camera.state();
    let code = ErrorCode::InvalidFunctionParameters.code() as i32;
    let (camera, error) = match camera.enable_streaming(code) {
        Ok(_) => panic!("a refused stream must not start"),
        Err(pair) => pair,
    };
    assert_eq!(error, Error::Code(ErrorCode::InvalidFunctionParameters));
    assert_eq!(camera.state(), before);
    assert_eq!(camera.state(), state(7, RecordingState::Recording, StreamingState::Inactive));
}

#[test]
fn the_two_axes_move_independently() {
    let camera = recording(8);
    let camera = match camera.enable_streaming(0) {
        Ok(camera) => camera,
        Err((_, error)) => panic!("{}", error.message()),
    };
    assert_eq!(camera.state(), state(8, RecordingState::Recording, StreamingState::Streaming));
    let (camera, _) = camera.pause_recording();
    assert_eq!(camera.state(), state(8, RecordingState::Paused, StreamingState::Streaming));
    let (camera, _) = camera.disable_streaming();
    assert_eq!(camera.state(), state(8, RecordingState::Paused, StreamingState::Inactive));
    let (camera, _) = camera.resume_recording();
    let (camera, _) = camera.disable_recording();
    assert_eq!(camera.state(), state(8, RecordingState::Inactive, StreamingState::Inactive));
}

#[test]
fn close_of_an_idle_session_releases_the_camera() {
    assert_eq!(open(9).close(), vec![Command::CloseCamera { camera_id: 9 }]);
    assert_eq!(open_svo().close(), vec![Command::CloseCamera { camera_id: 0 }]);
}

#[test]
fn close_while_recording_and_streaming() {
    let camera = match recording(3).enable_streaming(0) {
        Ok(camera) => camera,
        Err((_, error)) => panic!("{}", error.message()),
    };
    let plan = camera.close();
    assert_eq!(
        plan,
        vec![
            Command::DisableRecording { camera_id: 3 },
            Command::DisableStreaming { camera_id: 3 },
            Command::CloseCamera { camera_id: 3 },
        ]
    );
    let count = |c: Command| plan.iter().filter(|p| **p == c).count();
    assert_eq!(count(Command::DisableRecording { camera_id: 3 }), 1);
    assert_eq!(count(Command::DisableStreaming { camera_id: 3 }), 1);
    assert_eq!(count(Command::CloseCamera { camera_id: 3 }), 1);
}

#[test]
fn close_while_recording_or_paused() {
    assert_eq!(
        recording(3).close(),
        vec![Command::DisableRecording { camera_id: 3 }, Command::CloseCamera { camera_id: 3 }]
    );
    let (paused, _) = recording(3).pause_recording();
    assert_eq!(
        paused.close(),
        vec![Command::DisableRecording { camera_id: 3 }, Command::CloseCamera { camera_id: 3 }]
    );
}

#[test]
fn close_while_streaming() {
    let camera = match open(3).enable_streaming(0) {
        Ok(camera) => camera,
        Err((_, error)) => panic!("{}", error.message()),
    };
    assert_eq!(
        camera.close(),
        vec![Command::DisableStreaming { camera_id: 3 }, Command::CloseCamera { camera_id: 3 }]
    );
}

#[test]
fn release_of_the_state_happens_once() {
    let mut inner = state(4, RecordingState::Paused, StreamingState::Streaming);
    assert_eq!(
        inner.release(),
        vec![
            Command::DisableRecording { camera_id: 4 },
            Command::DisableStreaming { camera_id: 4 },
            Command::CloseCamera { camera_id: 4 },
        ]
    );
    assert_eq!(inner, state(4, RecordingState::Closed, StreamingState::Closed));
    assert_eq!(inner.release(), vec![]);
    assert_eq!(inner, state(4, RecordingState::Closed, StreamingState::Closed));
}

#[test]
fn grab_request_carries_the_parameters() {
    let mut camera = recording(1);
    let runtime = RuntimeParameters { sensing_mode: SensingMode::Fill, ..Default::default() };
    assert_eq!(camera.grab_request(runtime), GrabRequest { camera_id: 1, runtime });
}

#[test]
fn grab_success_and_failure() {
    let mut camera = recording(1);
    assert!(camera.grab(0).is_ok());
    assert_eq!(
        camera.grab(ErrorCode::EndOfSvofileReached.code() as i32).err(),
        Some(Error::Code(ErrorCode::EndOfSvofileReached))
    );
    assert_eq!(
        camera.grab(-5).err(),
        Some(Error::Desc("unknown native result code 4294967291".to_string()))
    );
    assert_eq!(camera.state(), state(1, RecordingState::Recording, StreamingState::Inactive));
    assert!(camera.grab(0).is_ok());
}

#[test]
fn sizes_from_native_replies() {
    let mut camera = open(0);
    assert_eq!(camera.width(1280), 1280);
    assert_eq!(camera.height(720), 720);
    assert_eq!(camera.resolution(2208, 1242), (2208, 1242));
    assert_eq!(camera.resolution(0, 0), (0, 0));
    assert_eq!(camera.width(-1), usize::MAX);
    assert_eq!(camera.height(i32::MAX), 2147483647);
}

#[test]
fn model_from_native_reply() {
    let mut camera = open(0);
    assert_eq!(camera.model(0), Some(Model::Zed));
    assert_eq!(camera.model(3), Some(Model::Zed2i));
    assert_eq!(camera.model(4), None);
    assert_eq!(camera.model(-1), None);
}

#[test]
fn settings_from_native_reply() {
    let mut camera = open(0);
    assert_eq!(camera.settings(0), Ok(0));
    assert_eq!(camera.settings(8), Ok(8));
    assert_eq!(
        camera.settings(-1),
        Err(Error::Desc("unable to get video settings".to_string()))
    );
    assert_eq!(
        camera.settings(i32::MIN),
        Err(Error::Desc("unable to get video settings".to_string()))
    );
}

#[test]
fn svo_position_and_length() {
    let mut camera = open_svo();
    assert_eq!(camera.svo_position(0), 0);
    assert_eq!(camera.svo_position(41), 41);
    assert_eq!(camera.num_frames(900), 900);
    assert_eq!(camera.num_frames(-1), usize::MAX);
    assert_eq!(camera.set_svo_position(120), Command::SetSvoPosition { camera_id: 0, frame: 120 });
    assert_eq!(camera.set_svo_position(0), Command::SetSvoPosition { camera_id: 0, frame: 0 });
}
