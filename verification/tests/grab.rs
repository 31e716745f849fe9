use zed_sdk::camera::input_source::USB;
use zed_sdk::camera::recording_state::Recording;
use zed_sdk::camera::streaming_state;
use zed_sdk::{
    Camera, CameraBuilder, Error, ErrorCode, ImageView, Mem, RetrieveImageRequest,
};

fn recording(id: u8) -> Camera<USB, Recording, streaming_state::Inactive> {
    match CameraBuilder::new().open_usb(id, 0).unwrap().enable_recording(0) {
        Ok(camera) => camera,
        Err((_, error)) => panic!("{}", error.message()),
    }
}

fn desc(text: &str) -> Error {
    Error::Desc(text.to_string())
}

#[test]
fn retrieve_image_with_a_matching_buffer() {
    let mut camera = recording(2);
    let mut handle = camera.grab(0).unwrap_or_else(|e| panic!("{}", e.message()));
    let buffer = vec![0i32; 12];
    assert_eq!(
        handle.retrieve_image_request(ImageView::Left, Mem::Cpu, (4, 3), &buffer),
        Ok(RetrieveImageRequest {
            camera_id: 2,
            view: ImageView::Left,
            mem: Mem::Cpu,
            width: 4,
            height: 3,
        })
    );
    assert_eq!(handle.retrieve_image(0), Ok(()));
}

#[test]
fn retrieve_image_with_a_wrong_buffer_is_refused() {
    let mut camera = recording(2);
    let mut handle = camera.grab(0).unwrap_or_else(|e| panic!("{}", e.message()));
    let buffer = vec![0i32; 11];
    assert_eq!(
        handle.retrieve_image_request(ImageView::Left, Mem::Cpu, (4, 3), &buffer),
        Err(desc("expect buffer size to be 12 for 4x3, but get 11"))
    );
    assert_eq!(
        handle.retrieve_image_request(ImageView::Depth, Mem::Cpu, (1280, 720), &buffer),
        Err(desc("expect buffer size to be 921600 for 1280x720, but get 11"))
    );
    assert_eq!(
        handle.retrieve_image_request(ImageView::Left, Mem::Cpu, (11, 0), &buffer),
        Err(desc("expect buffer size to be 0 for 11x0, but get 11"))
    );
}

#[test]
fn retrieve_image_of_no_size() {
    let mut camera = recording(2);
    let mut handle = camera.grab(0).unwrap_or_else(|e| panic!("{}", e.message()));
    assert_eq!(
        handle.retrieve_image_request(ImageView::Left, Mem::Cpu, (0, 0), &[7]),
        Err(desc("expect buffer size to be 0 for 0x0, but get 1"))
    );
    assert_eq!(
        handle.retrieve_image_request(ImageView::Right, Mem::Gpu, (0, 0), &[]),
        Ok(RetrieveImageRequest {
            camera_id: 2,
            view: ImageView::Right,
            mem: Mem::Gpu,
            width: 0,
            height: 0,
        })
    );
    assert!(handle.retrieve_image_request(ImageView::Left, Mem::Cpu, (0, 5), &[]).is_ok());
}

#[test]
fn retrieve_image_of_a_size_past_every_buffer() {
    let mut camera = recording(2);
    let mut handle = camera.grab(0).unwrap_or_else(|e| panic!("{}", e.message()));
    let r = handle.retrieve_image_request(
        ImageView::Left,
        Mem::Cpu,
        (usize::MAX, usize::MAX),
        &[0, 0],
    );
    let area = (usize::MAX as u128) * (usize::MAX as u128);
    assert_eq!(
        r,
        Err(Error::Desc(format!(
            "expect buffer size to be {} for {}x{}, but get 2",
            area,
            usize::MAX,
            usize::MAX
        )))
    );
    let r = handle.retrieve_image_request(ImageView::Left, Mem::Cpu, (usize::MAX, 2), &[0, 0]);
    assert!(r.is_err());
}

#[test]
fn retrieve_image_reply() {
    let mut camera = recording(2);
    let mut handle = camera.grab(0).unwrap_or_else(|e| panic!("{}", e.message()));
    assert_eq!(handle.retrieve_image(0), Ok(()));
    assert_eq!(
        handle.retrieve_image(ErrorCode::InvalidFunctionParameters.code() as i32),
        Err(Error::Code(ErrorCode::InvalidFunctionParameters))
    );
    assert_eq!(handle.retrieve_image(34), Err(desc("unknown native result code 34")));
}

#[test]
fn retrieve_image_to_vec_with_a_size() {
    let mut camera = recording(5);
    let mut handle = camera.grab(0).unwrap_or_else(|e| panic!("{}", e.message()));
    let (request, buffer) =
        handle.retrieve_image_to_vec_request(ImageView::Left, Mem::Cpu, Some((3, 2)), (9, 9));
    assert_eq!(
        request,
        RetrieveImageRequest {
            camera_id: 5,
            view: ImageView::Left,
            mem: Mem::Cpu,
            width: 3,
            height: 2,
        }
    );
    assert_eq!(buffer, vec![0; 6]);
    let filled = vec![1, 2, 3, 4, 5, 6];
    assert_eq!(handle.retrieve_image_to_vec(filled.clone(), 0), Ok(filled));
}

#[test]
fn retrieve_image_to_vec_at_the_current_resolution() {
    let mut camera = recording(5);
    let current = camera.resolution(4, 2);
    let mut handle = camera.grab(0).unwrap_or_else(|e| panic!("{}", e.message()));
    let (request, buffer) =
        handle.retrieve_image_to_vec_request(ImageView::Depth, Mem::Cpu, None, current);
    assert_eq!(request.width, 4);
    assert_eq!(request.height, 2);
    assert_eq!(request.view, ImageView::Depth);
    assert_eq!(buffer, vec![0; 8]);
    let (_, empty) = handle.retrieve_image_to_vec_request(ImageView::Depth, Mem::Cpu, None, (0, 7));
    assert_eq!(empty, Vec::<i32>::new());
}

#[test]
fn retrieve_image_to_vec_failure_keeps_no_image() {
    let mut camera = recording(5);
    let mut handle = camera.grab(0).unwrap_or_else(|e| panic!("{}", e.message()));
    assert_eq!(
        handle.retrieve_image_to_vec(vec![9; 4], ErrorCode::Failure.code() as i32),
        Err(Error::Code(ErrorCode::Failure))
    );
}

#[test]
fn save_current_image_request_and_reply() {
    let mut camera = recording(6);
    let mut handle = camera.grab(0).unwrap_or_else(|e| panic!("{}", e.message()));
    let r = handle.save_current_image_request(ImageView::SideBySide, b"/tmp/frame.png");
    assert_eq!(r.camera_id, 6);
    assert_eq!(r.view, ImageView::SideBySide);
    assert_eq!(r.output_file, b"/tmp/frame.png\0".to_vec());
    assert_eq!(handle.save_current_image(0), Ok(()));
    assert_eq!(
        handle.save_current_image(ErrorCode::Failure.code() as i32),
        Err(Error::Code(ErrorCode::Failure))
    );
}

#[test]
fn the_session_is_usable_again_after_the_handle() {
    let mut camera = recording(6);
    {
        let mut handle = camera.grab(0).unwrap_or_else(|e| panic!("{}", e.message()));
        assert_eq!(handle.retrieve_image(0), Ok(()));
    }
    assert_eq!(camera.id(), 6);
    assert!(camera.grab(0).is_ok());
    let (camera, _) = camera.disable_recording();
    assert_eq!(camera.close().len(), 1);
}
