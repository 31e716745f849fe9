//! Opening a camera: the choices made beforehand, the request that opens it,
//! and the session that a successful reply yields.

use vstd::prelude::*;
use crate::camera::cam::Camera;
use crate::camera::inner::Inner;
use crate::camera::input_source::{Stream, SVO, USB};
use crate::camera::recording_state::Inactive;
use crate::camera::streaming_state;
use crate::error::{is_error_of_code, reply_code, reply_to_result, Error, ErrorCode};
use crate::params::InitParameters;
use crate::request::{OpenCall, OpenRequest};
use crate::types::{CoordinateSystem, DepthMode, FlipMode, InputType, Resolution, Unit};
use crate::utils::{
    c_string, optional_c_string, optional_cstr, optional_nul_free, osstr_to_cstr,
};

verus! {

/// The choices made before a camera is opened.
#[derive(Debug, Clone)]
pub struct CameraBuilder {
    pub output_file: Option<Vec<u8>>,
    pub opt_settings_path: Option<Vec<u8>>,
    pub opencv_calib_path: Option<Vec<u8>>,
    pub params: InitParameters,
}

/// The frame rate handed to the native layer for the choice `fps`: zero, which
/// leaves the rate to the native layer, where nothing was chosen.
pub open spec fn chosen_fps(fps: Option<u32>) -> i32 {
    match fps {
        Some(fps) => #[verifier::truncate]
        (fps as i32),
        None => 0i32,
    }
}

/// The camera number under which a file or a stream is opened.
pub const FIRST_CAMERA_ID: i32 = 0;

impl CameraBuilder {
    /// Whether none of the three file names holds a zero byte.
    pub open spec fn nul_free(self) -> bool {
        &&& optional_nul_free(self.output_file)
        &&& optional_nul_free(self.opt_settings_path)
        &&& optional_nul_free(self.opencv_calib_path)
    }

    /// The request that opens camera `camera_id` with `params` and the file
    /// names chosen so far, on no file and no stream.
    pub open spec fn base_call(self, camera_id: i32, params: InitParameters) -> OpenCall {
        OpenCall {
            camera_id,
            params,
            svo_path: None,
            ip: None,
            stream_port: 0,
            output_file: optional_c_string(self.output_file),
            opt_settings_path: optional_c_string(self.opt_settings_path),
            opencv_calib_path: optional_c_string(self.opencv_calib_path),
        }
    }

    /// The request that opens the USB camera `id`.
    pub open spec fn usb_call(self, id: u8) -> OpenCall {
        self.base_call(
            id as i32,
            InitParameters {
                camera_device_id: id as i32,
                input_type: InputType::Usb,
                ..self.params
            },
        )
    }

    /// The request that opens the recorded file `svo_path`.
    pub open spec fn svo_call(self, svo_path: Seq<u8>) -> OpenCall {
        OpenCall {
            svo_path: Some(c_string(svo_path)),
            ..self.base_call(
                FIRST_CAMERA_ID,
                InitParameters { input_type: InputType::Svo, ..self.params },
            )
        }
    }

    /// The request that opens the stream sent from address `ip`, port `port`.
    pub open spec fn stream_call(self, ip: Seq<u8>, port: u16) -> OpenCall {
        OpenCall {
            ip: Some(c_string(ip)),
            stream_port: port as i32,
            ..self.base_call(
                FIRST_CAMERA_ID,
                InitParameters { input_type: InputType::Stream, ..self.params },
            )
        }
    }

    /// A builder with nothing chosen.
    pub fn new() -> (r: Self)
        ensures
            r.output_file is None,
            r.opt_settings_path is None,
            r.opencv_calib_path is None,
            r.params == InitParameters::spec_default(),
    {
        CameraBuilder {
            output_file: None,
            opt_settings_path: None,
            opencv_calib_path: None,
            params: InitParameters::default(),
        }
    }

    /// Chooses the frame rate, or leaves it to the native layer.
    pub fn fps(self, fps: Option<u32>) -> (r: Self)
        ensures
            r.params == (InitParameters { camera_fps: chosen_fps(fps), ..self.params }),
            fps matches Some(rate) ==> (rate <= i32::MAX ==> r.params.camera_fps == rate),
            r.output_file == self.output_file,
            r.opt_settings_path == self.opt_settings_path,
            r.opencv_calib_path == self.opencv_calib_path,
    {
        let fps: i32 = match fps {
            Some(fps) => #[verifier::truncate]
            (fps as i32),
            None => 0,
        };
        CameraBuilder { params: InitParameters { camera_fps: fps, ..self.params }, ..self }
    }

    /// Chooses the size of the frames.
    pub fn resolution(self, resolution: Resolution) -> (r: Self)
        ensures
            r.params == (InitParameters { resolution, ..self.params }),
            r.output_file == self.output_file,
            r.opt_settings_path == self.opt_settings_path,
            r.opencv_calib_path == self.opencv_calib_path,
    {
        CameraBuilder { params: InitParameters { resolution, ..self.params }, ..self }
    }

    /// Chooses whether frames are turned upside down.
    pub fn flip_mode(self, flip_mode: FlipMode) -> (r: Self)
        ensures
            r.params == (InitParameters { camera_image_flip: flip_mode, ..self.params }),
            r.output_file == self.output_file,
            r.opt_settings_path == self.opt_settings_path,
            r.opencv_calib_path == self.opencv_calib_path,
    {
        CameraBuilder {
            params: InitParameters { camera_image_flip: flip_mode, ..self.params },
            ..self
        }
    }

    /// Chooses the depth mode.
    pub fn depth_mode(self, depth_mode: DepthMode) -> (r: Self)
        ensures
            r.params == (InitParameters { depth_mode, ..self.params }),
            r.output_file == self.output_file,
            r.opt_settings_path == self.opt_settings_path,
            r.opencv_calib_path == self.opencv_calib_path,
    {
        CameraBuilder { params: InitParameters { depth_mode, ..self.params }, ..self }
    }

    /// Chooses the unit of distances.
    pub fn unit(self, unit: Unit) -> (r: Self)
        ensures
            r.params == (InitParameters { coordinate_unit: unit, ..self.params }),
            r.output_file == self.output_file,
            r.opt_settings_path == self.opt_settings_path,
            r.opencv_calib_path == self.opencv_calib_path,
    {
        CameraBuilder { params: InitParameters { coordinate_unit: unit, ..self.params }, ..self }
    }

    /// Chooses the coordinate system.
    pub fn coordinate_system(self, sys: CoordinateSystem) -> (r: Self)
        ensures
            r.params == (InitParameters { coordinate_system: sys, ..self.params }),
            r.output_file == self.output_file,
            r.opt_settings_path == self.opt_settings_path,
            r.opencv_calib_path == self.opencv_calib_path,
    {
        CameraBuilder { params: InitParameters { coordinate_system: sys, ..self.params }, ..self }
    }

    /// Chooses whether the camera calibrates itself when it is opened.
    pub fn camera_self_calb(self, yes: bool) -> (r: Self)
        ensures
            r.params == (InitParameters { camera_disable_self_calib: !yes, ..self.params }),
            r.output_file == self.output_file,
            r.opt_settings_path == self.opt_settings_path,
            r.opencv_calib_path == self.opencv_calib_path,
    {
        CameraBuilder {
            params: InitParameters { camera_disable_self_calib: !yes, ..self.params },
            ..self
        }
    }

    /// Chooses the file that the native layer writes its log to.
    pub fn output_file(self, path: Vec<u8>) -> (r: Self)
        ensures
            r.output_file == Some(path),
            r.opt_settings_path == self.opt_settings_path,
            r.opencv_calib_path == self.opencv_calib_path,
            r.params == self.params,
    {
        CameraBuilder { output_file: Some(path), ..self }
    }

    /// Chooses the directory of the optional settings.
    pub fn opt_settings_path(self, path: Vec<u8>) -> (r: Self)
        ensures
            r.opt_settings_path == Some(path),
            r.output_file == self.output_file,
            r.opencv_calib_path == self.opencv_calib_path,
            r.params == self.params,
    {
        CameraBuilder { opt_settings_path: Some(path), ..self }
    }

    /// Chooses the calibration file.
    pub fn opencv_calib_path(self, path: Vec<u8>) -> (r: Self)
        ensures
            r.opencv_calib_path == Some(path),
            r.output_file == self.output_file,
            r.opt_settings_path == self.opt_settings_path,
            r.params == self.params,
    {
        CameraBuilder { opencv_calib_path: Some(path), ..self }
    }

    fn base_request(&self, camera_id: i32, params: InitParameters) -> (r: OpenRequest)
        requires
            self.nul_free(),
        ensures
            r@ == self.base_call(camera_id, params),
            r.svo_path is None,
            r.ip is None,
    {
        OpenRequest {
            camera_id,
            params,
            svo_path: None,
            ip: None,
            stream_port: 0,
            output_file: optional_cstr(&self.output_file),
            opt_settings_path: optional_cstr(&self.opt_settings_path),
            opencv_calib_path: optional_cstr(&self.opencv_calib_path),
        }
    }

    /// The request that opens the recorded file `svo_path` for replay.
    pub fn open_svo_request(&self, svo_path: &[u8]) -> (r: OpenRequest)
        requires
            self.nul_free(),
            !svo_path@.contains(0u8),
        ensures
            r@ == self.svo_call(svo_path@),
    {
        let params = InitParameters { input_type: InputType::Svo, ..self.params };
        let mut request = self.base_request(FIRST_CAMERA_ID, params);
        request.svo_path = Some(osstr_to_cstr(svo_path));
        request
    }

    /// Takes the native reply to the request that opens a recorded file. On
    /// success there is a session, idle on both axes. On any other reply there
    /// is none, only the error that the reply maps to.
    pub fn open_svo(self, code: i32) -> (r: Result<
        Camera<SVO, Inactive, streaming_state::Inactive>,
        Error,
    >)
        ensures
            r is Ok <==> code == 0,
            r matches Ok(camera) ==> camera@ == Inner::opened(FIRST_CAMERA_ID),
            r matches Err(error) ==> is_error_of_code(error, reply_code(code)),
            forall|kind: ErrorCode|
                kind != ErrorCode::Success && code == #[trigger] kind.spec_code() ==> r is Err
                    && r->Err_0 == Error::Code(kind),
    {
        match reply_to_result(code) {
            Ok(()) => Ok(Camera::new(FIRST_CAMERA_ID)),
            Err(error) => Err(error),
        }
    }

    /// The request that opens the stream that the host at address `ip` sends
    /// from port `port`. The address is given as text.
    pub fn open_stream_request(&self, ip: &[u8], port: u16) -> (r: OpenRequest)
        requires
            self.nul_free(),
            !ip@.contains(0u8),
        ensures
            r@ == self.stream_call(ip@, port),
    {
        let params = InitParameters { input_type: InputType::Stream, ..self.params };
        let mut request = self.base_request(FIRST_CAMERA_ID, params);
        request.ip = Some(osstr_to_cstr(ip));
        request.stream_port = port as i32;
        request
    }

    /// Takes the native reply to the request that opens a stream. On success
    /// there is a session, idle on both axes. On any other reply there is
    /// none, only the error that the reply maps to.
    pub fn open_stream(self, code: i32) -> (r: Result<
        Camera<Stream, Inactive, streaming_state::Inactive>,
        Error,
    >)
        ensures
            r is Ok <==> code == 0,
            r matches Ok(camera) ==> camera@ == Inner::opened(FIRST_CAMERA_ID),
            r matches Err(error) ==> is_error_of_code(error, reply_code(code)),
            forall|kind: ErrorCode|
                kind != ErrorCode::Success && code == #[trigger] kind.spec_code() ==> r is Err
                    && r->Err_0 == Error::Code(kind),
    {
        match reply_to_result(code) {
            Ok(()) => Ok(Camera::new(FIRST_CAMERA_ID)),
            Err(error) => Err(error),
        }
    }

    /// The request that opens the USB camera `id`.
    pub fn open_usb_request(&self, id: u8) -> (r: OpenRequest)
        requires
            self.nul_free(),
        ensures
            r@ == self.usb_call(id),
    {
        let params = InitParameters {
            camera_device_id: id as i32,
            input_type: InputType::Usb,
            ..self.params
        };
        self.base_request(id as i32, params)
    }

    /// Takes the native reply to the request that opens the USB camera `id`.
    /// On success there is a session on that camera, idle on both axes. On any
    /// other reply there is none, only the error that the reply maps to.
    ///
    /// Whether a camera that is open already can be opened again is for the
    /// native layer to say, through its reply. What two sessions on one
    /// camera do to each other in the native layer is undefined; on the host
    /// they share nothing, each holds its own state.
    pub fn open_usb(self, id: u8, code: i32) -> (r: Result<
        Camera<USB, Inactive, streaming_state::Inactive>,
        Error,
    >)
        ensures
            r is Ok <==> code == 0,
            r matches Ok(camera) ==> camera@ == Inner::opened(id as i32),
            r matches Err(error) ==> is_error_of_code(error, reply_code(code)),
            forall|kind: ErrorCode|
                kind != ErrorCode::Success && code == #[trigger] kind.spec_code() ==> r is Err
                    && r->Err_0 == Error::Code(kind),
    {
        match reply_to_result(code) {
            Ok(()) => Ok(Camera::new(id as i32)),
            Err(error) => Err(error),
        }
    }
}

impl Default for CameraBuilder {
    fn default() -> (r: Self)
        ensures
            r.output_file is None,
            r.opt_settings_path is None,
            r.opencv_calib_path is None,
            r.params == InitParameters::spec_default(),
    {
        CameraBuilder::new()
    }
}

} // verus!
