//! The parameters handed to the native layer when a camera is opened and when
//! a frame is grabbed.

use vstd::prelude::*;
use crate::types::{
    CoordinateSystem, DepthMode, FlipMode, InputType, ReferenceFrame, Resolution, SensingMode,
    Unit,
};

verus! {

/// What the native layer is told when a camera is opened.
///
/// The native layer takes three of these values as fractions. They are held
/// here in thousandths: `depth_minimum_distance_milli` and
/// `depth_maximum_distance_milli` in thousandths of the coordinate unit, where
/// a negative value leaves the limit to the native layer, and
/// `open_timeout_millis` in thousandths of a second.
#[derive(Clone, Copy, Debug, PartialEq, Eq, Hash, Structural)]
pub struct InitParameters {
    pub input_type: InputType,
    pub resolution: Resolution,
    pub camera_fps: i32,
    pub camera_device_id: i32,
    pub camera_image_flip: FlipMode,
    pub camera_disable_self_calib: bool,
    pub enable_right_side_measure: bool,
    pub svo_real_time_mode: bool,
    pub depth_mode: DepthMode,
    pub depth_stabilization: bool,
    pub depth_minimum_distance_milli: i32,
    pub depth_maximum_distance_milli: i32,
    pub coordinate_unit: Unit,
    pub coordinate_system: CoordinateSystem,
    pub sdk_gpu_id: i32,
    pub sdk_verbose: i32,
    pub sensors_required: bool,
    pub enable_image_enhancement: bool,
    pub open_timeout_millis: i32,
}

impl InitParameters {
    /// The parameters of a camera opened with nothing chosen: a USB camera at
    /// 720 lines, frame rate and flipping left to the native layer, the most
    /// thorough depth mode with stabilisation, millimetres in image
    /// coordinates, any GPU, and five seconds to open.
    pub open spec fn spec_default() -> InitParameters {
        InitParameters {
            input_type: InputType::Usb,
            resolution: Resolution::Hd720,
            camera_fps: 0,
            camera_device_id: 0,
            camera_image_flip: FlipMode::Auto,
            camera_disable_self_calib: false,
            enable_right_side_measure: false,
            svo_real_time_mode: false,
            depth_mode: DepthMode::Ultra,
            depth_stabilization: true,
            depth_minimum_distance_milli: (-1000i32),
            depth_maximum_distance_milli: (-1000i32),
            coordinate_unit: Unit::Millimeter,
            coordinate_system: CoordinateSystem::Image,
            sdk_gpu_id: (-1i32),
            sdk_verbose: 0,
            sensors_required: false,
            enable_image_enhancement: true,
            open_timeout_millis: 5000,
        }
    }
}

impl Default for InitParameters {
    fn default() -> (r: Self)
        ensures
            r == InitParameters::spec_default(),
    {
        InitParameters {
            input_type: InputType::Usb,
            resolution: Resolution::Hd720,
            camera_fps: 0,
            camera_device_id: 0,
            camera_image_flip: FlipMode::Auto,
            camera_disable_self_calib: false,
            enable_right_side_measure: false,
            svo_real_time_mode: false,
            depth_mode: DepthMode::Ultra,
            depth_stabilization: true,
            depth_minimum_distance_milli: -1000,
            depth_maximum_distance_milli: -1000,
            coordinate_unit: Unit::Millimeter,
            coordinate_system: CoordinateSystem::Image,
            sdk_gpu_id: -1,
            sdk_verbose: 0,
            sensors_required: false,
            enable_image_enhancement: true,
            open_timeout_millis: 5000,
        }
    }
}

/// What the native layer is told when a frame is grabbed.
#[derive(Clone, Copy, Debug, PartialEq, Eq, Hash, Structural)]
pub struct RuntimeParameters {
    pub sensing_mode: SensingMode,
    pub reference_frame: ReferenceFrame,
    pub enable_depth: bool,
    pub confidence_threshold: i32,
    pub texture_confidence_threshold: i32,
}

impl RuntimeParameters {
    /// Standard sensing in the camera's own frame, with depth, and with both
    /// confidence thresholds at their most permissive.
    pub open spec fn spec_default() -> RuntimeParameters {
        RuntimeParameters {
            sensing_mode: SensingMode::Standard,
            reference_frame: ReferenceFrame::Camera,
            enable_depth: true,
            confidence_threshold: 100,
            texture_confidence_threshold: 100,
        }
    }
}

impl Default for RuntimeParameters {
    fn default() -> (r: Self)
        ensures
            r == RuntimeParameters::spec_default(),
    {
        RuntimeParameters {
            sensing_mode: SensingMode::Standard,
            reference_frame: ReferenceFrame::Camera,
            enable_depth: true,
            confidence_threshold: 100,
            texture_confidence_threshold: 100,
        }
    }
}

} // verus!
