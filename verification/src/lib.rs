//! A typed front for a native stereo-camera library.
//!
//! The crate decides; it performs no native call itself. Each operation comes
//! in two parts: a request that says which native entry point to call and with
//! which arguments, and a transition that takes the native reply and yields the
//! session's next state. Which operations a session offers is fixed by its
//! type, and the state it carries at run time always agrees with that type.

pub mod camera;
pub mod consts;
pub mod device;
pub mod error;
pub mod input;
pub mod params;
pub mod recording;
pub mod request;
pub mod streaming_parameters;
pub mod text;
pub mod types;
pub mod utils;

pub use camera::{
    occurrences, Camera, CameraBuilder, GrabHandle, Inner, RecordingState, StreamingState,
    Transition,
};
pub use consts::MAX_CAMERA_PLUGIN;
pub use device::{get_device_list, DeviceProperties, RawDeviceProperties};
pub use error::{code_of_reply, code_to_result, reply_to_result, Error, ErrorCode};
pub use input::{Input, StreamAddress};
pub use params::{InitParameters, RuntimeParameters};
pub use recording::RecordingParams;
pub use request::{
    Command, GrabRequest, OpenRequest, RecordingRequest, RetrieveImageRequest, SaveImageRequest,
    StreamingRequest,
};
pub use streaming_parameters::StreamingParameters;
pub use types::{
    CameraState, CoordinateSystem, DepthMode, FlipMode, ImageView, InputType, Mem, Model,
    ReferenceFrame, Resolution, SensingMode, StreamingCodec, SvoCompressionMode, Unit,
};
