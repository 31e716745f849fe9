//! What the crate asks of the native layer.
//!
//! A request names one native entry point and holds the arguments to call it
//! with. The caller performs the call and hands the reply to the transition
//! that the request belongs to. A [`Command`] is a call whose reply decides
//! nothing: it is performed and forgotten.

use vstd::prelude::*;
use crate::params::{InitParameters, RuntimeParameters};
use crate::types::{ImageView, Mem, StreamingCodec, SvoCompressionMode};
use crate::utils::optional_bytes;

verus! {

/// The arguments of the native call that opens a camera. Every string is
/// zero-terminated; an absent string is handed over as a null pointer.
#[derive(Clone, Debug, PartialEq, Eq, Hash)]
pub struct OpenRequest {
    pub camera_id: i32,
    pub params: InitParameters,
    pub svo_path: Option<Vec<u8>>,
    pub ip: Option<Vec<u8>>,
    pub stream_port: i32,
    pub output_file: Option<Vec<u8>>,
    pub opt_settings_path: Option<Vec<u8>>,
    pub opencv_calib_path: Option<Vec<u8>>,
}

/// An [`OpenRequest`] as plain values.
pub struct OpenCall {
    pub camera_id: i32,
    pub params: InitParameters,
    pub svo_path: Option<Seq<u8>>,
    pub ip: Option<Seq<u8>>,
    pub stream_port: i32,
    pub output_file: Option<Seq<u8>>,
    pub opt_settings_path: Option<Seq<u8>>,
    pub opencv_calib_path: Option<Seq<u8>>,
}

impl View for OpenRequest {
    type V = OpenCall;

    open spec fn view(&self) -> OpenCall {
        OpenCall {
            camera_id: self.camera_id,
            params: self.params,
            svo_path: optional_bytes(self.svo_path),
            ip: optional_bytes(self.ip),
            stream_port: self.stream_port,
            output_file: optional_bytes(self.output_file),
            opt_settings_path: optional_bytes(self.opt_settings_path),
            opencv_calib_path: optional_bytes(self.opencv_calib_path),
        }
    }
}

/// The arguments of the native call that starts a recording. The file name is
/// zero-terminated.
#[derive(Clone, Debug, PartialEq, Eq, Hash)]
pub struct RecordingRequest {
    pub camera_id: i32,
    pub output_file: Vec<u8>,
    pub compression_mode: SvoCompressionMode,
    pub bitrate: u32,
    pub target_framerate: i32,
    pub transcode_streaming_input: bool,
}

/// A [`RecordingRequest`] as plain values.
pub struct RecordingCall {
    pub camera_id: i32,
    pub output_file: Seq<u8>,
    pub compression_mode: SvoCompressionMode,
    pub bitrate: u32,
    pub target_framerate: i32,
    pub transcode_streaming_input: bool,
}

impl View for RecordingRequest {
    type V = RecordingCall;

    open spec fn view(&self) -> RecordingCall {
        RecordingCall {
            camera_id: self.camera_id,
            output_file: self.output_file@,
            compression_mode: self.compression_mode,
            bitrate: self.bitrate,
            target_framerate: self.target_framerate,
            transcode_streaming_input: self.transcode_streaming_input,
        }
    }
}

/// The arguments of the native call that starts a stream. A `gop_size` of -1
/// and a `target_framerate` of 0 leave the choice to the native layer;
/// `adaptative_bitrate` is 1 for yes and 0 for no.
#[derive(Clone, Copy, Debug, PartialEq, Eq, Hash, Structural)]
pub struct StreamingRequest {
    pub camera_id: i32,
    pub codec: StreamingCodec,
    pub bitrate: u32,
    pub port: u16,
    pub gop_size: i32,
    pub adaptative_bitrate: i32,
    pub chunk_size: i32,
    pub target_framerate: i32,
}

/// The arguments of the native call that captures a frame.
#[derive(Clone, Copy, Debug, PartialEq, Eq, Hash, Structural)]
pub struct GrabRequest {
    pub camera_id: i32,
    pub runtime: RuntimeParameters,
}

/// The arguments of the native call that copies an image of the current frame
/// into a buffer of `width * height` elements.
#[derive(Clone, Copy, Debug, PartialEq, Eq, Hash, Structural)]
pub struct RetrieveImageRequest {
    pub camera_id: i32,
    pub view: ImageView,
    pub mem: Mem,
    pub width: i32,
    pub height: i32,
}

/// The arguments of the native call that writes an image of the current frame
/// to a file. The file name is zero-terminated.
#[derive(Clone, Debug, PartialEq, Eq, Hash)]
pub struct SaveImageRequest {
    pub camera_id: i32,
    pub view: ImageView,
    pub output_file: Vec<u8>,
}

/// A [`SaveImageRequest`] as plain values.
pub struct SaveImageCall {
    pub camera_id: i32,
    pub view: ImageView,
    pub output_file: Seq<u8>,
}

impl View for SaveImageRequest {
    type V = SaveImageCall;

    open spec fn view(&self) -> SaveImageCall {
        SaveImageCall {
            camera_id: self.camera_id,
            view: self.view,
            output_file: self.output_file@,
        }
    }
}

/// A native call whose reply decides nothing.
#[derive(Clone, Copy, Debug, PartialEq, Eq, Hash, Structural)]
pub enum Command {
    /// Stop the recording of this camera.
    DisableRecording { camera_id: i32 },
    /// Hold the recording of this camera (`status` true) or take it up again
    /// (`status` false).
    PauseRecording { camera_id: i32, status: bool },
    /// Stop the stream of this camera.
    DisableStreaming { camera_id: i32 },
    /// Release this camera.
    CloseCamera { camera_id: i32 },
    /// Move the replay of this camera's file to a frame.
    SetSvoPosition { camera_id: i32, frame: i32 },
}

} // verus!
