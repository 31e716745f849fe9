//! The parameters of a recording.

use vstd::prelude::*;
use crate::types::SvoCompressionMode;

verus! {

/// How a session records to a file. A bitrate or frame rate of zero leaves the
/// choice to the native layer.
#[derive(Clone, Copy, Debug, PartialEq, Eq, Hash, Structural)]
pub struct RecordingParams {
    pub compression_mode: SvoCompressionMode,
    pub bitrate: u32,
    pub target_framerate: u32,
    pub transcode_streaming_input: bool,
}

impl RecordingParams {
    /// H.264 at the bitrate and frame rate the native layer picks, without
    /// transcoding a streamed input.
    pub open spec fn spec_default() -> RecordingParams {
        RecordingParams {
            compression_mode: SvoCompressionMode::H264,
            bitrate: 0,
            target_framerate: 0,
            transcode_streaming_input: false,
        }
    }
}

impl Default for RecordingParams {
    fn default() -> (r: Self)
        ensures
            r == RecordingParams::spec_default(),
    {
        RecordingParams {
            compression_mode: SvoCompressionMode::H264,
            bitrate: 0,
            target_framerate: 0,
            transcode_streaming_input: false,
        }
    }
}

} // verus!
