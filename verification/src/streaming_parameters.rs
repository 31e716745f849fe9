//! The parameters of a stream.

use vstd::prelude::*;
use crate::types::StreamingCodec;

verus! {

/// How a session streams its frames to the network. Without a `gop_size` or a
/// `target_framerate` the native layer picks one.
#[derive(Clone, Copy, Debug, PartialEq, Eq, Hash, Structural)]
pub struct StreamingParameters {
    pub codec: StreamingCodec,
    pub bitrate: usize,
    pub port: u16,
    pub gop_size: Option<u8>,
    pub adaptative_bitrate: bool,
    pub chunk_size: usize,
    pub target_framerate: Option<usize>,
}

impl StreamingParameters {
    /// H.265 at 80000 kbit/s on port 30000, in chunks of 16084 bytes, at a
    /// fixed bitrate.
    pub open spec fn spec_default() -> StreamingParameters {
        StreamingParameters {
            codec: StreamingCodec::H265,
            bitrate: 80000,
            port: 30000,
            gop_size: None,
            adaptative_bitrate: false,
            chunk_size: 16084,
            target_framerate: None,
        }
    }
}

impl Default for StreamingParameters {
    fn default() -> (r: Self)
        ensures
            r == StreamingParameters::spec_default(),
    {
        StreamingParameters {
            codec: StreamingCodec::H265,
            bitrate: 80000,
            port: 30000,
            gop_size: None,
            adaptative_bitrate: false,
            chunk_size: 16084,
            target_framerate: None,
        }
    }
}

} // verus!
