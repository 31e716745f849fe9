//! Limits of the native layer.

use vstd::prelude::*;

verus! {

/// The most cameras the native layer handles at once. An enumeration never
/// reports more devices than this.
pub const MAX_CAMERA_PLUGIN: usize = 20;

} // verus!
