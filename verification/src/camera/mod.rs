//! The camera session: its run-time state, the types that fix which
//! operations it offers, and the builder that opens it.

pub mod builder;
pub mod cam;
pub mod grab;
pub mod inner;
pub mod laws;
pub mod input_source;
pub mod recording_state;
pub mod streaming_state;

pub use builder::CameraBuilder;
pub use cam::Camera;
pub use grab::GrabHandle;
pub use inner::{occurrences, Inner, RecordingState, StreamingState, Transition};
