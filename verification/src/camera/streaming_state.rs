//! The types that stand for a session's place on the streaming axis.

use vstd::prelude::*;
use crate::camera::inner::StreamingState;

verus! {

/// A type that stands for one state of the streaming axis.
pub trait StreamingMarker {
    /// The state that the type stands for.
    spec fn state() -> StreamingState;

    /// No type stands for the closed state: a session that exists is open.
    proof fn lemma_open()
        ensures
            !(Self::state() is Closed),
    ;
}

/// No stream is running.
#[derive(Debug, Clone, Copy, PartialEq, Eq, PartialOrd, Ord, Hash)]
pub struct Inactive {
    _private: (),
}

/// A stream is running.
#[derive(Debug, Clone, Copy, PartialEq, Eq, PartialOrd, Ord, Hash)]
pub struct Streaming {
    _private: (),
}

impl StreamingMarker for Inactive {
    open spec fn state() -> StreamingState {
        StreamingState::Inactive
    }

    proof fn lemma_open() {
    }
}

impl StreamingMarker for Streaming {
    open spec fn state() -> StreamingState {
        StreamingState::Streaming
    }

    proof fn lemma_open() {
    }
}

} // verus!
