//! The types that stand for a session's place on the recording axis.

use vstd::prelude::*;
use crate::camera::inner::RecordingState;

verus! {

/// A type that stands for one state of the recording axis.
pub trait RecordingMarker {
    /// The state that the type stands for.
    spec fn state() -> RecordingState;

    /// No type stands for the closed state: a session that exists is open.
    proof fn lemma_open()
        ensures
            !(Self::state() is Closed),
    ;
}

/// No recording is running.
#[derive(Debug, Clone, Copy, PartialEq, Eq, PartialOrd, Ord, Hash)]
pub struct Inactive {
    _private: (),
}

/// A recording is running.
#[derive(Debug, Clone, Copy, PartialEq, Eq, PartialOrd, Ord, Hash)]
pub struct Recording {
    _private: (),
}

/// A recording is held.
#[derive(Debug, Clone, Copy, PartialEq, Eq, PartialOrd, Ord, Hash)]
pub struct Paused {
    _private: (),
}

impl RecordingMarker for Inactive {
    open spec fn state() -> RecordingState {
        RecordingState::Inactive
    }

    proof fn lemma_open() {
    }
}

impl RecordingMarker for Recording {
    open spec fn state() -> RecordingState {
        RecordingState::Recording
    }

    proof fn lemma_open() {
    }
}

impl RecordingMarker for Paused {
    open spec fn state() -> RecordingState {
        RecordingState::Paused
    }

    proof fn lemma_open() {
    }
}

} // verus!
