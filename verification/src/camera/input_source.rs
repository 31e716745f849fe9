//! The types that stand for the kind of source a session was opened on.

use vstd::prelude::*;
use crate::types::InputType;

verus! {

/// A type that stands for one kind of source.
pub trait InputSource {
    /// The kind of source that the type stands for.
    spec fn kind() -> InputType;
}

/// A camera attached by USB.
#[derive(Debug, Clone, Copy, PartialEq, Eq, PartialOrd, Ord, Hash)]
pub struct USB {
    _private: (),
}

/// A camera that another host streams over the network.
#[derive(Debug, Clone, Copy, PartialEq, Eq, PartialOrd, Ord, Hash)]
pub struct Stream {
    _private: (),
}

/// A recorded session replayed from a file.
#[derive(Debug, Clone, Copy, PartialEq, Eq, PartialOrd, Ord, Hash)]
pub struct SVO {
    _private: (),
}

impl InputSource for USB {
    open spec fn kind() -> InputType {
        InputType::Usb
    }
}

impl InputSource for Stream {
    open spec fn kind() -> InputType {
        InputType::Stream
    }
}

impl InputSource for SVO {
    open spec fn kind() -> InputType {
        InputType::Svo
    }
}

} // verus!
