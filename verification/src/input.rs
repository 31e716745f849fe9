//! The sources a camera can be opened on.

use vstd::prelude::*;
use vstd::std_specs::convert::FromSpecImpl;
use crate::types::InputType;

verus! {

/// The host and port that a stream is sent from. The address is held as the
/// text that the native layer reads.
#[derive(Debug, Clone, PartialEq, Eq, Hash)]
pub struct StreamAddress {
    pub ip: Vec<u8>,
    pub port: u16,
}

/// A source of frames.
#[derive(Debug, Clone, PartialEq, Eq, Hash)]
pub enum Input {
    /// A recorded file, by its path.
    Svo(Vec<u8>),
    /// A stream, by the address it is sent from.
    Stream(StreamAddress),
    /// A USB camera, by its number.
    Usb(i32),
}

/// Converts to a C integer through `num_traits::NumCast::from`, which hands
/// the number back where a C integer can hold it and nothing where it cannot.
#[verifier::external_body]
fn cast_to_c_int(id: i64) -> (r: Option<i32>)
    ensures
        r == (if i32::MIN <= id <= i32::MAX {
            Some(id as i32)
        } else {
            None::<i32>
        }),
{
    num_traits::NumCast::from(id)
}

impl Input {
    /// The recorded file at `path`.
    pub fn svo_file(path: Vec<u8>) -> (r: Self)
        ensures
            r == Input::Svo(path),
    {
        Input::Svo(path)
    }

    /// The stream sent from `addr`.
    pub fn stream(addr: StreamAddress) -> (r: Self)
        ensures
            r == Input::Stream(addr),
    {
        Input::Stream(addr)
    }

    /// The USB camera with the number `id`, which must be one that a C
    /// integer can hold.
    pub fn usb(id: i64) -> (r: Self)
        requires
            i32::MIN <= id <= i32::MAX,
        ensures
            r == Input::Usb(id as i32),
    {
        match cast_to_c_int(id) {
            Some(id) => Input::Usb(id),
            None => vstd::pervasive::unreached(),
        }
    }

    /// The USB camera with the number `id`, or nothing where a C integer
    /// cannot hold the number.
    pub fn checked_usb(id: i64) -> (r: Option<Self>)
        ensures
            r == (if i32::MIN <= id <= i32::MAX {
                Some(Input::Usb(id as i32))
            } else {
                None::<Input>
            }),
    {
        match cast_to_c_int(id) {
            Some(id) => Some(Input::Usb(id)),
            None => None,
        }
    }

    /// The kind of the source.
    pub fn input_type(&self) -> (r: InputType)
        ensures
            r == (match *self {
                Input::Svo(_) => InputType::Svo,
                Input::Stream(_) => InputType::Stream,
                Input::Usb(_) => InputType::Usb,
            }),
    {
        match self {
            Input::Svo(_) => InputType::Svo,
            Input::Stream(_) => InputType::Stream,
            Input::Usb(_) => InputType::Usb,
        }
    }
}

impl From<Vec<u8>> for Input {
    fn from(path: Vec<u8>) -> (r: Self) {
        Input::svo_file(path)
    }
}

impl FromSpecImpl<Vec<u8>> for Input {
    open spec fn obeys_from_spec() -> bool {
        true
    }

    open spec fn from_spec(path: Vec<u8>) -> Self {
        Input::Svo(path)
    }
}

impl From<StreamAddress> for Input {
    fn from(addr: StreamAddress) -> (r: Self) {
        Input::stream(addr)
    }
}

impl FromSpecImpl<StreamAddress> for Input {
    open spec fn obeys_from_spec() -> bool {
        true
    }

    open spec fn from_spec(addr: StreamAddress) -> Self {
        Input::Stream(addr)
    }
}

impl From<i32> for Input {
    fn from(id: i32) -> (r: Self) {
        Input::usb(id as i64)
    }
}

impl FromSpecImpl<i32> for Input {
    open spec fn obeys_from_spec() -> bool {
        true
    }

    open spec fn from_spec(id: i32) -> Self {
        Input::Usb(id)
    }
}

} // verus!
