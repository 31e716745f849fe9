//! Host strings in the form the native layer reads them.

use vstd::prelude::*;

verus! {

/// The bytes of a host string followed by the terminating zero byte.
pub open spec fn c_string(bytes: Seq<u8>) -> Seq<u8> {
    bytes.push(0u8)
}

/// The native form of a string that may be absent.
pub open spec fn optional_c_string(bytes: Option<Vec<u8>>) -> Option<Seq<u8>> {
    match bytes {
        Some(b) => Some(c_string(b@)),
        None => None,
    }
}

/// The bytes of a string that may be absent.
pub open spec fn optional_bytes(bytes: Option<Vec<u8>>) -> Option<Seq<u8>> {
    match bytes {
        Some(b) => Some(b@),
        None => None,
    }
}

/// Whether one of the bytes is zero. Such a string has no native form: the
/// native layer would read it only up to that byte.
pub fn contains_nul(bytes: &[u8]) -> (r: bool)
    ensures
        r == bytes@.contains(0u8),
{
    let mut i: usize = 0;
    while i < bytes.len()
        invariant
            i <= bytes@.len(),
            forall|j: int| 0 <= j < i ==> bytes@[j] != 0u8,
        decreases bytes@.len() - i,
    {
        if bytes[i] == 0 {
            return true;
        }
        i += 1;
    }
    false
}

/// Whether the string is absent or free of zero bytes.
pub open spec fn optional_nul_free(bytes: Option<Vec<u8>>) -> bool {
    match bytes {
        Some(b) => !b@.contains(0u8),
        None => true,
    }
}

/// Turns the bytes of a host string into the zero-terminated string that the
/// native layer reads.
pub fn osstr_to_cstr(from: &[u8]) -> (r: Vec<u8>)
    requires
        !from@.contains(0u8),
    ensures
        r@ == c_string(from@),
{
    let mut out: Vec<u8> = Vec::with_capacity(0);
    out.extend_from_slice(from);
    out.push(0u8);
    out
}

/// The native form of a string that may be absent.
pub fn optional_cstr(from: &Option<Vec<u8>>) -> (r: Option<Vec<u8>>)
    requires
        optional_nul_free(*from),
    ensures
        optional_bytes(r) == optional_c_string(*from),
{
    match from {
        Some(bytes) => Some(osstr_to_cstr(bytes.as_slice())),
        None => None,
    }
}

} // verus!
