//! The immutable byte buffers of the `bytes` crate, as this crate uses them.
use vstd::prelude::*;

verus! {

#[verifier::external_type_specification]
#[verifier::external_body]
pub struct ExBytes(bytes::Bytes);

/// The bytes that a buffer holds.
pub uninterp spec fn bytes_view(b: bytes::Bytes) -> Seq<u8>;

/// `Bytes::copy_from_slice`: a buffer holding a copy of `data`.
#[verifier::external_body]
pub(crate) fn bytes_copy_from_slice(data: &[u8]) -> (r: bytes::Bytes)
    ensures
        bytes_view(r) == data@,
{
    bytes::Bytes::copy_from_slice(data)
}

/// `Bytes::from(Vec<u8>)`: a buffer holding the bytes of `v`.
#[verifier::external_body]
pub(crate) fn bytes_from_vec(v: Vec<u8>) -> (r: bytes::Bytes)
    ensures
        bytes_view(r) == v@,
{
    bytes::Bytes::from(v)
}

/// `Bytes::new`: an empty buffer.
#[verifier::external_body]
pub(crate) fn bytes_new() -> (r: bytes::Bytes)
    ensures
        bytes_view(r) == Seq::<u8>::empty(),
{
    bytes::Bytes::new()
}

/// `Deref for Bytes`: the bytes of the buffer as a slice.
#[verifier::external_body]
pub(crate) fn bytes_as_slice(b: &bytes::Bytes) -> (r: &[u8])
    ensures
        r@ == bytes_view(*b),
{
    b
}

/// `Bytes::len`: the number of bytes held.
#[verifier::external_body]
pub(crate) fn bytes_len(b: &bytes::Bytes) -> (r: usize)
    ensures
        r == bytes_view(*b).len(),
{
    b.len()
}

/// `Bytes::clone`: another handle on the same bytes.
pub assume_specification[ <bytes::Bytes as Clone>::clone ](b: &bytes::Bytes) -> (r: bytes::Bytes)
    ensures
        bytes_view(r) == bytes_view(*b),
;

} // verus!
