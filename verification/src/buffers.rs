//! Fixed-capacity byte buffers, carried by arrayvec's `ArrayVec`.
//!
//! The codec keeps the protocol's hard upper bounds on frame size by
//! handing its results over in bounded vectors: the stuffed wire image of
//! a frame (at most 522 bytes: twice the 260-byte worst-case body plus the
//! two delimiters), a destuffed frame body (at most 262 bytes), and an
//! inbound payload (at most 255 bytes, the most a one-byte length field
//! can declare).  Verified code reads a buffer only through the slice it
//! exposes and builds one only from a vector already proved to fit.

use vstd::prelude::*;

verus! {

#[verifier::external_type_specification]
#[verifier::external_body]
#[verifier::reject_recursive_types(T)]
pub struct ExArrayVec<T, const CAP: usize>(arrayvec::ArrayVec<T, CAP>);

/// The bytes a wire-frame buffer holds, in order.
pub uninterp spec fn wire_bytes(v: arrayvec::ArrayVec<u8, 522>) -> Seq<u8>;

/// The bytes a destuffed-body buffer holds, in order.
pub uninterp spec fn body_bytes(v: arrayvec::ArrayVec<u8, 262>) -> Seq<u8>;

/// The bytes a payload buffer holds, in order.
pub uninterp spec fn payload_bytes(v: arrayvec::ArrayVec<u8, 255>) -> Seq<u8>;

/// Relies on arrayvec's `ArrayVec::try_extend_from_slice`, which appends
/// the whole slice when it fits within the capacity.
#[verifier::external_body]
pub(crate) fn wire_from_vec(v: &Vec<u8>) -> (r: arrayvec::ArrayVec<u8, 522>)
    requires
        v@.len() <= 522,
    ensures
        wire_bytes(r) == v@,
{
    let mut out = arrayvec::ArrayVec::new();
    let _ = out.try_extend_from_slice(v.as_slice());
    out
}

/// Relies on arrayvec's `ArrayVec::as_slice`, which returns a slice of all
/// elements in order.
#[verifier::external_body]
pub(crate) fn wire_as_slice(v: &arrayvec::ArrayVec<u8, 522>) -> (r: &[u8])
    ensures
        r@ == wire_bytes(*v),
{
    v.as_slice()
}

/// Relies on arrayvec's `ArrayVec::try_extend_from_slice`, which appends
/// the whole slice when it fits within the capacity.
#[verifier::external_body]
pub(crate) fn body_from_vec(v: &Vec<u8>) -> (r: arrayvec::ArrayVec<u8, 262>)
    requires
        v@.len() <= 262,
    ensures
        body_bytes(r) == v@,
{
    let mut out = arrayvec::ArrayVec::new();
    let _ = out.try_extend_from_slice(v.as_slice());
    out
}

/// Relies on arrayvec's `ArrayVec::as_slice`, which returns a slice of all
/// elements in order.
#[verifier::external_body]
pub(crate) fn body_as_slice(v: &arrayvec::ArrayVec<u8, 262>) -> (r: &[u8])
    ensures
        r@ == body_bytes(*v),
{
    v.as_slice()
}

/// Relies on arrayvec's `ArrayVec::try_extend_from_slice`, which appends
/// the whole slice when it fits within the capacity.
#[verifier::external_body]
pub(crate) fn payload_from_vec(v: &Vec<u8>) -> (r: arrayvec::ArrayVec<u8, 255>)
    requires
        v@.len() <= 255,
    ensures
        payload_bytes(r) == v@,
{
    let mut out = arrayvec::ArrayVec::new();
    let _ = out.try_extend_from_slice(v.as_slice());
    out
}

/// Relies on arrayvec's `ArrayVec::as_slice`, which returns a slice of all
/// elements in order.
#[verifier::external_body]
pub(crate) fn payload_as_slice(v: &arrayvec::ArrayVec<u8, 255>) -> (r: &[u8])
    ensures
        r@ == payload_bytes(*v),
{
    v.as_slice()
}

} // verus!
