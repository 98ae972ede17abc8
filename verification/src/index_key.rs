//! What the verified code knows of `cw_storage_plus::Key`, one step of a key
//! in an ordered store.
//!
//! A step either borrows bytes or owns a short fixed array; `as_ref` reads
//! it as a byte slice. Nothing here is proved: each item states what the
//! key type's own source shows.

use cw_storage_plus::Key;
use vstd::prelude::*;

verus! {

/// `cw_storage_plus::Key`, carried through verified code as an opaque value.
#[verifier::external_type_specification]
#[verifier::external_body]
pub struct ExKey<'a>(cw_storage_plus::Key<'a>);

/// The bytes of a key step: what `as_ref` reads from it.
pub uninterp spec fn key_bytes(k: Key<'_>) -> Seq<u8>;

/// `Key::Val8` owns one byte, and `as_ref` reads back that byte alone.
#[verifier::external_body]
pub(crate) fn byte_step(b: u8) -> (k: Key<'static>)
    ensures
        key_bytes(k) == seq![b],
{
    Key::Val8([b])
}

/// `Key::Ref` borrows a slice, and `as_ref` reads back that slice.
#[verifier::external_body]
pub(crate) fn slice_step<'a>(bytes: &'a [u8]) -> (k: Key<'a>)
    ensures
        key_bytes(k) == bytes@,
{
    Key::Ref(bytes)
}

} // verus!
