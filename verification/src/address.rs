//! What the verified code knows of `cosmwasm_std::Addr`.
//!
//! An address is an immutable wrapper round its text. Nothing here is proved:
//! each item states what the address type's own source shows.

use cosmwasm_std::Addr;
use vstd::prelude::*;

verus! {

/// `cosmwasm_std::Addr`, carried through verified code as an opaque value.
#[verifier::external_type_specification]
#[verifier::external_body]
pub struct ExAddr(cosmwasm_std::Addr);

/// The text of an address: what `Addr::as_str` hands out.
pub uninterp spec fn addr_text(a: Addr) -> Seq<char>;

/// `Addr::as_str` borrows the text that the address wraps.
pub assume_specification<'a>[ cosmwasm_std::Addr::as_str ](a: &'a Addr) -> (text: &'a str)
    ensures
        text@ == addr_text(*a),
;

/// `Addr::as_bytes` borrows the same text as UTF-8: it is
/// `as_str().as_bytes()`.
pub assume_specification<'a>[ cosmwasm_std::Addr::as_bytes ](a: &'a Addr) -> (bytes: &'a [u8])
    ensures
        bytes@ == vstd::utf8::encode_utf8(addr_text(*a)),
;

/// The derived `Clone` of `Addr` clones the wrapped text, so the copy holds
/// the same text.
pub assume_specification[ <cosmwasm_std::Addr as Clone>::clone ](a: &Addr) -> (copy: Addr)
    ensures
        addr_text(copy) == addr_text(*a),
;

/// The derived `PartialEq` of `Addr` compares the wrapped text.
pub assume_specification[ <cosmwasm_std::Addr as PartialEq>::eq ](a: &Addr, b: &Addr) -> (same:
    bool)
    ensures
        same == (addr_text(*a) == addr_text(*b)),
;

} // verus!
