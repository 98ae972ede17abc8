//! The on-chain representation of an asset and its canonical text form.

use crate::address::addr_text;
use crate::index_key::{byte_step, key_bytes, slice_step};
use crate::order::{lemma_first_byte_decides, lemma_shared_first_byte, sorts_before};
use cosmwasm_std::Addr;
use cw_storage_plus::Key;
use vstd::prelude::*;
use vstd::std_specs::cmp::PartialEqSpecImpl;
use vstd::string::StringExecFns;
use vstd::utf8::{encode_utf8, encode_utf8_decode_utf8};

verus! {

/// The text that every contract-token denomination starts with.
pub open spec fn cw20_prefix() -> Seq<char> {
    seq!['c', 'w', '2', '0', ':']
}

/// The prefix, letter for letter, is the literal `cw20:`.
pub proof fn lemma_cw20_prefix_is_literal()
    ensures
        cw20_prefix() == "cw20:"@,
{
    reveal_strlit("cw20:");
    assert("cw20:"@ =~= cw20_prefix());
}

/// `text` starts with `prefix`.
pub open spec fn starts_with(text: Seq<char>, prefix: Seq<char>) -> bool {
    prefix.len() <= text.len() && text.subrange(0, prefix.len() as int) == prefix
}

/// How an asset exists on its own network.
#[derive(Debug)]
pub enum AssetReference {
    /// A denomination native to the chain, known by its name alone.
    Native { denom: String },
    /// A token contract, known by the address it is deployed at.
    Cw20 { contract: Addr },
}

/// A reference as mathematics sees it: the variant and the text it carries.
pub enum ReferenceView {
    Native { denom: Seq<char> },
    Cw20 { contract: Seq<char> },
}

impl View for AssetReference {
    type V = ReferenceView;

    open spec fn view(&self) -> ReferenceView {
        match self {
            AssetReference::Native { denom } => ReferenceView::Native { denom: denom@ },
            AssetReference::Cw20 { contract } => ReferenceView::Cw20 {
                contract: addr_text(*contract),
            },
        }
    }
}

impl ReferenceView {
    /// The canonical text form of a reference.
    pub open spec fn denom(self) -> Seq<char> {
        match self {
            ReferenceView::Native { denom } => denom,
            ReferenceView::Cw20 { contract } => cw20_prefix() + contract,
        }
    }

    /// The byte that tells the variants apart in a key, and orders them:
    /// native first, then contract tokens.
    pub open spec fn tag(self) -> u8 {
        match self {
            ReferenceView::Native { .. } => 0,
            ReferenceView::Cw20 { .. } => 1,
        }
    }

    /// What follows the tag in a key: the variant's text as UTF-8.
    pub open spec fn payload(self) -> Seq<u8> {
        match self {
            ReferenceView::Native { denom } => encode_utf8(denom),
            ReferenceView::Cw20 { contract } => encode_utf8(contract),
        }
    }

    /// The whole key: the tag, then the payload.
    pub open spec fn key(self) -> Seq<u8> {
        seq![self.tag()] + self.payload()
    }
}

impl Clone for AssetReference {
    fn clone(&self) -> (copy: Self)
        ensures
            copy@ == self@,
    {
        match self {
            AssetReference::Native { denom } => AssetReference::Native { denom: denom.clone() },
            AssetReference::Cw20 { contract } => AssetReference::Cw20 {
                contract: contract.clone(),
            },
        }
    }
}

impl PartialEq for AssetReference {
    fn eq(&self, other: &Self) -> (same: bool) {
        match (self, other) {
            (AssetReference::Native { denom: a }, AssetReference::Native { denom: b }) => *a == *b,
            (AssetReference::Cw20 { contract: a }, AssetReference::Cw20 { contract: b }) => {
                *a == *b
            },
            _ => false,
        }
    }
}

impl PartialEqSpecImpl for AssetReference {
    open spec fn obeys_eq_spec() -> bool {
        true
    }

    open spec fn eq_spec(&self, other: &Self) -> bool {
        self@ == other@
    }
}

impl AssetReference {
    /// The canonical text form: a native denomination as it is, a contract's
    /// address behind the prefix `cw20:`.
    pub fn denom(&self) -> (text: String)
        ensures
            text@ == self@.denom(),
            self is Cw20 ==> starts_with(text@, cw20_prefix()),
    {
        match self {
            AssetReference::Native { denom } => denom.clone(),
            AssetReference::Cw20 { contract } => {
                proof {
                    lemma_cw20_prefix_is_literal();
                    assert((cw20_prefix() + addr_text(*contract)).subrange(0, 5) =~= cw20_prefix());
                }
                String::from_str("cw20:").concat(contract.as_str())
            },
        }
    }

    /// The tag byte of this reference's variant.
    pub fn variant_tag(&self) -> (tag: u8)
        ensures
            tag == self@.tag(),
    {
        match self {
            AssetReference::Native { .. } => 0,
            AssetReference::Cw20 { .. } => 1,
        }
    }

    /// The key of this reference in an ordered store, in two steps: the tag
    /// byte, then the payload. Read one after the other they are
    /// `self@.key()`.
    pub fn key(&self) -> (steps: Vec<Key<'_>>)
        ensures
            steps@.len() == 2,
            key_bytes(steps@[0]) == seq![self@.tag()],
            key_bytes(steps@[1]) == self@.payload(),
            key_bytes(steps@[0]) + key_bytes(steps@[1]) == self@.key(),
    {
        let payload: &[u8] = match self {
            AssetReference::Native { denom } => denom.as_str().as_bytes(),
            AssetReference::Cw20 { contract } => contract.as_bytes(),
        };
        let mut steps: Vec<Key<'_>> = Vec::new();
        steps.push(byte_step(self.variant_tag()));
        steps.push(slice_step(payload));
        steps
    }
}

/// A native reference and a contract token never share a text form, so long
/// as the native denomination does not itself start with `cw20:`.
pub proof fn lemma_variants_never_share_denom(a: AssetReference, b: AssetReference)
    requires
        a@ matches ReferenceView::Native { denom } && !starts_with(denom, cw20_prefix()),
        b is Cw20,
    ensures
        a@.denom() != b@.denom(),
{
    if let ReferenceView::Cw20 { contract } = b@ {
        assert((cw20_prefix() + contract).subrange(0, 5) =~= cw20_prefix());
    }
}

/// Among references whose native denominations keep clear of the prefix
/// `cw20:`, the text form names the reference: equal text, equal reference.
pub proof fn lemma_denom_names_reference(a: AssetReference, b: AssetReference)
    requires
        a@ matches ReferenceView::Native { denom } ==> !starts_with(denom, cw20_prefix()),
        b@ matches ReferenceView::Native { denom } ==> !starts_with(denom, cw20_prefix()),
        a@.denom() == b@.denom(),
    ensures
        a@ == b@,
{
    match (a@, b@) {
        (ReferenceView::Native { .. }, ReferenceView::Native { .. }) => {},
        (ReferenceView::Cw20 { contract: x }, ReferenceView::Cw20 { contract: y }) => {
            assert(x =~= (cw20_prefix() + x).subrange(5, 5 + x.len() as int));
            assert(y =~= (cw20_prefix() + y).subrange(5, 5 + y.len() as int));
        },
        (ReferenceView::Native { .. }, ReferenceView::Cw20 { .. }) => {
            lemma_variants_never_share_denom(a, b);
        },
        (ReferenceView::Cw20 { .. }, ReferenceView::Native { .. }) => {
            lemma_variants_never_share_denom(b, a);
        },
    }
}

/// References of different variants have keys that differ in their first
/// byte, whatever their payloads hold.
pub proof fn lemma_tag_separates_keys(a: AssetReference, b: AssetReference)
    requires
        a@.tag() != b@.tag(),
    ensures
        a@.key()[0] != b@.key()[0],
        a@.key() != b@.key(),
{
    assert(a@.key()[0] == a@.tag());
    assert(b@.key()[0] == b@.tag());
}

/// Across variants the tag alone orders the keys: the reference with the
/// smaller tag sorts first.
pub proof fn lemma_tag_orders_keys(a: AssetReference, b: AssetReference)
    requires
        a@.tag() != b@.tag(),
    ensures
        sorts_before(a@.key(), b@.key()) <==> a@.tag() < b@.tag(),
{
    lemma_first_byte_decides(a@.key(), b@.key());
}

/// Every native key sorts strictly before every contract-token key.
pub proof fn lemma_native_sorts_before_cw20(a: AssetReference, b: AssetReference)
    requires
        a is Native,
        b is Cw20,
    ensures
        sorts_before(a@.key(), b@.key()),
{
    lemma_tag_orders_keys(a, b);
}

/// Within one variant the keys sort as their payloads do.
pub proof fn lemma_payload_orders_keys(a: AssetReference, b: AssetReference)
    requires
        a@.tag() == b@.tag(),
    ensures
        sorts_before(a@.key(), b@.key()) <==> sorts_before(a@.payload(), b@.payload()),
{
    lemma_shared_first_byte(a@.tag(), a@.payload(), b@.payload());
}

/// The key names the reference: equal keys, equal reference.
pub proof fn lemma_key_names_reference(a: AssetReference, b: AssetReference)
    requires
        a@.key() == b@.key(),
    ensures
        a@ == b@,
{
    assert(a@.key()[0] == a@.tag());
    assert(b@.key()[0] == b@.tag());
    assert(a@.payload() =~= a@.key().subrange(1, a@.key().len() as int));
    assert(b@.payload() =~= b@.key().subrange(1, b@.key().len() as int));
    match (a@, b@) {
        (ReferenceView::Native { denom: x }, ReferenceView::Native { denom: y }) => {
            encode_utf8_decode_utf8(x);
            encode_utf8_decode_utf8(y);
        },
        (ReferenceView::Cw20 { contract: x }, ReferenceView::Cw20 { contract: y }) => {
            encode_utf8_decode_utf8(x);
            encode_utf8_decode_utf8(y);
        },
        _ => {},
    }
}

} // verus!
