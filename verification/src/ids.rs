//! The opaque identifiers that the asset model is built from.

use vstd::prelude::*;
use vstd::std_specs::cmp::PartialEqSpecImpl;

verus! {

/// A fungible asset as a concept, whatever network it is seen on.
#[derive(Clone, Copy, Debug, PartialEq, Eq, Structural, PartialOrd, Ord, Hash)]
pub struct AssetId(pub u128);

/// One blockchain network.
#[derive(Clone, Copy, Debug, PartialEq, Eq, Structural, PartialOrd, Ord, Hash)]
pub struct NetworkId(pub u32);

/// Where an asset lives on the far side of a bridge, in the wording of the
/// transport that carried it over. Only compared, never read.
#[derive(Debug)]
pub struct ForeignAssetId(pub String);

impl View for ForeignAssetId {
    type V = Seq<char>;

    open spec fn view(&self) -> Seq<char> {
        self.0@
    }
}

impl Clone for ForeignAssetId {
    fn clone(&self) -> (copy: Self)
        ensures
            copy@ == self@,
    {
        ForeignAssetId(self.0.clone())
    }
}

impl PartialEq for ForeignAssetId {
    fn eq(&self, other: &Self) -> (same: bool) {
        self.0 == other.0
    }
}

impl PartialEqSpecImpl for ForeignAssetId {
    open spec fn obeys_eq_spec() -> bool {
        true
    }

    open spec fn eq_spec(&self, other: &Self) -> bool {
        self@ == other@
    }
}

} // verus!
