//! An asset as it is usable on one network, and the mapping of an asset's
//! identifier from one network's view to another's.

use crate::ids::{AssetId, ForeignAssetId, NetworkId};
use crate::reference::{cw20_prefix, starts_with, AssetReference, ReferenceView};
use vstd::prelude::*;
use vstd::std_specs::cmp::PartialEqSpecImpl;

verus! {

/// Evidence that an asset came to its network over a bridge.
#[derive(Debug)]
pub struct BridgeAsset {
    pub location_on_network: ForeignAssetId,
}

/// A bridge record as mathematics sees it.
pub struct BridgeView {
    pub location_on_network: Seq<char>,
}

impl View for BridgeAsset {
    type V = BridgeView;

    open spec fn view(&self) -> BridgeView {
        BridgeView { location_on_network: self.location_on_network@ }
    }
}

impl Clone for BridgeAsset {
    fn clone(&self) -> (copy: Self)
        ensures
            copy@ == self@,
    {
        BridgeAsset { location_on_network: self.location_on_network.clone() }
    }
}

impl PartialEq for BridgeAsset {
    fn eq(&self, other: &Self) -> (same: bool) {
        self.location_on_network == other.location_on_network
    }
}

impl PartialEqSpecImpl for BridgeAsset {
    open spec fn obeys_eq_spec() -> bool {
        true
    }

    open spec fn eq_spec(&self, other: &Self) -> bool {
        self@ == other@
    }
}

/// The full identity of an asset on one network.
#[derive(Debug)]
pub struct AssetItem {
    pub asset_id: AssetId,
    /// The network on which this asset can be used locally.
    pub network_id: NetworkId,
    pub local: AssetReference,
    /// Present where the asset was bridged in: it names the bridge, source
    /// or channel.
    pub bridged: Option<BridgeAsset>,
}

/// An asset item as mathematics sees it.
pub struct ItemView {
    pub asset_id: AssetId,
    pub network_id: NetworkId,
    pub local: ReferenceView,
    pub bridged: Option<BridgeView>,
}

impl ItemView {
    /// The canonical text form of the item: that of its local reference.
    pub open spec fn denom(self) -> Seq<char> {
        self.local.denom()
    }
}

impl View for AssetItem {
    type V = ItemView;

    open spec fn view(&self) -> ItemView {
        ItemView {
            asset_id: self.asset_id,
            network_id: self.network_id,
            local: self.local@,
            bridged: match self.bridged {
                Some(b) => Some(b@),
                None => None,
            },
        }
    }
}

impl Clone for AssetItem {
    fn clone(&self) -> (copy: Self)
        ensures
            copy@ == self@,
    {
        AssetItem {
            asset_id: self.asset_id,
            network_id: self.network_id,
            local: self.local.clone(),
            bridged: match &self.bridged {
                Some(b) => Some(b.clone()),
                None => None,
            },
        }
    }
}

impl PartialEq for AssetItem {
    fn eq(&self, other: &Self) -> (same: bool) {
        self.asset_id == other.asset_id && self.network_id == other.network_id && self.local
            == other.local && self.bridged == other.bridged
    }
}

impl PartialEqSpecImpl for AssetItem {
    open spec fn obeys_eq_spec() -> bool {
        true
    }

    open spec fn eq_spec(&self, other: &Self) -> bool {
        self@ == other@
    }
}

impl AssetItem {
    /// An item that was not bridged in. Nothing is checked: that `local`
    /// suits the chain family of `network_id` is the caller's to see to.
    pub fn new(asset_id: AssetId, network_id: NetworkId, local: AssetReference) -> (item: Self)
        ensures
            item.asset_id == asset_id,
            item.network_id == network_id,
            item.local == local,
            item.bridged is None,
    {
        Self { asset_id, network_id, local, bridged: None }
    }

    /// The canonical text form of the local reference.
    pub fn denom(&self) -> (text: String)
        ensures
            text@ == self@.denom(),
            self.local is Cw20 ==> starts_with(text@, cw20_prefix()),
    {
        self.local.denom()
    }
}

/// One asset's identifier as a source network sees it, mapped to the
/// identifier that the destination network knows it by.
#[derive(Clone, Copy, Debug, PartialEq, Eq, Structural)]
pub struct NetworkAssetItem {
    pub to_network_id: NetworkId,
    pub from_asset_id: AssetId,
    pub to_asset_id: AssetId,
}

impl NetworkAssetItem {
    /// The mapping with exactly these three fields. Nothing is checked: the
    /// two identifiers may be equal.
    pub fn new(to_network_id: NetworkId, from_asset_id: AssetId, to_asset_id: AssetId) -> (item:
        Self)
        ensures
            item.to_network_id == to_network_id,
            item.from_asset_id == from_asset_id,
            item.to_asset_id == to_asset_id,
    {
        Self { to_network_id, from_asset_id, to_asset_id }
    }
}

/// The bridge record takes no part in the text form: two items with the
/// same local reference have the same text form, bridged or not.
pub proof fn lemma_bridge_leaves_denom(a: AssetItem, b: AssetItem)
    requires
        a@.local == b@.local,
    ensures
        a@.denom() == b@.denom(),
{
}

/// Equality reads every field: two items are equal, as `==` has it, only
/// where identifier, network, local reference and bridge record all agree.
pub proof fn lemma_item_equality_reads_every_field(a: AssetItem, b: AssetItem)
    ensures
        a@ == b@ <==> {
            &&& a.asset_id == b.asset_id
            &&& a.network_id == b.network_id
            &&& a.local@ == b.local@
            &&& a@.bridged == b@.bridged
        },
{
}

} // verus!
