use cosmwasm_std::Addr;
use cvm_route::ids::{AssetId, ForeignAssetId, NetworkId};
use cvm_route::item::{AssetItem, BridgeAsset, NetworkAssetItem};
use cvm_route::reference::AssetReference;

fn uatom() -> AssetReference {
    AssetReference::Native {
        denom: "uatom".to_string(),
    }
}

fn bridge(location: &str) -> BridgeAsset {
    BridgeAsset {
        location_on_network: ForeignAssetId(location.to_string()),
    }
}

#[test]
fn new_item_echoes_its_fields_and_is_not_bridged() {
    let item = AssetItem::new(AssetId(7), NetworkId(1), uatom());
    assert_eq!(item.asset_id, AssetId(7));
    assert_eq!(item.network_id, NetworkId(1));
    assert_eq!(item.local, uatom());
    assert_eq!(item.bridged, None);
    assert!(item.bridged.is_none());
}

#[test]
fn new_item_takes_extreme_identifiers() {
    let item = AssetItem::new(AssetId(u128::MAX), NetworkId(u32::MAX), uatom());
    assert_eq!(item.asset_id.0, u128::MAX);
    assert_eq!(item.network_id.0, u32::MAX);
    let item = AssetItem::new(AssetId(0), NetworkId(0), uatom());
    assert_eq!(item.asset_id.0, 0);
    assert_eq!(item.network_id.0, 0);
}

#[test]
fn items_on_different_networks_are_unequal() {
    let a = AssetItem::new(AssetId(7), NetworkId(1), uatom());
    let b = AssetItem::new(AssetId(7), NetworkId(2), uatom());
    assert_ne!(a, b);
    assert!(!(a == b));
}

#[test]
fn items_with_all_fields_equal_are_equal() {
    let a = AssetItem::new(AssetId(7), NetworkId(1), uatom());
    let b = AssetItem::new(AssetId(7), NetworkId(1), uatom());
    assert_eq!(a, b);
    assert_eq!(a, a.clone());
}

#[test]
fn items_differ_by_any_single_field() {
    let base = AssetItem::new(AssetId(7), NetworkId(1), uatom());

    let other_id = AssetItem::new(AssetId(8), NetworkId(1), uatom());
    assert_ne!(base, other_id);

    let other_denom = AssetItem::new(
        AssetId(7),
        NetworkId(1),
        AssetReference::Native {
            denom: "uosmo".to_string(),
        },
    );
    assert_ne!(base, other_denom);

    let other_variant = AssetItem::new(
        AssetId(7),
        NetworkId(1),
        AssetReference::Cw20 {
            contract: Addr::unchecked("uatom"),
        },
    );
    assert_ne!(base, other_variant);

    let mut bridged = base.clone();
    bridged.bridged = Some(bridge("channel-1"));
    assert_ne!(base, bridged);

    let mut bridged_elsewhere = base.clone();
    bridged_elsewhere.bridged = Some(bridge("channel-2"));
    assert_ne!(bridged, bridged_elsewhere);

    let mut bridged_again = base.clone();
    bridged_again.bridged = Some(bridge("channel-1"));
    assert_eq!(bridged, bridged_again);
}

#[test]
fn references_compare_by_variant_and_payload() {
    let native = uatom();
    let token = AssetReference::Cw20 {
        contract: Addr::unchecked("wasm1abc"),
    };
    assert_eq!(native, uatom());
    assert_eq!(
        token,
        AssetReference::Cw20 {
            contract: Addr::unchecked("wasm1abc"),
        }
    );
    assert_ne!(native, token);
    assert_ne!(
        token,
        AssetReference::Cw20 {
            contract: Addr::unchecked("wasm1abd"),
        }
    );
    assert_ne!(
        native,
        AssetReference::Native {
            denom: "uatoms".to_string(),
        }
    );
}

#[test]
fn clone_of_a_reference_is_equal_to_it() {
    let token = AssetReference::Cw20 {
        contract: Addr::unchecked("wasm1abc"),
    };
    assert_eq!(token.clone(), token);
    assert_eq!(uatom().clone(), uatom());
}

#[test]
fn bridge_records_compare_by_location() {
    assert_eq!(bridge("channel-1"), bridge("channel-1"));
    assert_ne!(bridge("channel-1"), bridge("channel-2"));
    assert_eq!(bridge("channel-1").clone(), bridge("channel-1"));
    assert_eq!(
        ForeignAssetId("x".to_string()).clone(),
        ForeignAssetId("x".to_string())
    );
}

#[test]
fn network_asset_item_echoes_its_fields() {
    let item = NetworkAssetItem::new(NetworkId(5), AssetId(11), AssetId(12));
    assert_eq!(item.to_network_id, NetworkId(5));
    assert_eq!(item.from_asset_id, AssetId(11));
    assert_eq!(item.to_asset_id, AssetId(12));
}

#[test]
fn network_asset_item_may_map_an_identifier_to_itself() {
    let item = NetworkAssetItem::new(NetworkId(5), AssetId(11), AssetId(11));
    assert_eq!(item.from_asset_id, item.to_asset_id);
    assert_eq!(item, NetworkAssetItem::new(NetworkId(5), AssetId(11), AssetId(11)));
    assert_ne!(item, NetworkAssetItem::new(NetworkId(5), AssetId(11), AssetId(12)));
    assert_ne!(item, NetworkAssetItem::new(NetworkId(6), AssetId(11), AssetId(11)));
}
