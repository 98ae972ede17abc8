//! Identity model for fungible assets routed across heterogeneous networks.
//!
//! An asset is named by an opaque identifier, bound to a network, and carried
//! on that network by an [`AssetReference`]: either a chain-native
//! denomination or a token contract. Every reference has one canonical text
//! form and one ordered storage key, and the contracts below say exactly what
//! both are.
//!
//! Two outside types run through the model: `cosmwasm_std::Addr`, the
//! address of a token contract, and `cw_storage_plus::Key`, one step of a
//! storage key. What is taken on trust about them stands in [`address`] and
//! [`index_key`]; everything else is proved.

pub mod address;
pub mod ids;
pub mod index_key;
pub mod item;
pub mod order;
pub mod reference;

pub use ids::{AssetId, ForeignAssetId, NetworkId};
pub use item::{AssetItem, BridgeAsset, NetworkAssetItem};
pub use reference::AssetReference;
