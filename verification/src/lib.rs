//! A cross-chain bridge: receipt tokens are minted against proofs of
//! source-chain events and burned on the way back.

pub mod account;
pub mod actions;
pub mod bridge;
pub mod codec;
pub mod collections;
pub mod encoding;
pub mod hashing;
pub mod interface;
pub mod laws;
pub mod messaging;
pub mod model;
pub mod naming;
pub mod text;
pub mod token;
pub mod types;

pub use account::AccountId;
pub use collections::{ByteStringSet, StringMap};
pub use types::{
    AssetStandard, BridgeDirection, BridgePayload, BridgeProof, BridgeRoute, CanonicalAssetId,
    ChainId, CommitteeProof, ReceiptTokenMetadata, SecurityModel, ValidatorKey, XChainMessage,
};
pub use bridge::{CallContext, XChainBridge};
pub use model::{BridgeError, BRIDGE_FEE};
pub use interface::{XChainCore, XChainMessaging, XChainReceiptToken};
pub use messaging::{MessagingError, XChainMessenger};
pub use token::{ReceiptToken, TokenError};
