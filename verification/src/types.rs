//! The data that crosses the bridge, and the mathematical view of each type.

use crate::account::AccountId;
use vstd::prelude::*;

verus! {

/// Names a chain, such as `ethereum:1`.
pub type ChainId = String;

/// The bytes of a validator's public key.
pub type ValidatorKey = Vec<u8>;

/// The token standard that an asset follows on its source chain.
#[derive(Debug, PartialEq, Eq)]
pub enum AssetStandard {
    Native,
    ERC20,
    ERC721,
    ERC1155,
    SPL,
    Custom(String),
}

/// The mathematical view of [`AssetStandard`].
pub enum AssetStandardView {
    Native,
    ERC20,
    ERC721,
    ERC1155,
    SPL,
    Custom(Seq<char>),
}

impl View for AssetStandard {
    type V = AssetStandardView;

    open spec fn view(&self) -> AssetStandardView {
        match self {
            AssetStandard::Native => AssetStandardView::Native,
            AssetStandard::ERC20 => AssetStandardView::ERC20,
            AssetStandard::ERC721 => AssetStandardView::ERC721,
            AssetStandard::ERC1155 => AssetStandardView::ERC1155,
            AssetStandard::SPL => AssetStandardView::SPL,
            AssetStandard::Custom(name) => AssetStandardView::Custom(name@),
        }
    }
}

impl Clone for AssetStandard {
    fn clone(&self) -> (r: Self)
        ensures
            r@ == self@,
    {
        match self {
            AssetStandard::Native => AssetStandard::Native,
            AssetStandard::ERC20 => AssetStandard::ERC20,
            AssetStandard::ERC721 => AssetStandard::ERC721,
            AssetStandard::ERC1155 => AssetStandard::ERC1155,
            AssetStandard::SPL => AssetStandard::SPL,
            AssetStandard::Custom(name) => AssetStandard::Custom(name.clone()),
        }
    }
}

/// Identifies an asset by the chain it comes from, its contract there and its
/// token standard.
#[derive(Debug, PartialEq, Eq)]
pub struct CanonicalAssetId {
    pub source_chain_id: ChainId,
    pub source_contract: String,
    pub asset_standard: AssetStandard,
}

/// The mathematical view of [`CanonicalAssetId`].
pub struct CanonicalAssetIdView {
    pub source_chain_id: Seq<char>,
    pub source_contract: Seq<char>,
    pub asset_standard: AssetStandardView,
}

impl View for CanonicalAssetId {
    type V = CanonicalAssetIdView;

    open spec fn view(&self) -> CanonicalAssetIdView {
        CanonicalAssetIdView {
            source_chain_id: self.source_chain_id@,
            source_contract: self.source_contract@,
            asset_standard: self.asset_standard@,
        }
    }
}

impl Clone for CanonicalAssetId {
    fn clone(&self) -> (r: Self)
        ensures
            r@ == self@,
    {
        CanonicalAssetId {
            source_chain_id: self.source_chain_id.clone(),
            source_contract: self.source_contract.clone(),
            asset_standard: self.asset_standard.clone(),
        }
    }
}

/// How a bridge deployment is secured.
#[derive(Debug, PartialEq, Eq)]
pub enum SecurityModel {
    Optimistic { challenge_period_sec: u64 },
    ZeroKnowledge { proof_system: String },
    Committee { threshold: u64, size: u64 },
    Trusted { operator: AccountId },
}

/// The mathematical view of [`SecurityModel`].
pub enum SecurityModelView {
    Optimistic { challenge_period_sec: u64 },
    ZeroKnowledge { proof_system: Seq<char> },
    Committee { threshold: u64, size: u64 },
    Trusted { operator: Seq<char> },
}

impl View for SecurityModel {
    type V = SecurityModelView;

    open spec fn view(&self) -> SecurityModelView {
        match self {
            SecurityModel::Optimistic { challenge_period_sec } => SecurityModelView::Optimistic {
                challenge_period_sec: *challenge_period_sec,
            },
            SecurityModel::ZeroKnowledge { proof_system } => SecurityModelView::ZeroKnowledge {
                proof_system: proof_system@,
            },
            SecurityModel::Committee { threshold, size } => SecurityModelView::Committee {
                threshold: *threshold,
                size: *size,
            },
            SecurityModel::Trusted { operator } => SecurityModelView::Trusted {
                operator: operator@,
            },
        }
    }
}

impl Clone for SecurityModel {
    fn clone(&self) -> (r: Self)
        ensures
            r@ == self@,
    {
        match self {
            SecurityModel::Optimistic { challenge_period_sec } => SecurityModel::Optimistic {
                challenge_period_sec: *challenge_period_sec,
            },
            SecurityModel::ZeroKnowledge { proof_system } => SecurityModel::ZeroKnowledge {
                proof_system: proof_system.clone(),
            },
            SecurityModel::Committee { threshold, size } => SecurityModel::Committee {
                threshold: *threshold,
                size: *size,
            },
            SecurityModel::Trusted { operator } => SecurityModel::Trusted {
                operator: operator.clone(),
            },
        }
    }
}

/// Describes a bridge deployment: who it is, how it is secured, and when it
/// was deployed.
#[derive(Debug, PartialEq, Eq)]
pub struct BridgeRoute {
    pub bridge_contract: AccountId,
    pub security_model: SecurityModel,
    pub deployed_at: u64,
}

/// The mathematical view of [`BridgeRoute`].
pub struct BridgeRouteView {
    pub bridge_contract: Seq<char>,
    pub security_model: SecurityModelView,
    pub deployed_at: u64,
}

impl View for BridgeRoute {
    type V = BridgeRouteView;

    open spec fn view(&self) -> BridgeRouteView {
        BridgeRouteView {
            bridge_contract: self.bridge_contract@,
            security_model: self.security_model@,
            deployed_at: self.deployed_at,
        }
    }
}

impl Clone for BridgeRoute {
    fn clone(&self) -> (r: Self)
        ensures
            r@ == self@,
    {
        BridgeRoute {
            bridge_contract: self.bridge_contract.clone(),
            security_model: self.security_model.clone(),
            deployed_at: self.deployed_at,
        }
    }
}

/// What a receipt token records about itself when it is created.
#[derive(Debug, PartialEq, Eq)]
pub struct ReceiptTokenMetadata {
    pub canonical_asset: CanonicalAssetId,
    pub bridge_route: BridgeRoute,
    pub total_locked: u128,
    pub nep141_token: AccountId,
}

/// The mathematical view of [`ReceiptTokenMetadata`].
pub struct ReceiptTokenMetadataView {
    pub canonical_asset: CanonicalAssetIdView,
    pub bridge_route: BridgeRouteView,
    pub total_locked: u128,
    pub nep141_token: Seq<char>,
}

impl View for ReceiptTokenMetadata {
    type V = ReceiptTokenMetadataView;

    open spec fn view(&self) -> ReceiptTokenMetadataView {
        ReceiptTokenMetadataView {
            canonical_asset: self.canonical_asset@,
            bridge_route: self.bridge_route@,
            total_locked: self.total_locked,
            nep141_token: self.nep141_token@,
        }
    }
}

impl Clone for ReceiptTokenMetadata {
    fn clone(&self) -> (r: Self)
        ensures
            r@ == self@,
    {
        ReceiptTokenMetadata {
            canonical_asset: self.canonical_asset.clone(),
            bridge_route: self.bridge_route.clone(),
            total_locked: self.total_locked,
            nep141_token: self.nep141_token.clone(),
        }
    }
}

/// Which way a transfer crosses the bridge.
#[derive(Debug, Clone, Copy, PartialEq, Eq)]
pub enum BridgeDirection {
    In,
    Out,
}

/// Evidence of an event on a source chain.  `proof_data` is the serialized
/// payload.
#[derive(Debug, PartialEq, Eq)]
pub struct BridgeProof {
    pub source_tx_hash: String,
    pub proof_data: Vec<u8>,
    pub block_height: u64,
}

impl Clone for BridgeProof {
    fn clone(&self) -> (r: Self)
        ensures
            r.source_tx_hash@ == self.source_tx_hash@,
            r.proof_data@ == self.proof_data@,
            r.block_height == self.block_height,
    {
        BridgeProof {
            source_tx_hash: self.source_tx_hash.clone(),
            proof_data: self.proof_data.clone(),
            block_height: self.block_height,
        }
    }
}

/// Signatures of committee members over a message hash.
#[derive(Debug, PartialEq, Eq)]
pub struct CommitteeProof {
    pub signatures: Vec<(ValidatorKey, Vec<u8>)>,
    pub message_hash: Vec<u8>,
}

/// A message sent from one chain to another.
#[derive(Debug, PartialEq, Eq)]
pub struct XChainMessage {
    pub nonce: u128,
    pub source_chain: ChainId,
    pub destination_chain: ChainId,
    pub source_contract: String,
    pub destination_contract: String,
    pub payload: Vec<u8>,
}

/// The mathematical view of [`XChainMessage`].
pub struct XChainMessageView {
    pub nonce: u128,
    pub source_chain: Seq<char>,
    pub destination_chain: Seq<char>,
    pub source_contract: Seq<char>,
    pub destination_contract: Seq<char>,
    pub payload: Seq<u8>,
}

impl View for XChainMessage {
    type V = XChainMessageView;

    open spec fn view(&self) -> XChainMessageView {
        XChainMessageView {
            nonce: self.nonce,
            source_chain: self.source_chain@,
            destination_chain: self.destination_chain@,
            source_contract: self.source_contract@,
            destination_contract: self.destination_contract@,
            payload: self.payload@,
        }
    }
}

/// What a bridge proof decodes to: an amount of an asset, locked on the
/// source chain for a receiver on the target chain.
#[derive(Debug, PartialEq, Eq)]
pub struct BridgePayload {
    pub nonce: u128,
    pub source_chain: ChainId,
    pub target_chain: ChainId,
    pub asset: CanonicalAssetId,
    pub amount: u128,
    pub receiver: AccountId,
    pub source_tx_hash: String,
}

/// The mathematical view of [`BridgePayload`].
pub struct BridgePayloadView {
    pub nonce: u128,
    pub source_chain: Seq<char>,
    pub target_chain: Seq<char>,
    pub asset: CanonicalAssetIdView,
    pub amount: u128,
    pub receiver: Seq<char>,
    pub source_tx_hash: Seq<char>,
}

impl View for BridgePayload {
    type V = BridgePayloadView;

    open spec fn view(&self) -> BridgePayloadView {
        BridgePayloadView {
            nonce: self.nonce,
            source_chain: self.source_chain@,
            target_chain: self.target_chain@,
            asset: self.asset@,
            amount: self.amount,
            receiver: self.receiver@,
            source_tx_hash: self.source_tx_hash@,
        }
    }
}

} // verus!
