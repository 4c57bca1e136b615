//! The bridge as a state machine over mathematical values.
//!
//! `BridgeState` is the view of a bridge.  Each operation of the bridge is a
//! function here from a state and the operation's inputs to either an error
//! or the next state and what is handed to the host.  The executable bridge
//! refines these functions, and the laws of the bridge are proved of them.

use crate::actions::{
    burn_batch, mint_batch, provision_batch, receipt_token_metadata, transfer_batch,
    BridgeInEffectView, BridgeInEventView, BridgeOutEffectView, BridgeOutEventView, CallPlanView,
};
use crate::codec::decode_payload_spec;
use crate::hashing::sha256_digest;
use crate::naming::{canonical_key, identifies_this_chain, token_account_name};
use crate::types::{
    BridgePayloadView, BridgeRouteView, CanonicalAssetIdView, ReceiptTokenMetadataView,
    SecurityModelView,
};
use vstd::prelude::*;

verus! {

/// The fee of an outbound transfer, in the smallest unit of the native
/// currency: a tenth of a whole coin of 10^24 units.
pub const BRIDGE_FEE: u128 = 100_000_000_000_000_000_000_000;

/// Why the bridge refused an operation.
#[derive(Debug, Clone, Copy, PartialEq, Eq, Structural)]
pub enum BridgeError {
    /// The proof has been consumed before.
    ReplayedProof,
    /// The proof data is not a well-formed payload.
    DecodeFailure,
    /// The payload is addressed to another chain.
    WrongTargetChain,
    /// The payload names another receiver than the caller declared.
    ReceiverMismatch,
    /// A token would have to be created, and no token code is configured.
    FactoryUninitialized,
    /// The token is not a receipt token of this bridge.
    UnmanagedToken,
    /// Less than the bridge fee was attached.
    InsufficientFee,
    /// The caller is not the owner.
    Unauthorized,
    /// The bridge is paused.
    Paused,
}

impl BridgeError {
    /// The reason in words.
    pub open spec fn message_text(self) -> Seq<char> {
        match self {
            BridgeError::ReplayedProof => "Proof already used"@,
            BridgeError::DecodeFailure => "Failed to deserialize BridgePayload"@,
            BridgeError::WrongTargetChain => "Wrong target chain"@,
            BridgeError::ReceiverMismatch => "Receiver mismatch"@,
            BridgeError::FactoryUninitialized => "Factory not initialized"@,
            BridgeError::UnmanagedToken => "Token not managed by bridge"@,
            BridgeError::InsufficientFee => "Insufficient Fee"@,
            BridgeError::Unauthorized => "Unauthorized"@,
            BridgeError::Paused => "Bridge is paused"@,
        }
    }

    /// The reason in words.
    pub fn message(&self) -> (m: &'static str)
        ensures
            m@ == self.message_text(),
    {
        match self {
            BridgeError::ReplayedProof => "Proof already used",
            BridgeError::DecodeFailure => "Failed to deserialize BridgePayload",
            BridgeError::WrongTargetChain => "Wrong target chain",
            BridgeError::ReceiverMismatch => "Receiver mismatch",
            BridgeError::FactoryUninitialized => "Factory not initialized",
            BridgeError::UnmanagedToken => "Token not managed by bridge",
            BridgeError::InsufficientFee => "Insufficient Fee",
            BridgeError::Unauthorized => "Unauthorized",
            BridgeError::Paused => "Bridge is paused",
        }
    }
}

/// What the host tells the bridge about the call in progress.
pub struct ContextView {
    pub current_account_id: Seq<char>,
    pub predecessor_account_id: Seq<char>,
    pub attached_deposit: u128,
    pub block_timestamp: u64,
}

/// The number of committee members that must attest: two thirds of the
/// committee, rounded down, and one more.
pub open spec fn committee_threshold(size: nat) -> nat {
    2 * size / 3 + 1
}

/// The state of a bridge.
pub struct BridgeState {
    pub receipt_token_code: Seq<u8>,
    pub canonical_to_receipt: Map<Seq<char>, Seq<char>>,
    pub receipt_to_canonical: Map<Seq<char>, CanonicalAssetIdView>,
    pub processed_proofs: Set<Seq<u8>>,
    pub owner_id: Seq<char>,
    pub validators: Set<Seq<u8>>,
    pub paused: bool,
    pub treasury: Seq<char>,
    /// The time of the block in which the bridge was made.
    pub deployed_at: u64,
}

impl BridgeState {
    /// A new bridge, made at the time `deployed_at`: nothing registered,
    /// nothing consumed, not paused, the owner as treasury.
    pub open spec fn initial(
        owner_id: Seq<char>,
        validators: Set<Seq<u8>>,
        deployed_at: u64,
    ) -> BridgeState {
        BridgeState {
            receipt_token_code: Seq::empty(),
            canonical_to_receipt: Map::empty(),
            receipt_to_canonical: Map::empty(),
            processed_proofs: Set::empty(),
            owner_id,
            validators,
            paused: false,
            treasury: owner_id,
            deployed_at,
        }
    }

    /// Whether the caller is the owner.
    pub open spec fn is_owner(self, ctx: ContextView) -> bool {
        ctx.predecessor_account_id == self.owner_id
    }

    /// An owner-only change: `next` for the owner, `Unauthorized` for anyone
    /// else.  The pause flag plays no part.
    pub open spec fn owner_only(self, ctx: ContextView, next: BridgeState) -> Result<
        BridgeState,
        BridgeError,
    > {
        if self.is_owner(ctx) {
            Ok(next)
        } else {
            Err(BridgeError::Unauthorized)
        }
    }

    /// Configuring the token code: the owner replaces it.
    pub open spec fn set_receipt_token_code(self, ctx: ContextView, code: Seq<u8>) -> Result<
        BridgeState,
        BridgeError,
    > {
        self.owner_only(ctx, BridgeState { receipt_token_code: code, ..self })
    }

    /// Naming the treasury: the owner replaces it.
    pub open spec fn set_treasury(self, ctx: ContextView, treasury: Seq<char>) -> Result<
        BridgeState,
        BridgeError,
    > {
        self.owner_only(ctx, BridgeState { treasury, ..self })
    }

    /// Pausing and resuming: the owner sets the flag.
    pub open spec fn set_paused(self, ctx: ContextView, paused: bool) -> Result<
        BridgeState,
        BridgeError,
    > {
        self.owner_only(ctx, BridgeState { paused, ..self })
    }

    /// Admitting a validator: the owner adds its key to the set.
    pub open spec fn add_validator(self, ctx: ContextView, key: Seq<u8>) -> Result<
        BridgeState,
        BridgeError,
    > {
        self.owner_only(ctx, BridgeState { validators: self.validators.insert(key), ..self })
    }

    /// Dismissing a validator: the owner takes its key out of the set.
    pub open spec fn remove_validator(self, ctx: ContextView, key: Seq<u8>) -> Result<
        BridgeState,
        BridgeError,
    > {
        self.owner_only(ctx, BridgeState { validators: self.validators.remove(key), ..self })
    }

    /// The trust descriptor of the bridge, running as `bridge_contract`: a
    /// committee of the validators it has now, deployed when the bridge was
    /// made.
    pub open spec fn route(self, bridge_contract: Seq<char>) -> BridgeRouteView {
        BridgeRouteView {
            bridge_contract,
            security_model: SecurityModelView::Committee {
                threshold: committee_threshold(self.validators.len()) as u64,
                size: self.validators.len() as u64,
            },
            deployed_at: self.deployed_at,
        }
    }

    /// Validates a proof for a declared receiver: not consumed before,
    /// well-formed, addressed to this chain, and naming that receiver.
    pub open spec fn check_proof(self, proof_data: Seq<u8>, receiver: Seq<char>) -> Result<
        BridgePayloadView,
        BridgeError,
    > {
        if self.processed_proofs.contains(sha256_digest(proof_data)) {
            Err(BridgeError::ReplayedProof)
        } else {
            match decode_payload_spec(proof_data) {
                None => Err(BridgeError::DecodeFailure),
                Some(payload) => if !identifies_this_chain(payload.target_chain) {
                    Err(BridgeError::WrongTargetChain)
                } else if payload.receiver != receiver {
                    Err(BridgeError::ReceiverMismatch)
                } else {
                    Ok(payload)
                },
            }
        }
    }

    /// The state once the proof is recorded as consumed.
    pub open spec fn consume(self, proof_data: Seq<u8>) -> BridgeState {
        BridgeState {
            processed_proofs: self.processed_proofs.insert(sha256_digest(proof_data)),
            ..self
        }
    }

    /// The receipt token of an asset and whether it has to be created: the
    /// registered token if there is one, else the derived account, which
    /// needs token code to be configured.
    pub open spec fn resolve(self, asset: CanonicalAssetIdView, bridge: Seq<char>) -> Result<
        (Seq<char>, bool),
        BridgeError,
    > {
        let key = canonical_key(asset);
        if self.canonical_to_receipt.contains_key(key) {
            Ok((self.canonical_to_receipt[key], false))
        } else if self.receipt_token_code.len() == 0 {
            Err(BridgeError::FactoryUninitialized)
        } else {
            Ok((token_account_name(key, bridge), true))
        }
    }

    /// The state once `token` is registered as the receipt token of `asset`.
    pub open spec fn register(self, asset: CanonicalAssetIdView, token: Seq<char>) -> BridgeState {
        BridgeState {
            canonical_to_receipt: self.canonical_to_receipt.insert(canonical_key(asset), token),
            receipt_to_canonical: self.receipt_to_canonical.insert(token, asset),
            ..self
        }
    }

    /// The state after resolving `asset`: the asset is registered if it was
    /// not, and nothing changes otherwise.
    pub open spec fn resolved(self, asset: CanonicalAssetIdView, bridge: Seq<char>) -> BridgeState {
        match self.resolve(asset, bridge) {
            Ok((token, created)) => if created {
                self.register(asset, token)
            } else {
                self
            },
            Err(_) => self,
        }
    }

    /// Whether an inbound transfer names a new token account: the bridge is
    /// running, the proof validates, and its asset has no token yet while
    /// token code is configured.  Only then is an account name derived from
    /// the bridge's own.
    pub open spec fn names_new_token(
        self,
        bridge: Seq<char>,
        proof_data: Seq<u8>,
        receiver: Seq<char>,
    ) -> bool {
        !self.paused && (self.check_proof(proof_data, receiver) matches Ok(payload)
            && self.creates_token(payload.asset, bridge))
    }

    /// Whether resolving `asset` creates its token.
    pub open spec fn creates_token(self, asset: CanonicalAssetIdView, bridge: Seq<char>) -> bool {
        (self.resolve(asset, bridge) matches Ok(resolved) && resolved.1)
    }

    /// An inbound transfer: the next state and what the host is asked to do,
    /// or the reason for refusing.
    pub open spec fn bridge_in(
        self,
        ctx: ContextView,
        source_tx_hash: Seq<char>,
        proof_data: Seq<u8>,
        receiver: Seq<char>,
    ) -> Result<(BridgeState, BridgeInEffectView), BridgeError> {
        if self.paused {
            Err(BridgeError::Paused)
        } else {
            match self.check_proof(proof_data, receiver) {
                Err(e) => Err(e),
                Ok(payload) => match self.resolve(payload.asset, ctx.current_account_id) {
                    Err(e) => Err(e),
                    Ok((token, created)) => {
                        let event = BridgeInEventView {
                            canonical_asset: payload.asset,
                            amount: payload.amount,
                            receiver_id: receiver,
                            source_tx_hash,
                            receipt_token: token,
                        };
                        let mint = mint_batch(token, receiver, payload.amount);
                        let plan = if created {
                            CallPlanView {
                                first: provision_batch(
                                    token,
                                    ctx.attached_deposit,
                                    self.receipt_token_code,
                                    ctx.current_account_id,
                                    receipt_token_metadata(payload.asset.source_contract),
                                    ReceiptTokenMetadataView {
                                        canonical_asset: payload.asset,
                                        bridge_route: self.route(ctx.current_account_id),
                                        total_locked: payload.amount,
                                        nep141_token: token,
                                    },
                                ),
                                after: Some(mint),
                            }
                        } else {
                            CallPlanView { first: mint, after: None }
                        };
                        Ok(
                            (
                                self.consume(proof_data).resolved(
                                    payload.asset,
                                    ctx.current_account_id,
                                ),
                                BridgeInEffectView { event, plan },
                            ),
                        )
                    },
                },
            }
        }
    }

    /// An outbound transfer: what the host is asked to do, or the reason for
    /// refusing.  The whole attached payment goes to the treasury.
    pub open spec fn bridge_out(
        self,
        ctx: ContextView,
        token: Seq<char>,
        amount: u128,
        destination_chain: Seq<char>,
        destination_address: Seq<char>,
    ) -> Result<BridgeOutEffectView, BridgeError> {
        if self.paused {
            Err(BridgeError::Paused)
        } else if ctx.attached_deposit < BRIDGE_FEE {
            Err(BridgeError::InsufficientFee)
        } else if !self.receipt_to_canonical.contains_key(token) {
            Err(BridgeError::UnmanagedToken)
        } else {
            Ok(
                BridgeOutEffectView {
                    treasury_payment: transfer_batch(self.treasury, ctx.attached_deposit),
                    event: BridgeOutEventView {
                        canonical_asset: self.receipt_to_canonical[token],
                        amount,
                        sender_id: ctx.predecessor_account_id,
                        destination_chain,
                        destination_address,
                        receipt_token: token,
                    },
                    burn: burn_batch(token, ctx.predecessor_account_id, amount),
                },
            )
        }
    }

    /// The two directions of the registry are inverse to each other: every
    /// canonical key leads to a token whose asset has that key, and every
    /// token leads to an asset whose key leads back to the token.
    pub open spec fn registry_consistent(self) -> bool {
        &&& forall|key: Seq<char>| #[trigger]
            self.canonical_to_receipt.contains_key(key) ==> {
                let token = self.canonical_to_receipt[key];
                self.receipt_to_canonical.contains_key(token) && canonical_key(
                    self.receipt_to_canonical[token],
                ) == key
            }
        &&& forall|token: Seq<char>| #[trigger]
            self.receipt_to_canonical.contains_key(token) ==> {
                let key = canonical_key(self.receipt_to_canonical[token]);
                self.canonical_to_receipt.contains_key(key) && self.canonical_to_receipt[key]
                    == token
            }
    }
}

} // verus!
