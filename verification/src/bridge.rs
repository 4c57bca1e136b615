//! The bridge: proof validation with replay protection, the registry of
//! receipt tokens, and the orchestration of mint and burn.

use crate::account::AccountId;
use crate::actions::{
    ActionBatch, BridgeInEffect, BridgeInEvent, BridgeOutEffect, BridgeOutEvent, CallPlan,
    FungibleTokenMetadata,
};
use crate::codec::decode_payload;
use crate::collections::{map_of, ByteStringSet, StringMap};
use crate::hashing::{sha256, sha256_digest};
use crate::interface::XChainCore;
use crate::model::{committee_threshold, BridgeError, BridgeState, ContextView, BRIDGE_FEE};
use crate::naming::{
    canonical_key, derive_token_id, names_this_chain, token_label, MAX_BRIDGE_ID_LEN,
    TOKEN_LABEL_LEN,
};
use crate::types::{
    BridgeDirection, BridgePayload, BridgeProof, BridgeRoute, CanonicalAssetId, ChainId,
    ReceiptTokenMetadata, SecurityModel, ValidatorKey,
};
use vstd::prelude::*;

verus! {

/// What the host tells the bridge about the call in progress.
#[derive(Debug)]
pub struct CallContext {
    /// The account the bridge runs as.
    pub current_account_id: AccountId,
    /// The account that made the call.
    pub predecessor_account_id: AccountId,
    /// The payment attached to the call.
    pub attached_deposit: u128,
    /// The time of the current block, in nanoseconds.
    pub block_timestamp: u64,
}

impl View for CallContext {
    type V = ContextView;

    open spec fn view(&self) -> ContextView {
        ContextView {
            current_account_id: self.current_account_id@,
            predecessor_account_id: self.predecessor_account_id@,
            attached_deposit: self.attached_deposit,
            block_timestamp: self.block_timestamp,
        }
    }
}

/// The set of the byte strings in a list of keys.
pub open spec fn key_set(keys: Seq<ValidatorKey>) -> Set<Seq<u8>> {
    keys.map_values(|k: ValidatorKey| k@).to_set()
}

/// The whole state of a bridge as plain lists, for keeping it between
/// calls.  In a list of bindings the first binding of a key counts.
#[derive(Debug, PartialEq, Eq)]
pub struct BridgeSnapshot {
    pub receipt_token_code: Vec<u8>,
    pub canonical_to_receipt: Vec<(String, AccountId)>,
    pub receipt_to_canonical: Vec<(String, CanonicalAssetId)>,
    pub processed_proofs: Vec<Vec<u8>>,
    pub owner_id: AccountId,
    pub validators: Vec<ValidatorKey>,
    pub paused: bool,
    pub treasury: AccountId,
    pub deployed_at: u64,
}

impl View for BridgeSnapshot {
    type V = BridgeState;

    open spec fn view(&self) -> BridgeState {
        BridgeState {
            receipt_token_code: self.receipt_token_code@,
            canonical_to_receipt: map_of(self.canonical_to_receipt@),
            receipt_to_canonical: map_of(self.receipt_to_canonical@),
            processed_proofs: key_set(self.processed_proofs@),
            owner_id: self.owner_id@,
            validators: key_set(self.validators@),
            paused: self.paused,
            treasury: self.treasury@,
            deployed_at: self.deployed_at,
        }
    }
}

/// A bridge.
#[derive(Debug)]
pub struct XChainBridge {
    receipt_token_code: Vec<u8>,
    canonical_to_receipt: StringMap<AccountId>,
    receipt_to_canonical: StringMap<CanonicalAssetId>,
    processed_proofs: ByteStringSet,
    owner_id: AccountId,
    validators: ByteStringSet,
    paused: bool,
    treasury: AccountId,
    deployed_at: u64,
}

impl View for XChainBridge {
    type V = BridgeState;

    closed spec fn view(&self) -> BridgeState {
        BridgeState {
            receipt_token_code: self.receipt_token_code@,
            canonical_to_receipt: self.canonical_to_receipt@,
            receipt_to_canonical: self.receipt_to_canonical@,
            processed_proofs: self.processed_proofs@,
            owner_id: self.owner_id@,
            validators: self.validators@,
            paused: self.paused,
            treasury: self.treasury@,
            deployed_at: self.deployed_at,
        }
    }
}

impl XChainBridge {
    /// A new bridge owned by `owner_id`, with the given validators, made in
    /// the block of the call.
    pub fn new(ctx: &CallContext, owner_id: AccountId, initial_validators: Vec<ValidatorKey>) -> (bridge:
        Self)
        ensures
            bridge@ == BridgeState::initial(
                owner_id@,
                key_set(initial_validators@),
                ctx.block_timestamp,
            ),
    {
        let validators = ByteStringSet::from_keys(&initial_validators);
        let treasury = owner_id.clone();
        XChainBridge {
            receipt_token_code: Vec::new(),
            canonical_to_receipt: StringMap::new(),
            receipt_to_canonical: StringMap::new(),
            processed_proofs: ByteStringSet::new(),
            owner_id,
            validators,
            paused: false,
            treasury,
            deployed_at: ctx.block_timestamp,
        }
    }

    /// The state of the bridge as plain lists.
    pub fn snapshot(&self) -> (s: BridgeSnapshot)
        ensures
            s@ == self@,
    {
        let canonical_to_receipt = self.canonical_to_receipt.to_entries();
        let receipt_to_canonical = self.receipt_to_canonical.to_entries();
        proof {
            self.canonical_to_receipt.lemma_entries_model(canonical_to_receipt@);
            self.receipt_to_canonical.lemma_entries_model(receipt_to_canonical@);
        }
        BridgeSnapshot {
            receipt_token_code: self.receipt_token_code.clone(),
            canonical_to_receipt,
            receipt_to_canonical,
            processed_proofs: self.processed_proofs.to_vec(),
            owner_id: self.owner_id.clone(),
            validators: self.validators.to_vec(),
            paused: self.paused,
            treasury: self.treasury.clone(),
            deployed_at: self.deployed_at,
        }
    }

    /// The bridge in the state that a snapshot records.
    pub fn restore(s: BridgeSnapshot) -> (bridge: Self)
        ensures
            bridge@ == s@,
    {
        XChainBridge {
            receipt_token_code: s.receipt_token_code,
            canonical_to_receipt: StringMap::from_entries(s.canonical_to_receipt),
            receipt_to_canonical: StringMap::from_entries(s.receipt_to_canonical),
            processed_proofs: ByteStringSet::from_keys(&s.processed_proofs),
            owner_id: s.owner_id,
            validators: ByteStringSet::from_keys(&s.validators),
            paused: s.paused,
            treasury: s.treasury,
            deployed_at: s.deployed_at,
        }
    }

    /// The owner of the bridge.
    pub fn owner_id(&self) -> (r: &AccountId)
        ensures
            r@ == self@.owner_id,
    {
        &self.owner_id
    }

    /// The account that outbound payments go to.
    pub fn treasury(&self) -> (r: &AccountId)
        ensures
            r@ == self@.treasury,
    {
        &self.treasury
    }

    /// The code that new receipt tokens are deployed with; empty until it
    /// is configured.
    pub fn receipt_token_code(&self) -> (r: &Vec<u8>)
        ensures
            r@ == self@.receipt_token_code,
    {
        &self.receipt_token_code
    }

    /// The number of validators.
    pub fn validator_count(&self) -> (n: usize)
        ensures
            n == self@.validators.len(),
    {
        self.validators.len()
    }

    /// Whether `public_key` belongs to a validator.
    pub fn is_validator(&self, public_key: &[u8]) -> (r: bool)
        ensures
            r == self@.validators.contains(public_key@),
    {
        self.validators.contains(public_key)
    }

    /// Whether the proof with this data has been consumed.
    pub fn is_consumed(&self, proof_data: &[u8]) -> (r: bool)
        ensures
            r == self@.processed_proofs.contains(sha256_digest(proof_data@)),
    {
        let digest = sha256(proof_data);
        self.processed_proofs.contains(digest.as_slice())
    }

    /// The number of proofs consumed so far.
    pub fn consumed_count(&self) -> (n: usize)
        ensures
            n == self@.processed_proofs.len(),
    {
        self.processed_proofs.len()
    }

    /// The receipt token registered for `asset`, if there is one.
    pub fn get_receipt_token(&self, asset: &CanonicalAssetId) -> (r: Option<AccountId>)
        ensures
            match r {
                Some(token) => self@.canonical_to_receipt.contains_key(canonical_key(asset@))
                    && self@.canonical_to_receipt[canonical_key(asset@)] == token@,
                None => !self@.canonical_to_receipt.contains_key(canonical_key(asset@)),
            },
    {
        let key = asset.canonical_key();
        match self.canonical_to_receipt.get(key.as_str()) {
            Some(token) => Some(token.clone()),
            None => None,
        }
    }

    /// Whether the caller is the owner.
    fn check_owner(&self, ctx: &CallContext) -> (r: Result<(), BridgeError>)
        ensures
            self@.is_owner(ctx@) ==> r is Ok,
            !self@.is_owner(ctx@) ==> r == Err::<(), BridgeError>(BridgeError::Unauthorized),
    {
        if ctx.predecessor_account_id.equals(&self.owner_id) {
            Ok(())
        } else {
            Err(BridgeError::Unauthorized)
        }
    }

    /// Configures the code that new receipt tokens are deployed with.
    /// Owner only.
    pub fn set_receipt_token_code(&mut self, ctx: &CallContext, code: Vec<u8>) -> (r: Result<
        (),
        BridgeError,
    >)
        ensures
            match r {
                Ok(()) => old(self)@.set_receipt_token_code(ctx@, code@) == Ok::<
                    BridgeState,
                    BridgeError,
                >(final(self)@),
                Err(e) => old(self)@.set_receipt_token_code(ctx@, code@) == Err::<
                    BridgeState,
                    BridgeError,
                >(e) && final(self)@ == old(self)@,
            },
    {
        match self.check_owner(ctx) {
            Ok(()) => {
                self.receipt_token_code = code;
                Ok(())
            },
            Err(e) => Err(e),
        }
    }

    /// Names the account that outbound payments go to.  Owner only.
    pub fn set_treasury(&mut self, ctx: &CallContext, treasury: AccountId) -> (r: Result<
        (),
        BridgeError,
    >)
        ensures
            match r {
                Ok(()) => old(self)@.set_treasury(ctx@, treasury@) == Ok::<
                    BridgeState,
                    BridgeError,
                >(final(self)@),
                Err(e) => old(self)@.set_treasury(ctx@, treasury@) == Err::<
                    BridgeState,
                    BridgeError,
                >(e) && final(self)@ == old(self)@,
            },
    {
        match self.check_owner(ctx) {
            Ok(()) => {
                self.treasury = treasury;
                Ok(())
            },
            Err(e) => Err(e),
        }
    }

    /// Validates a proof without recording it, and computes its digest.
    fn check_proof(&self, proof: &BridgeProof, receiver_id: &AccountId) -> (r: Result<
        (BridgePayload, Vec<u8>),
        BridgeError,
    >)
        ensures
            match r {
                Ok((payload, digest)) => self@.check_proof(proof.proof_data@, receiver_id@) == Ok::<
                    crate::types::BridgePayloadView,
                    BridgeError,
                >(payload@) && digest@ == sha256_digest(proof.proof_data@),
                Err(e) => self@.check_proof(proof.proof_data@, receiver_id@) == Err::<
                    crate::types::BridgePayloadView,
                    BridgeError,
                >(e),
            },
    {
        let digest = sha256(proof.proof_data.as_slice());
        if self.processed_proofs.contains(digest.as_slice()) {
            return Err(BridgeError::ReplayedProof);
        }
        let payload = match decode_payload(proof.proof_data.as_slice()) {
            Some(payload) => payload,
            None => {
                return Err(BridgeError::DecodeFailure);
            },
        };
        if !names_this_chain(payload.target_chain.as_str()) {
            return Err(BridgeError::WrongTargetChain);
        }
        if !payload.receiver.equals(receiver_id) {
            return Err(BridgeError::ReceiverMismatch);
        }
        Ok((payload, digest))
    }

    /// Validates a proof for a declared receiver and records it as consumed.
    /// A proof is consumed only if it passes every check.
    pub fn validate_and_consume(&mut self, proof: &BridgeProof, receiver_id: &AccountId) -> (r:
        Result<BridgePayload, BridgeError>)
        ensures
            match r {
                Ok(payload) => old(self)@.check_proof(proof.proof_data@, receiver_id@) == Ok::<
                    crate::types::BridgePayloadView,
                    BridgeError,
                >(payload@) && final(self)@ == old(self)@.consume(proof.proof_data@),
                Err(e) => old(self)@.check_proof(proof.proof_data@, receiver_id@) == Err::<
                    crate::types::BridgePayloadView,
                    BridgeError,
                >(e) && final(self)@ == old(self)@,
            },
    {
        match self.check_proof(proof, receiver_id) {
            Ok((payload, digest)) => {
                self.processed_proofs.insert(digest);
                Ok(payload)
            },
            Err(e) => Err(e),
        }
    }

    /// Resolves `asset` where that can be done: `None`, with nothing
    /// changed, where a token account would have to be named under a bridge
    /// account too long to leave room for the label.
    fn resolve_where_nameable(&mut self, ctx: &CallContext, asset: &CanonicalAssetId) -> (r: Option<
        Result<(AccountId, bool), BridgeError>,
    >)
        ensures
            r is None <==> old(self)@.creates_token(asset@, ctx@.current_account_id)
                && ctx.current_account_id@.len() > MAX_BRIDGE_ID_LEN,
            match r {
                Some(Ok((token, created))) => old(self)@.resolve(asset@, ctx@.current_account_id)
                    == Ok::<(Seq<char>, bool), BridgeError>((token@, created)) && final(self)@
                    == old(self)@.resolved(asset@, ctx@.current_account_id) && (created
                    ==> token_label(canonical_key(asset@)).len() == TOKEN_LABEL_LEN),
                Some(Err(e)) => old(self)@.resolve(asset@, ctx@.current_account_id) == Err::<
                    (Seq<char>, bool),
                    BridgeError,
                >(e) && final(self)@ == old(self)@,
                None => final(self)@ == old(self)@,
            },
    {
        let key = asset.canonical_key();
        match self.canonical_to_receipt.get(key.as_str()) {
            Some(token) => {
                return Some(Ok((token.clone(), false)));
            },
            None => {},
        }
        if self.receipt_token_code.len() == 0 {
            return Some(Err(BridgeError::FactoryUninitialized));
        }
        if ctx.current_account_id.as_str().unicode_len() > MAX_BRIDGE_ID_LEN {
            return None;
        }
        let token = derive_token_id(key.as_str(), &ctx.current_account_id);
        self.receipt_to_canonical.insert(token.to_string(), asset.clone());
        self.canonical_to_receipt.insert(key, token.clone());
        Some(Ok((token, true)))
    }

    /// The receipt token of `asset`, registering a newly derived one if the
    /// asset has none yet.  Says whether the token has to be created.  Where
    /// it has, the bridge's own account name must leave room for the label
    /// of the token account under it.
    pub fn resolve_or_create(&mut self, ctx: &CallContext, asset: &CanonicalAssetId) -> (r: Result<
        (AccountId, bool),
        BridgeError,
    >)
        requires
            old(self)@.creates_token(asset@, ctx@.current_account_id)
                ==> ctx.current_account_id@.len() <= MAX_BRIDGE_ID_LEN,
        ensures
            match r {
                Ok((token, created)) => old(self)@.resolve(asset@, ctx@.current_account_id) == Ok::<
                    (Seq<char>, bool),
                    BridgeError,
                >((token@, created)) && (created ==> token_label(canonical_key(asset@)).len()
                    == TOKEN_LABEL_LEN),
                Err(e) => old(self)@.resolve(asset@, ctx@.current_account_id) == Err::<
                    (Seq<char>, bool),
                    BridgeError,
                >(e),
            },
            final(self)@ == old(self)@.resolved(asset@, ctx@.current_account_id),
    {
        match self.resolve_where_nameable(ctx, asset) {
            Some(r) => r,
            None => vstd::pervasive::unreached(),
        }
    }

    /// Accepts a transfer into this chain as `bridge_in` does, for any
    /// bridge account: `None`, with nothing changed, where the transfer
    /// names a new token account and the bridge's own account name is too
    /// long to leave room for its label.
    pub fn try_bridge_in(&mut self, ctx: &CallContext, proof: BridgeProof, receiver_id: AccountId) -> (r:
        Option<Result<BridgeInEffect, BridgeError>>)
        ensures
            r is None <==> old(self)@.names_new_token(
                ctx@.current_account_id,
                proof.proof_data@,
                receiver_id@,
            ) && ctx.current_account_id@.len() > MAX_BRIDGE_ID_LEN,
            match r {
                Some(Ok(effect)) => old(self)@.bridge_in(
                    ctx@,
                    proof.source_tx_hash@,
                    proof.proof_data@,
                    receiver_id@,
                ) == Ok::<(BridgeState, crate::actions::BridgeInEffectView), BridgeError>(
                    (final(self)@, effect@),
                ) && (old(self)@.names_new_token(
                    ctx@.current_account_id,
                    proof.proof_data@,
                    receiver_id@,
                ) ==> effect@.event.receipt_token.subrange(0, TOKEN_LABEL_LEN as int)
                    == token_label(canonical_key(effect@.event.canonical_asset))
                    && token_label(canonical_key(effect@.event.canonical_asset)).len()
                    == TOKEN_LABEL_LEN),
                Some(Err(e)) => old(self)@.bridge_in(
                    ctx@,
                    proof.source_tx_hash@,
                    proof.proof_data@,
                    receiver_id@,
                ) == Err::<(BridgeState, crate::actions::BridgeInEffectView), BridgeError>(e)
                    && final(self)@ == old(self)@,
                None => final(self)@ == old(self)@,
            },
    {
        if self.paused {
            return Some(Err(BridgeError::Paused));
        }
        let (payload, digest) = match self.check_proof(&proof, &receiver_id) {
            Ok(checked) => checked,
            Err(e) => {
                return Some(Err(e));
            },
        };
        let route = self.get_bridge_route(&ctx.current_account_id);
        let code = self.receipt_token_code.clone();
        let (token, created) = match self.resolve_where_nameable(ctx, &payload.asset) {
            Some(Ok(resolved)) => resolved,
            Some(Err(e)) => {
                return Some(Err(e));
            },
            None => {
                return None;
            },
        };
        self.processed_proofs.insert(digest);
        let event = BridgeInEvent {
            canonical_asset: payload.asset.clone(),
            amount: payload.amount,
            receiver_id: receiver_id.clone(),
            source_tx_hash: proof.source_tx_hash,
            receipt_token: token.clone(),
        };
        let mint = ActionBatch::mint(token.clone(), receiver_id, payload.amount);
        let plan = if created {
            let metadata = FungibleTokenMetadata::for_receipt_token(
                payload.asset.source_contract.as_str(),
            );
            let xc_metadata = ReceiptTokenMetadata {
                canonical_asset: payload.asset,
                bridge_route: route,
                total_locked: payload.amount,
                nep141_token: token.clone(),
            };
            proof {
                assert(token@.subrange(0, TOKEN_LABEL_LEN as int) =~= token_label(
                    canonical_key(event@.canonical_asset),
                ));
            }
            CallPlan {
                first: ActionBatch::provision(
                    token,
                    ctx.attached_deposit,
                    code,
                    ctx.current_account_id.clone(),
                    metadata,
                    xc_metadata,
                ),
                after: Some(mint),
            }
        } else {
            CallPlan { first: mint, after: None }
        };
        Some(Ok(BridgeInEffect { event, plan }))
    }
}

impl XChainCore for XChainBridge {
    open spec fn names_new_token(
        &self,
        ctx: &CallContext,
        proof: &BridgeProof,
        receiver_id: &AccountId,
    ) -> bool {
        self@.names_new_token(ctx@.current_account_id, proof.proof_data@, receiver_id@)
    }

    /// Accepts a transfer into this chain: validates and consumes the proof,
    /// resolves the receipt token, and plans the mint.  For a new token the
    /// plan provisions it first and mints once that has completed or failed.
    /// The account of a new token is named by the first twenty hexadecimal
    /// digits of the digest of the asset's canonical key.
    fn bridge_in(&mut self, ctx: &CallContext, proof: BridgeProof, receiver_id: AccountId) -> (r:
        Result<BridgeInEffect, BridgeError>)
        ensures
            match r {
                Ok(effect) => old(self)@.bridge_in(
                    ctx@,
                    proof.source_tx_hash@,
                    proof.proof_data@,
                    receiver_id@,
                ) == Ok::<(BridgeState, crate::actions::BridgeInEffectView), BridgeError>(
                    (final(self)@, effect@),
                ) && (old(self)@.names_new_token(
                    ctx@.current_account_id,
                    proof.proof_data@,
                    receiver_id@,
                ) ==> effect@.event.receipt_token.subrange(0, TOKEN_LABEL_LEN as int)
                    == token_label(canonical_key(effect@.event.canonical_asset))
                    && token_label(canonical_key(effect@.event.canonical_asset)).len()
                    == TOKEN_LABEL_LEN),
                Err(e) => old(self)@.bridge_in(
                    ctx@,
                    proof.source_tx_hash@,
                    proof.proof_data@,
                    receiver_id@,
                ) == Err::<(BridgeState, crate::actions::BridgeInEffectView), BridgeError>(e)
                    && final(self)@ == old(self)@,
            },
    {
        match self.try_bridge_in(ctx, proof, receiver_id) {
            Some(r) => r,
            None => vstd::pervasive::unreached(),
        }
    }

    /// Accepts a transfer out of this chain: the whole attached payment goes
    /// to the treasury, and the caller's tokens are to be burned.
    fn bridge_out(
        &mut self,
        ctx: &CallContext,
        token_id: AccountId,
        amount: u128,
        destination_chain: ChainId,
        destination_address: String,
    ) -> (r: Result<BridgeOutEffect, BridgeError>)
        ensures
            match r {
                Ok(effect) => old(self)@.bridge_out(
                    ctx@,
                    token_id@,
                    amount,
                    destination_chain@,
                    destination_address@,
                ) == Ok::<crate::actions::BridgeOutEffectView, BridgeError>(effect@),
                Err(e) => old(self)@.bridge_out(
                    ctx@,
                    token_id@,
                    amount,
                    destination_chain@,
                    destination_address@,
                ) == Err::<crate::actions::BridgeOutEffectView, BridgeError>(e),
            },
            final(self)@ == old(self)@,
    {
        if self.paused {
            return Err(BridgeError::Paused);
        }
        if ctx.attached_deposit < BRIDGE_FEE {
            return Err(BridgeError::InsufficientFee);
        }
        let asset = match self.receipt_to_canonical.get(token_id.as_str()) {
            Some(asset) => asset.clone(),
            None => {
                return Err(BridgeError::UnmanagedToken);
            },
        };
        let treasury_payment = ActionBatch::transfer(self.treasury.clone(), ctx.attached_deposit);
        let event = BridgeOutEvent {
            canonical_asset: asset,
            amount,
            sender_id: ctx.predecessor_account_id.clone(),
            destination_chain,
            destination_address,
            receipt_token: token_id.clone(),
        };
        let burn = ActionBatch::burn(token_id, ctx.predecessor_account_id.clone(), amount);
        Ok(BridgeOutEffect { treasury_payment, event, burn })
    }

    /// The asset that `token_id` is the receipt token of, if it is one of
    /// this bridge.
    fn get_canonical_asset(&self, token_id: AccountId) -> (r: Option<CanonicalAssetId>)
        ensures
            match r {
                Some(asset) => self@.receipt_to_canonical.contains_key(token_id@)
                    && self@.receipt_to_canonical[token_id@] == asset@,
                None => !self@.receipt_to_canonical.contains_key(token_id@),
            },
    {
        match self.receipt_to_canonical.get(token_id.as_str()) {
            Some(asset) => Some(asset.clone()),
            None => None,
        }
    }

    /// The trust descriptor of the bridge, running as `current_account_id`:
    /// the committee is computed from the validators it has now, and the
    /// deployment time is that of the block in which the bridge was made.
    fn get_bridge_route(&self, current_account_id: &AccountId) -> (route: BridgeRoute)
        ensures
            route@ == self@.route(current_account_id@),
            route.security_model matches SecurityModel::Committee { threshold, size }
                && threshold == committee_threshold(self@.validators.len()) && size
                == self@.validators.len(),
    {
        let n: usize = self.validators.len();
        let threshold: u128 = (n as u128 * 2) / 3 + 1;
        BridgeRoute {
            bridge_contract: current_account_id.clone(),
            security_model: SecurityModel::Committee {
                threshold: threshold as u64,
                size: n as u64,
            },
            deployed_at: self.deployed_at,
        }
    }

    /// The fee of a transfer.  It is the same for every direction, asset and
    /// amount.
    fn estimate_fee(
        &self,
        direction: BridgeDirection,
        asset: Option<CanonicalAssetId>,
        amount: u128,
    ) -> (fee: u128)
        ensures
            fee == BRIDGE_FEE,
    {
        BRIDGE_FEE
    }

    /// Pauses or resumes bridging.  Owner only.
    fn set_paused(&mut self, ctx: &CallContext, paused: bool) -> (r: Result<(), BridgeError>)
        ensures
            match r {
                Ok(()) => old(self)@.set_paused(ctx@, paused) == Ok::<BridgeState, BridgeError>(
                    final(self)@,
                ),
                Err(e) => old(self)@.set_paused(ctx@, paused) == Err::<BridgeState, BridgeError>(e)
                    && final(self)@ == old(self)@,
            },
    {
        match self.check_owner(ctx) {
            Ok(()) => {
                self.paused = paused;
                Ok(())
            },
            Err(e) => Err(e),
        }
    }

    /// Whether bridging is paused.
    fn is_paused(&self) -> (r: bool)
        ensures
            r == self@.paused,
    {
        self.paused
    }

    /// Admits a validator to the committee.  Owner only.
    fn add_validator(&mut self, ctx: &CallContext, public_key: ValidatorKey) -> (r: Result<
        (),
        BridgeError,
    >)
        ensures
            match r {
                Ok(()) => old(self)@.add_validator(ctx@, public_key@) == Ok::<
                    BridgeState,
                    BridgeError,
                >(final(self)@),
                Err(e) => old(self)@.add_validator(ctx@, public_key@) == Err::<
                    BridgeState,
                    BridgeError,
                >(e) && final(self)@ == old(self)@,
            },
    {
        match self.check_owner(ctx) {
            Ok(()) => {
                self.validators.insert(public_key);
                Ok(())
            },
            Err(e) => Err(e),
        }
    }

    /// Dismisses a validator from the committee.  Owner only.
    fn remove_validator(&mut self, ctx: &CallContext, public_key: ValidatorKey) -> (r: Result<
        (),
        BridgeError,
    >)
        ensures
            match r {
                Ok(()) => old(self)@.remove_validator(ctx@, public_key@) == Ok::<
                    BridgeState,
                    BridgeError,
                >(final(self)@),
                Err(e) => old(self)@.remove_validator(ctx@, public_key@) == Err::<
                    BridgeState,
                    BridgeError,
                >(e) && final(self)@ == old(self)@,
            },
    {
        match self.check_owner(ctx) {
            Ok(()) => {
                self.validators.remove(public_key.as_slice());
                Ok(())
            },
            Err(e) => Err(e),
        }
    }
}

} // verus!
