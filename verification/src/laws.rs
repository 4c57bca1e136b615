//! Laws of the bridge, proved of its state machine.
//!
//! The executable bridge refines the functions of `BridgeState`, so what is
//! proved here holds of every run of it.

use crate::actions::{mint_batch, transfer_batch, CallPlanView};
use crate::codec::decode_payload_spec;
use crate::hashing::sha256_digest;
use crate::model::{committee_threshold, BridgeError, BridgeState, ContextView, BRIDGE_FEE};
use crate::naming::{canonical_key, identifies_this_chain, token_account_name};
use crate::types::CanonicalAssetIdView;
use vstd::prelude::*;

verus! {

/// An operation of the bridge with its arguments.
pub enum Operation {
    SetReceiptTokenCode { code: Seq<u8> },
    SetTreasury { treasury: Seq<char> },
    SetPaused { paused: bool },
    AddValidator { key: Seq<u8> },
    RemoveValidator { key: Seq<u8> },
    BridgeIn { source_tx_hash: Seq<char>, proof_data: Seq<u8>, receiver: Seq<char> },
    BridgeOut {
        token: Seq<char>,
        amount: u128,
        destination_chain: Seq<char>,
        destination_address: Seq<char>,
    },
}

/// One call of the bridge: what the host says of it, and the operation.
pub struct Call {
    pub ctx: ContextView,
    pub op: Operation,
}

/// The state after a call.  A refused call changes nothing.
pub open spec fn apply(s: BridgeState, call: Call) -> BridgeState {
    let changed = match call.op {
        Operation::SetReceiptTokenCode { code } => s.set_receipt_token_code(call.ctx, code),
        Operation::SetTreasury { treasury } => s.set_treasury(call.ctx, treasury),
        Operation::SetPaused { paused } => s.set_paused(call.ctx, paused),
        Operation::AddValidator { key } => s.add_validator(call.ctx, key),
        Operation::RemoveValidator { key } => s.remove_validator(call.ctx, key),
        Operation::BridgeIn { source_tx_hash, proof_data, receiver } => match s.bridge_in(
            call.ctx,
            source_tx_hash,
            proof_data,
            receiver,
        ) {
            Ok((next, _)) => Ok(next),
            Err(e) => Err(e),
        },
        Operation::BridgeOut { .. } => Ok(s),
    };
    match changed {
        Ok(next) => next,
        Err(_) => s,
    }
}

/// The state after a sequence of calls.
pub open spec fn run(s: BridgeState, calls: Seq<Call>) -> BridgeState
    decreases calls.len(),
{
    if calls.len() == 0 {
        s
    } else {
        apply(run(s, calls.drop_last()), calls.last())
    }
}

/// Whether a call creates a token under a name that is already the receipt
/// token of an asset: two canonical keys whose digests begin alike.
pub open spec fn collides(s: BridgeState, call: Call) -> bool {
    match call.op {
        Operation::BridgeIn { source_tx_hash, proof_data, receiver } => !s.paused && match s.check_proof(
            proof_data,
            receiver,
        ) {
            Ok(payload) => match s.resolve(payload.asset, call.ctx.current_account_id) {
                Ok((token, created)) => created && s.receipt_to_canonical.contains_key(token),
                Err(_) => false,
            },
            Err(_) => false,
        },
        _ => false,
    }
}

/// Whether no call of a sequence collides.
pub open spec fn collision_free(s: BridgeState, calls: Seq<Call>) -> bool
    decreases calls.len(),
{
    calls.len() == 0 || (collision_free(s, calls.drop_last()) && !collides(
        run(s, calls.drop_last()),
        calls.last(),
    ))
}

/// A proof validates at most once: in the state that has consumed it, it is
/// refused as replayed, for whatever receiver.
pub proof fn law_consumed_proof_is_replayed(
    s: BridgeState,
    proof_data: Seq<u8>,
    receiver: Seq<char>,
)
    ensures
        s.consume(proof_data).check_proof(proof_data, receiver) == Err::<
            crate::types::BridgePayloadView,
            BridgeError,
        >(BridgeError::ReplayedProof),
{
}

/// A proof whose digest is recorded is refused as replayed on a running
/// bridge, whatever else the call says.
pub proof fn law_recorded_proof_is_replayed(
    s: BridgeState,
    ctx: ContextView,
    source_tx_hash: Seq<char>,
    proof_data: Seq<u8>,
    receiver: Seq<char>,
)
    requires
        !s.paused,
        s.processed_proofs.contains(sha256_digest(proof_data)),
    ensures
        s.bridge_in(ctx, source_tx_hash, proof_data, receiver) == Err::<
            (BridgeState, crate::actions::BridgeInEffectView),
            BridgeError,
        >(BridgeError::ReplayedProof),
{
}

/// An accepted transfer consumes a fresh proof: its digest was not
/// recorded before, is recorded after, and no other digest comes or goes.
pub proof fn law_accepted_transfer_consumes_its_proof(
    s: BridgeState,
    ctx: ContextView,
    source_tx_hash: Seq<char>,
    proof_data: Seq<u8>,
    receiver: Seq<char>,
)
    requires
        s.bridge_in(ctx, source_tx_hash, proof_data, receiver) is Ok,
    ensures
        !s.processed_proofs.contains(sha256_digest(proof_data)),
        s.bridge_in(ctx, source_tx_hash, proof_data, receiver)->Ok_0.0.processed_proofs
            == s.processed_proofs.insert(sha256_digest(proof_data)),
{
}

/// An accepted transfer of an asset that is registered leaves the registry
/// as it was, names the registered token in its event, and plans one mint
/// on that token and nothing else.
pub proof fn law_registered_asset_is_only_minted(
    s: BridgeState,
    ctx: ContextView,
    source_tx_hash: Seq<char>,
    proof_data: Seq<u8>,
    receiver: Seq<char>,
)
    requires
        s.bridge_in(ctx, source_tx_hash, proof_data, receiver) is Ok,
        s.canonical_to_receipt.contains_key(
            canonical_key(s.check_proof(proof_data, receiver)->Ok_0.asset),
        ),
    ensures
        ({
            let payload = s.check_proof(proof_data, receiver)->Ok_0;
            let token = s.canonical_to_receipt[canonical_key(payload.asset)];
            let (next, effect) = s.bridge_in(ctx, source_tx_hash, proof_data, receiver)->Ok_0;
            &&& next.canonical_to_receipt == s.canonical_to_receipt
            &&& next.receipt_to_canonical == s.receipt_to_canonical
            &&& effect.event.receipt_token == token
            &&& effect.plan == (CallPlanView {
                first: mint_batch(token, receiver, payload.amount),
                after: None,
            })
        }),
{
}

/// An accepted transfer of an asset that is not registered registers it,
/// both ways, under the account that its canonical key and the bridge's
/// own account give, and under no other.
pub proof fn law_new_asset_is_registered_under_its_name(
    s: BridgeState,
    ctx: ContextView,
    source_tx_hash: Seq<char>,
    proof_data: Seq<u8>,
    receiver: Seq<char>,
)
    requires
        s.bridge_in(ctx, source_tx_hash, proof_data, receiver) is Ok,
        !s.canonical_to_receipt.contains_key(
            canonical_key(s.check_proof(proof_data, receiver)->Ok_0.asset),
        ),
    ensures
        ({
            let payload = s.check_proof(proof_data, receiver)->Ok_0;
            let key = canonical_key(payload.asset);
            let token = token_account_name(key, ctx.current_account_id);
            let (next, effect) = s.bridge_in(ctx, source_tx_hash, proof_data, receiver)->Ok_0;
            &&& s.receipt_token_code.len() > 0
            &&& next.canonical_to_receipt == s.canonical_to_receipt.insert(key, token)
            &&& next.receipt_to_canonical == s.receipt_to_canonical.insert(token, payload.asset)
            &&& effect.event.receipt_token == token
            &&& effect.plan.after == Some(mint_batch(token, receiver, payload.amount))
        }),
{
}

/// The set of consumed proofs only grows: no call takes a digest out.
pub proof fn law_consumed_proofs_grow(s: BridgeState, calls: Seq<Call>)
    ensures
        s.processed_proofs.subset_of(run(s, calls).processed_proofs),
    decreases calls.len(),
{
    if calls.len() > 0 {
        law_consumed_proofs_grow(s, calls.drop_last());
    }
}

/// Once a transfer into the chain has been accepted, the same proof data is
/// refused as replayed after any further calls, unless the bridge is paused,
/// which is reported first.
pub proof fn law_accepted_proof_stays_replayed(
    s: BridgeState,
    ctx: ContextView,
    source_tx_hash: Seq<char>,
    proof_data: Seq<u8>,
    receiver: Seq<char>,
    calls: Seq<Call>,
    later_ctx: ContextView,
    later_tx_hash: Seq<char>,
    later_receiver: Seq<char>,
)
    requires
        s.bridge_in(ctx, source_tx_hash, proof_data, receiver) is Ok,
    ensures
        ({
            let accepted = s.bridge_in(ctx, source_tx_hash, proof_data, receiver)->Ok_0.0;
            let later = run(accepted, calls);
            later.bridge_in(later_ctx, later_tx_hash, proof_data, later_receiver) == Err::<
                (BridgeState, crate::actions::BridgeInEffectView),
                BridgeError,
            >(if later.paused {
                BridgeError::Paused
            } else {
                BridgeError::ReplayedProof
            })
        }),
{
    let accepted = s.bridge_in(ctx, source_tx_hash, proof_data, receiver)->Ok_0.0;
    assert(accepted.processed_proofs.contains(sha256_digest(proof_data)));
    law_consumed_proofs_grow(accepted, calls);
}

/// Resolving is idempotent: once an asset has been resolved, resolving it
/// again gives the same token and creates nothing, under whatever bridge
/// account.
pub proof fn law_resolve_idempotent(
    s: BridgeState,
    asset: CanonicalAssetIdView,
    bridge: Seq<char>,
    bridge_again: Seq<char>,
)
    requires
        s.resolve(asset, bridge) is Ok,
    ensures
        s.resolved(asset, bridge).resolve(asset, bridge_again) == Ok::<
            (Seq<char>, bool),
            BridgeError,
        >((s.resolve(asset, bridge)->Ok_0.0, false)),
        s.resolved(asset, bridge).resolved(asset, bridge_again) == s.resolved(asset, bridge),
{
}

/// Registering an asset under a fresh key and a fresh token keeps the two
/// directions of the registry inverse to each other.
pub proof fn law_register_keeps_registry_consistent(
    s: BridgeState,
    asset: CanonicalAssetIdView,
    token: Seq<char>,
)
    requires
        s.registry_consistent(),
        !s.canonical_to_receipt.contains_key(canonical_key(asset)),
        !s.receipt_to_canonical.contains_key(token),
    ensures
        s.register(asset, token).registry_consistent(),
{
    let next = s.register(asset, token);
    assert forall|key: Seq<char>| #[trigger] next.canonical_to_receipt.contains_key(key) implies {
        let t = next.canonical_to_receipt[key];
        next.receipt_to_canonical.contains_key(t) && canonical_key(next.receipt_to_canonical[t])
            == key
    } by {
        if key != canonical_key(asset) {
            assert(s.canonical_to_receipt.contains_key(key));
        }
    }
    assert forall|t: Seq<char>| #[trigger] next.receipt_to_canonical.contains_key(t) implies {
        let key = canonical_key(next.receipt_to_canonical[t]);
        next.canonical_to_receipt.contains_key(key) && next.canonical_to_receipt[key] == t
    } by {
        if t != token {
            assert(s.receipt_to_canonical.contains_key(t));
        }
    }
}

/// A call that does not collide keeps the registry consistent.
pub proof fn law_call_keeps_registry_consistent(s: BridgeState, call: Call)
    requires
        s.registry_consistent(),
        !collides(s, call),
    ensures
        apply(s, call).registry_consistent(),
{
    match call.op {
        Operation::BridgeIn { source_tx_hash, proof_data, receiver } => {
            if s.bridge_in(call.ctx, source_tx_hash, proof_data, receiver) is Ok {
                let payload = s.check_proof(proof_data, receiver)->Ok_0;
                let resolved = s.resolve(payload.asset, call.ctx.current_account_id)->Ok_0;
                if resolved.1 {
                    law_register_keeps_registry_consistent(
                        s.consume(proof_data),
                        payload.asset,
                        resolved.0,
                    );
                }
            }
        },
        _ => {},
    }
}

/// The two directions of the registry stay inverse to each other through
/// any sequence of calls of which none collides.  A new bridge starts with
/// an empty registry, which is consistent.
pub proof fn law_registry_stays_consistent(s: BridgeState, calls: Seq<Call>)
    requires
        s.registry_consistent(),
        collision_free(s, calls),
    ensures
        run(s, calls).registry_consistent(),
    decreases calls.len(),
{
    if calls.len() > 0 {
        law_registry_stays_consistent(s, calls.drop_last());
        law_call_keeps_registry_consistent(run(s, calls.drop_last()), calls.last());
    }
}

/// The registry of a new bridge is consistent.
pub proof fn law_initial_registry_consistent(
    owner_id: Seq<char>,
    validators: Set<Seq<u8>>,
    deployed_at: u64,
)
    ensures
        BridgeState::initial(owner_id, validators, deployed_at).registry_consistent(),
{
}

/// The token of a canonical key is assigned once: no sequence of calls
/// changes or removes it.
pub proof fn law_assigned_token_never_changes(s: BridgeState, calls: Seq<Call>, key: Seq<char>)
    requires
        s.canonical_to_receipt.contains_key(key),
    ensures
        run(s, calls).canonical_to_receipt.contains_key(key),
        run(s, calls).canonical_to_receipt[key] == s.canonical_to_receipt[key],
    decreases calls.len(),
{
    if calls.len() > 0 {
        law_assigned_token_never_changes(s, calls.drop_last(), key);
    }
}

/// The asset of a receipt token is recorded once: no sequence of calls of
/// which none collides changes or removes it.
pub proof fn law_registered_asset_never_changes(s: BridgeState, calls: Seq<Call>, token: Seq<char>)
    requires
        s.receipt_to_canonical.contains_key(token),
        collision_free(s, calls),
    ensures
        run(s, calls).receipt_to_canonical.contains_key(token),
        run(s, calls).receipt_to_canonical[token] == s.receipt_to_canonical[token],
    decreases calls.len(),
{
    if calls.len() > 0 {
        law_registered_asset_never_changes(s, calls.drop_last(), token);
    }
}

/// Administration is never paused: whether the bridge accepts a change
/// depends on who asks and on nothing else.  The owner is obeyed on a
/// paused bridge too, and anyone else is refused as unauthorized.
pub proof fn law_administration_ignores_pause(
    s: BridgeState,
    ctx: ContextView,
    code: Seq<u8>,
    treasury: Seq<char>,
    paused: bool,
    key: Seq<u8>,
)
    ensures
        s.set_receipt_token_code(ctx, code) is Ok <==> s.is_owner(ctx),
        s.set_treasury(ctx, treasury) is Ok <==> s.is_owner(ctx),
        s.set_paused(ctx, paused) is Ok <==> s.is_owner(ctx),
        s.add_validator(ctx, key) is Ok <==> s.is_owner(ctx),
        s.remove_validator(ctx, key) is Ok <==> s.is_owner(ctx),
        !s.is_owner(ctx) ==> s.set_paused(ctx, paused) == Err::<BridgeState, BridgeError>(
            BridgeError::Unauthorized,
        ),
{
}

/// The committee threshold is two thirds of the committee, rounded down,
/// and one more: at least one, and within the committee unless the
/// committee is empty, where it is one.
pub proof fn law_threshold_bounds(size: nat)
    ensures
        committee_threshold(size) == 2 * size / 3 + 1,
        committee_threshold(size) >= 1,
        size >= 1 ==> committee_threshold(size) <= size,
        committee_threshold(0) == 1,
{
}

/// The trust descriptor is a live view of the committee: once the owner
/// has added a validator that is new, the descriptor reports a committee
/// one larger, with the threshold of that size.
pub proof fn law_route_tracks_validators(
    s: BridgeState,
    ctx: ContextView,
    key: Seq<u8>,
    bridge: Seq<char>,
)
    requires
        s.validators.finite(),
        s.is_owner(ctx),
        !s.validators.contains(key),
    ensures
        s.add_validator(ctx, key) is Ok,
        s.add_validator(ctx, key)->Ok_0.route(bridge).security_model
            == (crate::types::SecurityModelView::Committee {
            threshold: committee_threshold(s.validators.len() + 1) as u64,
            size: (s.validators.len() + 1) as u64,
        }),
{
}

/// The deployment time is that of the bridge's making: no sequence of calls
/// changes it, so the trust descriptor reports the same time whenever it is
/// asked, and differs between two queries only as the validator set does.
pub proof fn law_deployment_time_is_fixed(s: BridgeState, calls: Seq<Call>, bridge: Seq<char>)
    ensures
        run(s, calls).deployed_at == s.deployed_at,
        run(s, calls).route(bridge).deployed_at == s.route(bridge).deployed_at,
        run(s, calls).validators == s.validators ==> run(s, calls).route(bridge) == s.route(bridge),
    decreases calls.len(),
{
    if calls.len() > 0 {
        law_deployment_time_is_fixed(s, calls.drop_last(), bridge);
    }
}

/// A chain name that identifies this chain begins with `near`.
pub proof fn law_this_chain_begins_with_near(chain: Seq<char>)
    requires
        identifies_this_chain(chain),
    ensures
        chain.len() >= 4,
        chain.subrange(0, 4) == "near"@,
{
    reveal_strlit("near");
    reveal_strlit("near:");
    if chain == "near"@ {
        assert(chain.subrange(0, 4) =~= chain);
    } else {
        assert(chain.subrange(0, 4) =~= chain.subrange(0, 5).subrange(0, 4));
        assert("near:"@.subrange(0, 4) =~= "near"@);
    }
}

/// A payload addressed to another chain is refused, provided the earlier
/// checks pass, and the call leaves the state as it was.  A chain name
/// identifies this chain if it is `near` or begins with `near:`.
pub proof fn law_wrong_target_chain(
    s: BridgeState,
    ctx: ContextView,
    source_tx_hash: Seq<char>,
    proof_data: Seq<u8>,
    receiver: Seq<char>,
)
    requires
        !s.paused,
        !s.processed_proofs.contains(sha256_digest(proof_data)),
        decode_payload_spec(proof_data) matches Some(payload) && !identifies_this_chain(
            payload.target_chain,
        ),
    ensures
        s.bridge_in(ctx, source_tx_hash, proof_data, receiver) == Err::<
            (BridgeState, crate::actions::BridgeInEffectView),
            BridgeError,
        >(BridgeError::WrongTargetChain),
        apply(s, Call { ctx, op: Operation::BridgeIn { source_tx_hash, proof_data, receiver } })
            == s,
{
}

/// On a bridge that is not paused, an outbound transfer is refused for its
/// fee exactly when less than the bridge fee is attached.  (A paused bridge
/// refuses every transfer as paused.)
pub proof fn law_insufficient_fee(
    s: BridgeState,
    ctx: ContextView,
    token: Seq<char>,
    amount: u128,
    destination_chain: Seq<char>,
    destination_address: Seq<char>,
)
    requires
        !s.paused,
    ensures
        s.bridge_out(ctx, token, amount, destination_chain, destination_address) == Err::<
            crate::actions::BridgeOutEffectView,
            BridgeError,
        >(BridgeError::InsufficientFee) <==> ctx.attached_deposit < BRIDGE_FEE,
{
}

/// An accepted outbound transfer pays the whole attached payment to the
/// treasury, not only the fee.
pub proof fn law_whole_payment_reaches_treasury(
    s: BridgeState,
    ctx: ContextView,
    token: Seq<char>,
    amount: u128,
    destination_chain: Seq<char>,
    destination_address: Seq<char>,
)
    requires
        s.bridge_out(ctx, token, amount, destination_chain, destination_address) is Ok,
    ensures
        s.bridge_out(
            ctx,
            token,
            amount,
            destination_chain,
            destination_address,
        )->Ok_0.treasury_payment == transfer_batch(s.treasury, ctx.attached_deposit),
        ctx.attached_deposit >= BRIDGE_FEE,
{
}

/// A transfer into the chain whose payload names another receiver than the
/// one declared is refused as a receiver mismatch, provided the earlier
/// checks pass, and the call leaves the state as it was.
pub proof fn law_receiver_mismatch(
    s: BridgeState,
    ctx: ContextView,
    source_tx_hash: Seq<char>,
    proof_data: Seq<u8>,
    receiver: Seq<char>,
)
    requires
        !s.paused,
        !s.processed_proofs.contains(sha256_digest(proof_data)),
        decode_payload_spec(proof_data) matches Some(payload) && identifies_this_chain(
            payload.target_chain,
        ) && payload.receiver != receiver,
    ensures
        s.bridge_in(ctx, source_tx_hash, proof_data, receiver) == Err::<
            (BridgeState, crate::actions::BridgeInEffectView),
            BridgeError,
        >(BridgeError::ReceiverMismatch),
        apply(s, Call { ctx, op: Operation::BridgeIn { source_tx_hash, proof_data, receiver } })
            == s,
{
}

} // verus!
