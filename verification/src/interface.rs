//! The interfaces of the three parties: the bridge, a receipt token, and the
//! messenger.

use crate::account::AccountId;
use crate::actions::{BridgeInEffect, BridgeOutEffect};
use crate::bridge::CallContext;
use crate::messaging::{MessagingError, ReceiveMessageEvent, SendMessageEffect};
use crate::model::BridgeError;
use crate::naming::MAX_BRIDGE_ID_LEN;
use crate::types::{
    BridgeDirection, BridgeProof, BridgeRoute, CanonicalAssetId, ChainId, ReceiptTokenMetadata,
    ValidatorKey,
};
use vstd::prelude::*;

verus! {

/// What a bridge offers.
pub trait XChainCore {
    /// Whether this transfer into the chain names a new token account
    /// under the bridge's own.
    spec fn names_new_token(
        &self,
        ctx: &CallContext,
        proof: &BridgeProof,
        receiver_id: &AccountId,
    ) -> bool;

    /// Accepts a transfer into this chain.  Where the transfer names a new
    /// token account, the account the bridge runs as must leave room for
    /// the label of the token account under it.
    fn bridge_in(&mut self, ctx: &CallContext, proof: BridgeProof, receiver_id: AccountId) -> Result<
        BridgeInEffect,
        BridgeError,
    >
        requires
            old(self).names_new_token(ctx, &proof, &receiver_id) ==> ctx.current_account_id@.len()
                <= MAX_BRIDGE_ID_LEN,
    ;

    /// Accepts a transfer out of this chain.
    fn bridge_out(
        &mut self,
        ctx: &CallContext,
        token_id: AccountId,
        amount: u128,
        destination_chain: ChainId,
        destination_address: String,
    ) -> Result<BridgeOutEffect, BridgeError>;

    /// The asset behind a receipt token.
    fn get_canonical_asset(&self, token_id: AccountId) -> Option<CanonicalAssetId>;

    /// The trust descriptor of the bridge, running as `current_account_id`.
    fn get_bridge_route(&self, current_account_id: &AccountId) -> BridgeRoute;

    /// The fee of a transfer.
    fn estimate_fee(
        &self,
        direction: BridgeDirection,
        asset: Option<CanonicalAssetId>,
        amount: u128,
    ) -> u128;

    /// Pauses or resumes bridging.
    fn set_paused(&mut self, ctx: &CallContext, paused: bool) -> Result<(), BridgeError>;

    /// Whether bridging is paused.
    fn is_paused(&self) -> bool;

    /// Admits a validator.
    fn add_validator(&mut self, ctx: &CallContext, public_key: ValidatorKey) -> Result<
        (),
        BridgeError,
    >;

    /// Dismisses a validator.
    fn remove_validator(&mut self, ctx: &CallContext, public_key: ValidatorKey) -> Result<
        (),
        BridgeError,
    >;
}

/// What a receipt token tells about itself.
pub trait XChainReceiptToken {
    /// The metadata recorded when the token was created.
    fn xc_metadata(&self) -> ReceiptTokenMetadata;

    /// Whether the token can be bridged to `chain_id`.
    fn xc_is_bridgeable_to(&self, chain_id: ChainId) -> bool;

    /// The amount locked on the source chain when the token was created.
    fn xc_total_locked(&self) -> u128;
}

/// What a messenger offers.
pub trait XChainMessaging {
    /// Sends a message to a contract on another chain.
    fn send_message(
        &mut self,
        ctx: &CallContext,
        destination_chain: ChainId,
        destination_contract: String,
        payload: Vec<u8>,
    ) -> Result<SendMessageEffect, MessagingError>;

    /// Accepts a message from another chain.
    fn receive_message(&mut self, proof: BridgeProof) -> Result<
        ReceiveMessageEvent,
        MessagingError,
    >;
}

} // verus!
