//! The messenger: numbered messages between chains.
//!
//! Outbound messages to a chain are numbered from one, each one more than
//! the last.  Inbound messages from a chain are accepted only in that order.

use crate::account::AccountId;
use crate::actions::{ActionBatch, ActionBatchView};
use crate::bridge::{key_set, CallContext};
use crate::codec::{decode_message, decode_message_spec};
use crate::collections::{map_of, ByteStringSet, StringMap};
use crate::hashing::{sha256, sha256_digest};
use crate::interface::XChainMessaging;
use crate::model::ContextView;
use crate::types::{BridgeProof, ChainId, ValidatorKey};
use vstd::prelude::*;

verus! {

/// Why the messenger refused an operation.
#[derive(Debug, Clone, Copy, PartialEq, Eq, Structural)]
pub enum MessagingError {
    /// The messenger is paused.
    Paused,
    /// The caller is not the owner.
    Unauthorized,
    /// The proof data is not a well-formed message.
    DecodeFailure,
    /// The message is not the next one from its source chain.
    InvalidNonce,
    /// Every number for the destination chain has been used.
    NonceExhausted,
}

impl MessagingError {
    /// The reason in words.
    pub open spec fn message_text(self) -> Seq<char> {
        match self {
            MessagingError::Paused => "Messenger is paused"@,
            MessagingError::Unauthorized => "Unauthorized"@,
            MessagingError::DecodeFailure => "Failed to deserialize XChainMessage"@,
            MessagingError::InvalidNonce => "Invalid nonce"@,
            MessagingError::NonceExhausted => "Nonce exhausted"@,
        }
    }

    /// The reason in words.
    pub fn message(&self) -> (m: &'static str)
        ensures
            m@ == self.message_text(),
    {
        match self {
            MessagingError::Paused => "Messenger is paused",
            MessagingError::Unauthorized => "Unauthorized",
            MessagingError::DecodeFailure => "Failed to deserialize XChainMessage",
            MessagingError::InvalidNonce => "Invalid nonce",
            MessagingError::NonceExhausted => "Nonce exhausted",
        }
    }
}

/// Published when a message has been sent.
#[derive(Debug, PartialEq, Eq)]
pub struct SendMessageEvent {
    pub destination_chain: String,
    pub destination_contract: String,
    pub nonce: u128,
    pub sender: AccountId,
    pub payload_hash: Vec<u8>,
}

/// The mathematical view of [`SendMessageEvent`].
pub struct SendMessageEventView {
    pub destination_chain: Seq<char>,
    pub destination_contract: Seq<char>,
    pub nonce: u128,
    pub sender: Seq<char>,
    pub payload_hash: Seq<u8>,
}

impl View for SendMessageEvent {
    type V = SendMessageEventView;

    open spec fn view(&self) -> SendMessageEventView {
        SendMessageEventView {
            destination_chain: self.destination_chain@,
            destination_contract: self.destination_contract@,
            nonce: self.nonce,
            sender: self.sender@,
            payload_hash: self.payload_hash@,
        }
    }
}

/// What a sent message asks of the host: the event to publish, and an empty
/// batch on the messenger's own account as the handle of the call.
#[derive(Debug, PartialEq, Eq)]
pub struct SendMessageEffect {
    pub event: SendMessageEvent,
    pub handle: ActionBatch,
}

/// The mathematical view of [`SendMessageEffect`].
pub struct SendMessageEffectView {
    pub event: SendMessageEventView,
    pub handle: ActionBatchView,
}

impl View for SendMessageEffect {
    type V = SendMessageEffectView;

    open spec fn view(&self) -> SendMessageEffectView {
        SendMessageEffectView { event: self.event@, handle: self.handle@ }
    }
}

/// Published when a message has been accepted.
#[derive(Debug, PartialEq, Eq)]
pub struct ReceiveMessageEvent {
    pub source_chain: String,
    pub source_contract: String,
    pub nonce: u128,
    pub destination_contract: String,
    pub payload_hash: Vec<u8>,
}

/// The mathematical view of [`ReceiveMessageEvent`].
pub struct ReceiveMessageEventView {
    pub source_chain: Seq<char>,
    pub source_contract: Seq<char>,
    pub nonce: u128,
    pub destination_contract: Seq<char>,
    pub payload_hash: Seq<u8>,
}

impl View for ReceiveMessageEvent {
    type V = ReceiveMessageEventView;

    open spec fn view(&self) -> ReceiveMessageEventView {
        ReceiveMessageEventView {
            source_chain: self.source_chain@,
            source_contract: self.source_contract@,
            nonce: self.nonce,
            destination_contract: self.destination_contract@,
            payload_hash: self.payload_hash@,
        }
    }
}

/// The last number used for a chain; zero if none was.
pub open spec fn last_nonce(nonces: Map<Seq<char>, u128>, chain: Seq<char>) -> u128 {
    if nonces.contains_key(chain) {
        nonces[chain]
    } else {
        0
    }
}

/// The state of a messenger.
pub struct MessengerState {
    pub owner_id: Seq<char>,
    pub validators: Set<Seq<u8>>,
    pub processed_nonces: Map<Seq<char>, u128>,
    pub destination_nonces: Map<Seq<char>, u128>,
    pub paused: bool,
}

impl MessengerState {
    /// A new messenger: no message sent or accepted, not paused.
    pub open spec fn initial(owner_id: Seq<char>, validators: Set<Seq<u8>>) -> MessengerState {
        MessengerState {
            owner_id,
            validators,
            processed_nonces: Map::empty(),
            destination_nonces: Map::empty(),
            paused: false,
        }
    }

    /// An owner-only change: `next` for the owner, `Unauthorized` for anyone
    /// else.
    pub open spec fn owner_only(self, ctx: ContextView, next: MessengerState) -> Result<
        MessengerState,
        MessagingError,
    > {
        if ctx.predecessor_account_id == self.owner_id {
            Ok(next)
        } else {
            Err(MessagingError::Unauthorized)
        }
    }

    /// Sending a message: it gets the number after the last one used for its
    /// destination chain.
    pub open spec fn send(
        self,
        ctx: ContextView,
        destination_chain: Seq<char>,
        destination_contract: Seq<char>,
        payload: Seq<u8>,
    ) -> Result<(MessengerState, SendMessageEffectView), MessagingError> {
        let last = last_nonce(self.destination_nonces, destination_chain);
        if self.paused {
            Err(MessagingError::Paused)
        } else if last == u128::MAX {
            Err(MessagingError::NonceExhausted)
        } else {
            let nonce = (last + 1) as u128;
            Ok(
                (
                    MessengerState {
                        destination_nonces: self.destination_nonces.insert(
                            destination_chain,
                            nonce,
                        ),
                        ..self
                    },
                    SendMessageEffectView {
                        event: SendMessageEventView {
                            destination_chain,
                            destination_contract,
                            nonce,
                            sender: ctx.predecessor_account_id,
                            payload_hash: sha256_digest(payload),
                        },
                        handle: ActionBatchView {
                            receiver_id: ctx.current_account_id,
                            actions: Seq::empty(),
                        },
                    },
                ),
            )
        }
    }

    /// Accepting a message: it must decode and carry the number after the
    /// last one accepted from its source chain.
    pub open spec fn receive(self, proof_data: Seq<u8>) -> Result<
        (MessengerState, ReceiveMessageEventView),
        MessagingError,
    > {
        if self.paused {
            Err(MessagingError::Paused)
        } else {
            match decode_message_spec(proof_data) {
                None => Err(MessagingError::DecodeFailure),
                Some(message) => if message.nonce != last_nonce(
                    self.processed_nonces,
                    message.source_chain,
                ) + 1 {
                    Err(MessagingError::InvalidNonce)
                } else {
                    Ok(
                        (
                            MessengerState {
                                processed_nonces: self.processed_nonces.insert(
                                    message.source_chain,
                                    message.nonce,
                                ),
                                ..self
                            },
                            ReceiveMessageEventView {
                                source_chain: message.source_chain,
                                source_contract: message.source_contract,
                                nonce: message.nonce,
                                destination_contract: message.destination_contract,
                                payload_hash: sha256_digest(message.payload),
                            },
                        ),
                    )
                },
            }
        }
    }
}

/// A message that has been accepted is refused when it comes again: its
/// number is no longer the next one.
pub proof fn law_accepted_message_is_refused_again(s: MessengerState, proof_data: Seq<u8>)
    requires
        s.receive(proof_data) is Ok,
    ensures
        s.receive(proof_data)->Ok_0.0.receive(proof_data) == Err::<
            (MessengerState, ReceiveMessageEventView),
            MessagingError,
        >(MessagingError::InvalidNonce),
{
}

/// Messages sent to one chain are numbered one after the other, and sending
/// to one chain leaves the numbers of the others alone.
pub proof fn law_outbound_numbers_count_up(
    s: MessengerState,
    ctx: ContextView,
    destination_chain: Seq<char>,
    destination_contract: Seq<char>,
    payload: Seq<u8>,
    other_chain: Seq<char>,
)
    requires
        s.send(ctx, destination_chain, destination_contract, payload) is Ok,
        other_chain != destination_chain,
    ensures
        ({
            let (next, effect) = s.send(ctx, destination_chain, destination_contract, payload)->Ok_0;
            &&& effect.event.nonce == last_nonce(s.destination_nonces, destination_chain) + 1
            &&& last_nonce(next.destination_nonces, destination_chain) == effect.event.nonce
            &&& last_nonce(next.destination_nonces, other_chain) == last_nonce(
                s.destination_nonces,
                other_chain,
            )
        }),
{
}

/// The whole state of a messenger as plain lists, for keeping it between
/// calls.  In a list of bindings the first binding of a key counts.
#[derive(Debug, PartialEq, Eq)]
pub struct MessengerSnapshot {
    pub owner_id: AccountId,
    pub validators: Vec<ValidatorKey>,
    pub processed_nonces: Vec<(String, u128)>,
    pub destination_nonces: Vec<(String, u128)>,
    pub paused: bool,
}

impl View for MessengerSnapshot {
    type V = MessengerState;

    open spec fn view(&self) -> MessengerState {
        MessengerState {
            owner_id: self.owner_id@,
            validators: key_set(self.validators@),
            processed_nonces: map_of(self.processed_nonces@),
            destination_nonces: map_of(self.destination_nonces@),
            paused: self.paused,
        }
    }
}

/// A messenger.
#[derive(Debug)]
pub struct XChainMessenger {
    owner_id: AccountId,
    validators: ByteStringSet,
    processed_nonces: StringMap<u128>,
    destination_nonces: StringMap<u128>,
    paused: bool,
}

impl View for XChainMessenger {
    type V = MessengerState;

    closed spec fn view(&self) -> MessengerState {
        MessengerState {
            owner_id: self.owner_id@,
            validators: self.validators@,
            processed_nonces: self.processed_nonces@,
            destination_nonces: self.destination_nonces@,
            paused: self.paused,
        }
    }
}

impl XChainMessenger {
    /// A new messenger owned by `owner_id`, with the given validators.
    pub fn new(owner_id: AccountId, initial_validators: Vec<ValidatorKey>) -> (messenger: Self)
        ensures
            messenger@ == MessengerState::initial(owner_id@, key_set(initial_validators@)),
    {
        XChainMessenger {
            owner_id,
            validators: ByteStringSet::from_keys(&initial_validators),
            processed_nonces: StringMap::new(),
            destination_nonces: StringMap::new(),
            paused: false,
        }
    }

    /// The state of the messenger as plain lists.
    pub fn snapshot(&self) -> (s: MessengerSnapshot)
        ensures
            s@ == self@,
    {
        let processed_nonces = self.processed_nonces.to_entries();
        let destination_nonces = self.destination_nonces.to_entries();
        proof {
            self.processed_nonces.lemma_entries_model(processed_nonces@);
            self.destination_nonces.lemma_entries_model(destination_nonces@);
        }
        MessengerSnapshot {
            owner_id: self.owner_id.clone(),
            validators: self.validators.to_vec(),
            processed_nonces,
            destination_nonces,
            paused: self.paused,
        }
    }

    /// The messenger in the state that a snapshot records.
    pub fn restore(s: MessengerSnapshot) -> (messenger: Self)
        ensures
            messenger@ == s@,
    {
        XChainMessenger {
            owner_id: s.owner_id,
            validators: ByteStringSet::from_keys(&s.validators),
            processed_nonces: StringMap::from_entries(s.processed_nonces),
            destination_nonces: StringMap::from_entries(s.destination_nonces),
            paused: s.paused,
        }
    }

    /// Whether the caller is the owner.
    fn check_owner(&self, ctx: &CallContext) -> (r: Result<(), MessagingError>)
        ensures
            ctx@.predecessor_account_id == self@.owner_id ==> r is Ok,
            ctx@.predecessor_account_id != self@.owner_id ==> r == Err::<(), MessagingError>(
                MessagingError::Unauthorized,
            ),
    {
        if ctx.predecessor_account_id.equals(&self.owner_id) {
            Ok(())
        } else {
            Err(MessagingError::Unauthorized)
        }
    }

    /// Pauses or resumes messaging.  Owner only.
    pub fn set_paused(&mut self, ctx: &CallContext, paused: bool) -> (r: Result<(), MessagingError>)
        ensures
            match r {
                Ok(()) => old(self)@.owner_only(ctx@, MessengerState { paused, ..old(self)@ })
                    == Ok::<MessengerState, MessagingError>(final(self)@),
                Err(e) => old(self)@.owner_only(ctx@, MessengerState { paused, ..old(self)@ })
                    == Err::<MessengerState, MessagingError>(e) && final(self)@ == old(self)@,
            },
    {
        match self.check_owner(ctx) {
            Ok(()) => {
                self.paused = paused;
                Ok(())
            },
            Err(e) => Err(e),
        }
    }

    /// Whether messaging is paused.
    pub fn is_paused(&self) -> (r: bool)
        ensures
            r == self@.paused,
    {
        self.paused
    }

    /// Admits a validator.  Owner only.
    pub fn add_validator(&mut self, ctx: &CallContext, pk: ValidatorKey) -> (r: Result<
        (),
        MessagingError,
    >)
        ensures
            match r {
                Ok(()) => old(self)@.owner_only(
                    ctx@,
                    MessengerState {
                        validators: old(self)@.validators.insert(pk@),
                        ..old(self)@
                    },
                ) == Ok::<MessengerState, MessagingError>(final(self)@),
                Err(e) => e == MessagingError::Unauthorized && ctx@.predecessor_account_id != old(self)@.owner_id && final(self)@ == old(self)@,
            },
    {
        match self.check_owner(ctx) {
            Ok(()) => {
                self.validators.insert(pk);
                Ok(())
            },
            Err(e) => Err(e),
        }
    }

    /// Dismisses a validator.  Owner only.
    pub fn remove_validator(&mut self, ctx: &CallContext, pk: ValidatorKey) -> (r: Result<
        (),
        MessagingError,
    >)
        ensures
            match r {
                Ok(()) => old(self)@.owner_only(
                    ctx@,
                    MessengerState {
                        validators: old(self)@.validators.remove(pk@),
                        ..old(self)@
                    },
                ) == Ok::<MessengerState, MessagingError>(final(self)@),
                Err(e) => e == MessagingError::Unauthorized && ctx@.predecessor_account_id != old(self)@.owner_id && final(self)@ == old(self)@,
            },
    {
        match self.check_owner(ctx) {
            Ok(()) => {
                self.validators.remove(pk.as_slice());
                Ok(())
            },
            Err(e) => Err(e),
        }
    }
}

impl XChainMessaging for XChainMessenger {
    /// Sends a message: numbers it and publishes it.
    fn send_message(
        &mut self,
        ctx: &CallContext,
        destination_chain: ChainId,
        destination_contract: String,
        payload: Vec<u8>,
    ) -> (r: Result<SendMessageEffect, MessagingError>)
        ensures
            match r {
                Ok(effect) => old(self)@.send(
                    ctx@,
                    destination_chain@,
                    destination_contract@,
                    payload@,
                ) == Ok::<(MessengerState, SendMessageEffectView), MessagingError>(
                    (final(self)@, effect@),
                ),
                Err(e) => old(self)@.send(
                    ctx@,
                    destination_chain@,
                    destination_contract@,
                    payload@,
                ) == Err::<(MessengerState, SendMessageEffectView), MessagingError>(e) && final(self)@ == old(self)@,
            },
    {
        if self.paused {
            return Err(MessagingError::Paused);
        }
        let last: u128 = match self.destination_nonces.get(destination_chain.as_str()) {
            Some(n) => *n,
            None => 0,
        };
        if last == u128::MAX {
            return Err(MessagingError::NonceExhausted);
        }
        let nonce: u128 = last + 1;
        self.destination_nonces.insert(destination_chain.clone(), nonce);
        let payload_hash = sha256(payload.as_slice());
        let handle = ActionBatch { receiver_id: ctx.current_account_id.clone(), actions: Vec::new() };
        assert(handle@.actions =~= Seq::empty());
        Ok(
            SendMessageEffect {
                event: SendMessageEvent {
                    destination_chain,
                    destination_contract,
                    nonce,
                    sender: ctx.predecessor_account_id.clone(),
                    payload_hash,
                },
                handle,
            },
        )
    }

    /// Accepts a message if it is the next one from its source chain.
    fn receive_message(&mut self, proof: BridgeProof) -> (r: Result<
        ReceiveMessageEvent,
        MessagingError,
    >)
        ensures
            match r {
                Ok(event) => old(self)@.receive(proof.proof_data@) == Ok::<
                    (MessengerState, ReceiveMessageEventView),
                    MessagingError,
                >((final(self)@, event@)),
                Err(e) => old(self)@.receive(proof.proof_data@) == Err::<
                    (MessengerState, ReceiveMessageEventView),
                    MessagingError,
                >(e) && final(self)@ == old(self)@,
            },
    {
        if self.paused {
            return Err(MessagingError::Paused);
        }
        let message = match decode_message(proof.proof_data.as_slice()) {
            Some(message) => message,
            None => {
                return Err(MessagingError::DecodeFailure);
            },
        };
        let last: u128 = match self.processed_nonces.get(message.source_chain.as_str()) {
            Some(n) => *n,
            None => 0,
        };
        if last == u128::MAX || message.nonce != last + 1 {
            return Err(MessagingError::InvalidNonce);
        }
        self.processed_nonces.insert(message.source_chain.clone(), message.nonce);
        let payload_hash = sha256(message.payload.as_slice());
        Ok(
            ReceiveMessageEvent {
                source_chain: message.source_chain,
                source_contract: message.source_contract,
                nonce: message.nonce,
                destination_contract: message.destination_contract,
                payload_hash,
            },
        )
    }
}

} // verus!
