use near_sdk::borsh;
use xchain_bridge::account::AccountId;
use xchain_bridge::bridge::CallContext;
use xchain_bridge::interface::XChainMessaging;
use xchain_bridge::messaging::{MessagingError, XChainMessenger};
use xchain_bridge::types::BridgeProof;

fn account(name: &str) -> AccountId {
    AccountId::parse(name).expect("valid account id")
}

fn ctx(caller: &str) -> CallContext {
    CallContext {
        current_account_id: account("messenger.near"),
        predecessor_account_id: account(caller),
        attached_deposit: 0,
        block_timestamp: 0,
    }
}

fn message_proof(nonce: u128, source_chain: &str) -> BridgeProof {
    let mut data = borsh::to_vec(&nonce).unwrap();
    for field in [source_chain, "near", "0x1234", "app.near"] {
        data.extend(borsh::to_vec(&field.to_string()).unwrap());
    }
    data.extend(borsh::to_vec(&vec![1u8, 2, 3]).unwrap());
    BridgeProof { source_tx_hash: "0x01".to_string(), proof_data: data, block_height: 1 }
}

#[test]
fn test_messaging_contract() {
    let mut messenger = XChainMessenger::new(account("owner.near"), vec![]);
    let effect = messenger
        .send_message(
            &ctx("alice.near"),
            "ethereum:1".to_string(),
            "0x1234567890abcdef".to_string(),
            vec![1, 2, 3, 4, 5],
        )
        .expect("send_message accepted");
    assert_eq!(effect.event.destination_chain, "ethereum:1");
    assert_eq!(effect.event.destination_contract, "0x1234567890abcdef");
    assert_eq!(effect.event.nonce, 1);
    assert_eq!(effect.event.sender, account("alice.near"));
    assert_eq!(effect.event.payload_hash, near_sdk::env::sha256([1u8, 2, 3, 4, 5]));
    assert_eq!(effect.event.payload_hash.len(), 32);
    assert_eq!(effect.handle.receiver_id, account("messenger.near"));
    assert!(effect.handle.actions.is_empty());
}

#[test]
fn outbound_messages_are_numbered_per_chain() {
    let mut messenger = XChainMessenger::new(account("owner.near"), vec![]);
    let mut send = |chain: &str| {
        messenger
            .send_message(&ctx("alice.near"), chain.to_string(), "c".to_string(), vec![])
            .unwrap()
            .event
            .nonce
    };
    assert_eq!(send("ethereum:1"), 1);
    assert_eq!(send("ethereum:1"), 2);
    assert_eq!(send("solana:1"), 1);
    assert_eq!(send("ethereum:1"), 3);
    assert_eq!(send("solana:1"), 2);
}

#[test]
fn inbound_messages_come_in_order() {
    let mut messenger = XChainMessenger::new(account("owner.near"), vec![]);
    assert_eq!(
        messenger.receive_message(message_proof(2, "ethereum:1")),
        Err(MessagingError::InvalidNonce)
    );
    assert_eq!(
        messenger.receive_message(message_proof(0, "ethereum:1")),
        Err(MessagingError::InvalidNonce)
    );
    let event = messenger.receive_message(message_proof(1, "ethereum:1")).unwrap();
    assert_eq!(event.source_chain, "ethereum:1");
    assert_eq!(event.source_contract, "0x1234");
    assert_eq!(event.destination_contract, "app.near");
    assert_eq!(event.nonce, 1);
    assert_eq!(event.payload_hash, near_sdk::env::sha256([1u8, 2, 3]));
    assert_eq!(
        messenger.receive_message(message_proof(1, "ethereum:1")),
        Err(MessagingError::InvalidNonce)
    );
    assert!(messenger.receive_message(message_proof(1, "solana:1")).is_ok());
    assert!(messenger.receive_message(message_proof(2, "ethereum:1")).is_ok());
    let garbage = BridgeProof {
        source_tx_hash: String::new(),
        proof_data: vec![1, 2, 3],
        block_height: 0,
    };
    assert_eq!(messenger.receive_message(garbage), Err(MessagingError::DecodeFailure));
}

#[test]
fn a_paused_messenger_refuses_messages() {
    let mut messenger = XChainMessenger::new(account("owner.near"), vec![vec![1]]);
    assert!(!messenger.is_paused());
    assert_eq!(messenger.set_paused(&ctx("alice.near"), true), Err(MessagingError::Unauthorized));
    assert_eq!(messenger.add_validator(&ctx("alice.near"), vec![2]), Err(MessagingError::Unauthorized));
    assert_eq!(
        messenger.remove_validator(&ctx("alice.near"), vec![1]),
        Err(MessagingError::Unauthorized)
    );
    assert!(!messenger.is_paused());
    messenger.set_paused(&ctx("owner.near"), true).unwrap();
    assert!(messenger.is_paused());
    assert_eq!(
        messenger.send_message(&ctx("alice.near"), "c".to_string(), "d".to_string(), vec![]),
        Err(MessagingError::Paused)
    );
    assert_eq!(
        messenger.receive_message(message_proof(1, "ethereum:1")),
        Err(MessagingError::Paused)
    );
    assert!(messenger.add_validator(&ctx("owner.near"), vec![2]).is_ok());
    assert!(messenger.remove_validator(&ctx("owner.near"), vec![1]).is_ok());
    messenger.set_paused(&ctx("owner.near"), false).unwrap();
    assert!(messenger.receive_message(message_proof(1, "ethereum:1")).is_ok());
}
