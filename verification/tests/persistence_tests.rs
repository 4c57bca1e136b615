use near_sdk::borsh;
use xchain_bridge::account::AccountId;
use xchain_bridge::bridge::{BridgeSnapshot, CallContext, XChainBridge};
use xchain_bridge::interface::{XChainCore, XChainMessaging};
use xchain_bridge::messaging::{MessagingError, MessengerSnapshot, XChainMessenger};
use xchain_bridge::model::BridgeError;
use xchain_bridge::types::{AssetStandard, BridgeProof, CanonicalAssetId};

fn account(name: &str) -> AccountId {
    AccountId::parse(name).expect("valid account id")
}

fn ctx(caller: &str) -> CallContext {
    CallContext {
        current_account_id: account("bridge.near"),
        predecessor_account_id: account(caller),
        attached_deposit: 0,
        block_timestamp: 5,
    }
}

fn dai() -> CanonicalAssetId {
    CanonicalAssetId {
        source_chain_id: "ethereum:1".to_string(),
        source_contract: "0x6B17".to_string(),
        asset_standard: AssetStandard::ERC20,
    }
}

fn dai_proof(nonce: u128) -> BridgeProof {
    let mut data = borsh::to_vec(&nonce).unwrap();
    for field in ["ethereum:1", "near", "ethereum:1", "0x6B17"] {
        data.extend(borsh::to_vec(&field.to_string()).unwrap());
    }
    data.push(1);
    data.extend(borsh::to_vec(&77u128).unwrap());
    data.extend(borsh::to_vec(&"alice.near".to_string()).unwrap());
    data.extend(borsh::to_vec(&"0x01".to_string()).unwrap());
    BridgeProof { source_tx_hash: "0x01".to_string(), proof_data: data, block_height: 9 }
}

#[test]
fn a_bridge_comes_back_from_its_snapshot() {
    let owner = ctx("owner.near");
    let mut bridge = XChainBridge::new(&owner, account("owner.near"), vec![vec![1], vec![2]]);
    bridge.set_receipt_token_code(&owner, vec![7, 7]).unwrap();
    bridge.set_treasury(&owner, account("vault.near")).unwrap();
    let effect = bridge.bridge_in(&ctx("relayer.near"), dai_proof(1), account("alice.near")).unwrap();
    let token = effect.event.receipt_token;

    let snapshot = bridge.snapshot();
    assert_eq!(snapshot.receipt_token_code, vec![7, 7]);
    assert_eq!(snapshot.canonical_to_receipt, vec![("ethereum:1:0x6B17:ERC20".to_string(), token.clone())]);
    assert_eq!(snapshot.receipt_to_canonical, vec![(token.to_string(), dai())]);
    assert_eq!(snapshot.processed_proofs, vec![near_sdk::env::sha256(&dai_proof(1).proof_data)]);
    assert_eq!(snapshot.owner_id, account("owner.near"));
    assert_eq!(snapshot.validators, vec![vec![1], vec![2]]);
    assert!(!snapshot.paused);
    assert_eq!(snapshot.treasury, account("vault.near"));
    assert_eq!(snapshot.deployed_at, 5);

    let mut restored = XChainBridge::restore(snapshot);
    assert_eq!(restored.snapshot(), bridge.snapshot());
    assert_eq!(restored.validator_count(), 2);
    assert_eq!(restored.get_canonical_asset(token.clone()), Some(dai()));
    assert_eq!(restored.get_receipt_token(&dai()), Some(token));
    assert_eq!(
        restored.bridge_in(&ctx("relayer.near"), dai_proof(1), account("alice.near")),
        Err(BridgeError::ReplayedProof)
    );
    assert!(restored.bridge_in(&ctx("relayer.near"), dai_proof(2), account("alice.near")).is_ok());
}

#[test]
fn the_first_binding_of_a_snapshot_counts() {
    let snapshot = BridgeSnapshot {
        receipt_token_code: vec![],
        canonical_to_receipt: vec![
            ("k".to_string(), account("first.near")),
            ("k".to_string(), account("second.near")),
        ],
        receipt_to_canonical: vec![],
        processed_proofs: vec![vec![1], vec![1]],
        owner_id: account("owner.near"),
        validators: vec![vec![3], vec![3], vec![4]],
        paused: true,
        treasury: account("owner.near"),
        deployed_at: 11,
    };
    let bridge = XChainBridge::restore(snapshot);
    let again = bridge.snapshot();
    assert_eq!(again.canonical_to_receipt, vec![("k".to_string(), account("first.near"))]);
    assert_eq!(bridge.consumed_count(), 1);
    assert_eq!(bridge.validator_count(), 2);
    assert!(bridge.is_paused());
    assert_eq!(bridge.get_bridge_route(&account("bridge.near")).deployed_at, 11);
}

#[test]
fn a_messenger_comes_back_from_its_snapshot() {
    let mut messenger = XChainMessenger::new(account("owner.near"), vec![vec![1]]);
    messenger.send_message(&ctx("alice.near"), "ethereum:1".to_string(), "c".to_string(), vec![]).unwrap();
    messenger.send_message(&ctx("alice.near"), "ethereum:1".to_string(), "c".to_string(), vec![]).unwrap();
    let snapshot = messenger.snapshot();
    assert_eq!(
        snapshot,
        MessengerSnapshot {
            owner_id: account("owner.near"),
            validators: vec![vec![1]],
            processed_nonces: vec![],
            destination_nonces: vec![("ethereum:1".to_string(), 2)],
            paused: false,
        }
    );
    let mut restored = XChainMessenger::restore(snapshot);
    let effect = restored
        .send_message(&ctx("alice.near"), "ethereum:1".to_string(), "c".to_string(), vec![])
        .unwrap();
    assert_eq!(effect.event.nonce, 3);
}

#[test]
fn outbound_numbers_run_out_at_the_top() {
    let mut messenger = XChainMessenger::restore(MessengerSnapshot {
        owner_id: account("owner.near"),
        validators: vec![],
        processed_nonces: vec![("ethereum:1".to_string(), u128::MAX)],
        destination_nonces: vec![("ethereum:1".to_string(), u128::MAX)],
        paused: false,
    });
    assert_eq!(
        messenger.send_message(&ctx("alice.near"), "ethereum:1".to_string(), "c".to_string(), vec![]),
        Err(MessagingError::NonceExhausted)
    );
    let mut data = borsh::to_vec(&0u128).unwrap();
    for field in ["ethereum:1", "near", "a", "b"] {
        data.extend(borsh::to_vec(&field.to_string()).unwrap());
    }
    data.extend(borsh::to_vec(&Vec::<u8>::new()).unwrap());
    let proof = BridgeProof { source_tx_hash: String::new(), proof_data: data, block_height: 0 };
    assert_eq!(messenger.receive_message(proof), Err(MessagingError::InvalidNonce));
}

#[test]
fn every_refusal_has_its_words() {
    assert_eq!(BridgeError::ReplayedProof.message(), "Proof already used");
    assert_eq!(BridgeError::DecodeFailure.message(), "Failed to deserialize BridgePayload");
    assert_eq!(BridgeError::WrongTargetChain.message(), "Wrong target chain");
    assert_eq!(BridgeError::ReceiverMismatch.message(), "Receiver mismatch");
    assert_eq!(BridgeError::FactoryUninitialized.message(), "Factory not initialized");
    assert_eq!(BridgeError::UnmanagedToken.message(), "Token not managed by bridge");
    assert_eq!(BridgeError::InsufficientFee.message(), "Insufficient Fee");
    assert_eq!(BridgeError::Unauthorized.message(), "Unauthorized");
    assert_eq!(BridgeError::Paused.message(), "Bridge is paused");
    assert_eq!(MessagingError::Paused.message(), "Messenger is paused");
    assert_eq!(MessagingError::Unauthorized.message(), "Unauthorized");
    assert_eq!(MessagingError::DecodeFailure.message(), "Failed to deserialize XChainMessage");
    assert_eq!(MessagingError::InvalidNonce.message(), "Invalid nonce");
    assert_eq!(MessagingError::NonceExhausted.message(), "Nonce exhausted");
}
