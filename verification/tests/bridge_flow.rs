use near_sdk::borsh;
use xchain_bridge::account::AccountId;
use xchain_bridge::actions::{
    Action, ActionBatch, BridgeInEffect, CallArguments, GAS_INIT_TOKEN, GAS_MINT_TOKEN,
};
use xchain_bridge::bridge::{CallContext, XChainBridge};
use xchain_bridge::interface::XChainCore;
use xchain_bridge::model::{BridgeError, BRIDGE_FEE};
use xchain_bridge::types::{
    AssetStandard, BridgeDirection, BridgeProof, CanonicalAssetId, SecurityModel,
};

const ONE_NEAR: u128 = 1_000_000_000_000_000_000_000_000;
const USDC: &str = "0xA0b86991c6218b36c1d19D4a2e9Eb0cE3606eB48";

fn account(name: &str) -> AccountId {
    AccountId::parse(name).expect("valid account id")
}

fn ctx(caller: &str, deposit: u128) -> CallContext {
    CallContext {
        current_account_id: account("bridge.test.near"),
        predecessor_account_id: account(caller),
        attached_deposit: deposit,
        block_timestamp: 1_700_000_000_000_000_000,
    }
}

fn text(s: &str) -> Vec<u8> {
    borsh::to_vec(&s.to_string()).unwrap()
}

fn payload_bytes(
    nonce: u128,
    target_chain: &str,
    contract: &str,
    standard_tag: u8,
    amount: u128,
    receiver: &str,
) -> Vec<u8> {
    let mut out = borsh::to_vec(&nonce).unwrap();
    out.extend(text("ethereum:1"));
    out.extend(text(target_chain));
    out.extend(text("ethereum:1"));
    out.extend(text(contract));
    out.extend(borsh::to_vec(&standard_tag).unwrap());
    out.extend(borsh::to_vec(&amount).unwrap());
    out.extend(text(receiver));
    out.extend(text("0xabc123def456"));
    out
}

fn usdc_proof(nonce: u128, receiver: &str) -> BridgeProof {
    BridgeProof {
        source_tx_hash: "0xabc123def456".to_string(),
        proof_data: payload_bytes(nonce, "near:testnet", USDC, 1, 1_000_000_000, receiver),
        block_height: 18500000,
    }
}

fn usdc() -> CanonicalAssetId {
    CanonicalAssetId {
        source_chain_id: "ethereum:1".to_string(),
        source_contract: USDC.to_string(),
        asset_standard: AssetStandard::ERC20,
    }
}

fn expected_token(key: &str, bridge: &str) -> String {
    let digest = near_sdk::env::sha256(key.as_bytes());
    let hex_text = hex::encode(&digest);
    format!("{}.{}", &hex_text[0..20], bridge)
}

fn ready_bridge() -> XChainBridge {
    let mut bridge = XChainBridge::new(&ctx("owner.near", 0), account("owner.near"), vec![]);
    bridge
        .set_receipt_token_code(&ctx("owner.near", 0), vec![0, 97, 115, 109])
        .expect("owner may set the code");
    bridge
}

fn mint_action(receiver: &str, amount: u128) -> Action {
    Action::FunctionCall {
        method_name: "mint".to_string(),
        arguments: CallArguments::Mint { account_id: account(receiver), amount },
        deposit: 0,
        gas: GAS_MINT_TOKEN,
    }
}

fn bridge_in_ok(bridge: &mut XChainBridge, nonce: u128, receiver: &str, deposit: u128) -> BridgeInEffect {
    bridge
        .bridge_in(&ctx("relayer.near", deposit), usdc_proof(nonce, receiver), account(receiver))
        .expect("bridge_in accepted")
}

#[test]
fn test_full_bridge_flow() {
    let mut bridge = XChainBridge::new(&ctx("owner.near", 0), account("owner.near"), vec![]);
    let set_code = bridge.set_receipt_token_code(&ctx("owner.near", 0), vec![0, 97, 115, 109]);
    assert!(set_code.is_ok(), "Set code failed");

    let effect = bridge
        .bridge_in(
            &ctx("relayer.near", 5 * ONE_NEAR),
            usdc_proof(1, "alice.test.near"),
            account("alice.test.near"),
        )
        .expect("bridge_in accepted");

    let token = expected_token(
        "ethereum:1:0xA0b86991c6218b36c1d19D4a2e9Eb0cE3606eB48:ERC20",
        "bridge.test.near",
    );
    assert_eq!(token.len(), 20 + 1 + "bridge.test.near".len());
    assert_eq!(effect.event.receipt_token.to_string(), token);
    assert_eq!(effect.event.canonical_asset, usdc());
    assert_eq!(effect.event.amount, 1_000_000_000);
    assert_eq!(effect.event.receiver_id, account("alice.test.near"));
    assert_eq!(effect.event.source_tx_hash, "0xabc123def456");

    let first = &effect.plan.first;
    assert_eq!(first.receiver_id.to_string(), token);
    assert_eq!(first.actions.len(), 4);
    assert_eq!(first.actions[0], Action::CreateAccount);
    assert_eq!(first.actions[1], Action::Transfer { amount: 5 * ONE_NEAR });
    assert_eq!(first.actions[2], Action::DeployContract { code: vec![0, 97, 115, 109] });
    match &first.actions[3] {
        Action::FunctionCall {
            method_name,
            arguments: CallArguments::Initialize { owner_id, metadata, xc_metadata },
            deposit,
            gas,
        } => {
            assert_eq!(method_name, "new");
            assert_eq!(*deposit, 0);
            assert_eq!(*gas, GAS_INIT_TOKEN);
            assert_eq!(owner_id, &account("bridge.test.near"));
            assert_eq!(metadata.spec, "ft-1.0.0");
            assert_eq!(metadata.name, format!("Bridged {}", USDC));
            assert_eq!(metadata.symbol, "xAsset");
            assert_eq!(metadata.decimals, 18);
            assert_eq!(metadata.icon, None);
            assert_eq!(metadata.reference, None);
            assert_eq!(metadata.reference_hash, None);
            assert_eq!(xc_metadata.canonical_asset, usdc());
            assert_eq!(xc_metadata.total_locked, 1_000_000_000);
            assert_eq!(xc_metadata.nep141_token.to_string(), token);
            assert_eq!(xc_metadata.bridge_route.bridge_contract, account("bridge.test.near"));
            assert_eq!(xc_metadata.bridge_route.deployed_at, 1_700_000_000_000_000_000);
            assert_eq!(
                xc_metadata.bridge_route.security_model,
                SecurityModel::Committee { threshold: 1, size: 0 }
            );
        }
        other => panic!("unexpected action {:?}", other),
    }
    let after = effect.plan.after.as_ref().expect("mint follows provisioning");
    assert_eq!(after.receiver_id.to_string(), token);
    assert_eq!(after.actions, vec![mint_action("alice.test.near", 1_000_000_000)]);

    assert_eq!(bridge.get_receipt_token(&usdc()).map(|t| t.to_string()), Some(token.clone()));
    assert_eq!(bridge.get_canonical_asset(account(&token)), Some(usdc()));

    let second = bridge_in_ok(&mut bridge, 2, "alice.test.near", 0);
    assert_eq!(second.event.receipt_token.to_string(), token);
    assert_eq!(second.plan.after, None);
    assert_eq!(second.plan.first.receiver_id.to_string(), token);
    assert_eq!(second.plan.first.actions, vec![mint_action("alice.test.near", 1_000_000_000)]);
    assert_eq!(bridge.consumed_count(), 2);
}

#[test]
fn test_bridge_pause() {
    let mut bridge = XChainBridge::new(&ctx("owner.near", 0), account("owner.near"), vec![]);
    assert!(!bridge.is_paused(), "Bridge should not be paused initially");
    bridge.set_paused(&ctx("owner.near", 0), true).expect("owner may pause");
    assert!(bridge.is_paused(), "Bridge should be paused after set_paused(true)");
    bridge.set_paused(&ctx("owner.near", 0), false).expect("owner may resume");
    assert!(!bridge.is_paused());
}

#[test]
fn new_bridge_is_empty_and_pays_its_owner() {
    let bridge = XChainBridge::new(&ctx("owner.near", 0), account("owner.near"), vec![vec![0, 1], vec![0, 2], vec![0, 1]]);
    assert_eq!(bridge.owner_id(), &account("owner.near"));
    assert_eq!(bridge.treasury(), &account("owner.near"));
    assert!(bridge.receipt_token_code().is_empty());
    assert_eq!(bridge.validator_count(), 2);
    assert!(bridge.is_validator(&[0, 1]));
    assert!(bridge.is_validator(&[0, 2]));
    assert!(!bridge.is_validator(&[0, 3]));
    assert_eq!(bridge.consumed_count(), 0);
    assert_eq!(bridge.get_receipt_token(&usdc()), None);
}

#[test]
fn a_proof_is_accepted_once() {
    let mut bridge = ready_bridge();
    let proof = usdc_proof(1, "alice.test.near");
    assert!(!bridge.is_consumed(&proof.proof_data));
    let first = bridge.validate_and_consume(&proof, &account("alice.test.near"));
    let payload = first.expect("first use validates");
    assert_eq!(payload.nonce, 1);
    assert_eq!(payload.source_chain, "ethereum:1");
    assert_eq!(payload.target_chain, "near:testnet");
    assert_eq!(payload.asset, usdc());
    assert_eq!(payload.amount, 1_000_000_000);
    assert_eq!(payload.receiver, account("alice.test.near"));
    assert_eq!(payload.source_tx_hash, "0xabc123def456");
    assert!(bridge.is_consumed(&proof.proof_data));
    let again = bridge.validate_and_consume(&proof, &account("alice.test.near"));
    assert_eq!(again, Err(BridgeError::ReplayedProof));
    assert_eq!(bridge.consumed_count(), 1);
}

#[test]
fn a_replayed_transfer_is_refused() {
    let mut bridge = ready_bridge();
    bridge_in_ok(&mut bridge, 1, "alice.test.near", ONE_NEAR);
    let again = bridge.bridge_in(
        &ctx("relayer.near", ONE_NEAR),
        usdc_proof(1, "alice.test.near"),
        account("alice.test.near"),
    );
    assert_eq!(again, Err(BridgeError::ReplayedProof));
    let other_receiver = bridge.bridge_in(
        &ctx("relayer.near", ONE_NEAR),
        usdc_proof(1, "alice.test.near"),
        account("bob.test.near"),
    );
    assert_eq!(other_receiver, Err(BridgeError::ReplayedProof));
}

#[test]
fn receiver_mismatch_leaves_the_proof_unconsumed() {
    let mut bridge = ready_bridge();
    let proof = usdc_proof(1, "alice.test.near");
    let refused = bridge.bridge_in(
        &ctx("relayer.near", ONE_NEAR),
        usdc_proof(1, "alice.test.near"),
        account("mallory.near"),
    );
    assert_eq!(refused, Err(BridgeError::ReceiverMismatch));
    assert!(!bridge.is_consumed(&proof.proof_data));
    assert_eq!(bridge.consumed_count(), 0);
    assert_eq!(bridge.get_receipt_token(&usdc()), None);
    bridge_in_ok(&mut bridge, 1, "alice.test.near", ONE_NEAR);
    assert!(bridge.is_consumed(&proof.proof_data));
}

#[test]
fn a_payload_for_another_chain_is_refused() {
    let mut bridge = ready_bridge();
    let proof = BridgeProof {
        source_tx_hash: "0x01".to_string(),
        proof_data: payload_bytes(1, "solana:mainnet", USDC, 1, 5, "alice.test.near"),
        block_height: 1,
    };
    let data = proof.proof_data.clone();
    let refused = bridge.bridge_in(&ctx("relayer.near", 0), proof, account("alice.test.near"));
    assert_eq!(refused, Err(BridgeError::WrongTargetChain));
    assert!(!bridge.is_consumed(&data));
}

#[test]
fn the_target_chain_must_name_this_chain() {
    let mut bridge = ready_bridge();
    let mut nonce = 0;
    for other in ["linear:59144", "xnearx", "nearx", "NEAR", "ethereum:1", "", "nea", " near:x"] {
        nonce += 1;
        let proof = BridgeProof {
            source_tx_hash: "0x01".to_string(),
            proof_data: payload_bytes(nonce, other, USDC, 1, 5, "alice.test.near"),
            block_height: 1,
        };
        let data = proof.proof_data.clone();
        assert_eq!(
            bridge.bridge_in(&ctx("relayer.near", 0), proof, account("alice.test.near")),
            Err(BridgeError::WrongTargetChain),
            "{}",
            other
        );
        assert!(!bridge.is_consumed(&data));
    }
    assert_eq!(bridge.consumed_count(), 0);
    assert_eq!(bridge.get_receipt_token(&usdc()), None);
    for this in ["near", "near:", "near:testnet", "near:mainnet"] {
        nonce += 1;
        let proof = BridgeProof {
            source_tx_hash: "0x01".to_string(),
            proof_data: payload_bytes(nonce, this, USDC, 1, 5, "alice.test.near"),
            block_height: 1,
        };
        assert!(
            bridge.bridge_in(&ctx("relayer.near", 0), proof, account("alice.test.near")).is_ok(),
            "{}",
            this
        );
    }
    assert_eq!(bridge.consumed_count(), 4);
}

#[test]
fn the_route_reports_the_time_the_bridge_was_made() {
    let made = CallContext {
        current_account_id: account("bridge.test.near"),
        predecessor_account_id: account("owner.near"),
        attached_deposit: 0,
        block_timestamp: 42,
    };
    let mut bridge = XChainBridge::new(&made, account("owner.near"), vec![vec![1]]);
    let first = bridge.get_bridge_route(&account("bridge.test.near"));
    assert_eq!(first.deployed_at, 42);
    bridge.set_paused(&ctx("owner.near", 0), true).unwrap();
    bridge.set_paused(&ctx("owner.near", 0), false).unwrap();
    let second = bridge.get_bridge_route(&account("bridge.test.near"));
    assert_eq!(first, second);
    bridge.set_receipt_token_code(&ctx("owner.near", 0), vec![1]).unwrap();
    let effect = bridge_in_ok(&mut bridge, 1, "alice.test.near", ONE_NEAR);
    match &effect.plan.first.actions[3] {
        Action::FunctionCall { arguments: CallArguments::Initialize { xc_metadata, .. }, .. } => {
            assert_eq!(xc_metadata.bridge_route.deployed_at, 42);
        }
        other => panic!("unexpected action {:?}", other),
    }
    assert_eq!(bridge.snapshot().deployed_at, 42);
}

#[test]
fn a_long_bridge_name_matters_only_where_a_token_is_named() {
    let long = "b".repeat(44);
    let long_ctx = |caller: &str| CallContext {
        current_account_id: account(&long),
        predecessor_account_id: account(caller),
        attached_deposit: 0,
        block_timestamp: 7,
    };
    let mut bridge = XChainBridge::new(&long_ctx("owner.near"), account("owner.near"), vec![]);
    assert_eq!(
        bridge.try_bridge_in(
            &long_ctx("relayer.near"),
            usdc_proof(1, "alice.test.near"),
            account("alice.test.near")
        ),
        Some(Err(BridgeError::FactoryUninitialized))
    );
    bridge.set_receipt_token_code(&long_ctx("owner.near"), vec![1]).unwrap();
    assert_eq!(
        bridge.try_bridge_in(
            &long_ctx("relayer.near"),
            usdc_proof(1, "alice.test.near"),
            account("mallory.near")
        ),
        Some(Err(BridgeError::ReceiverMismatch))
    );
    assert_eq!(
        bridge.try_bridge_in(
            &long_ctx("relayer.near"),
            usdc_proof(1, "alice.test.near"),
            account("alice.test.near")
        ),
        None
    );
    assert_eq!(bridge.consumed_count(), 0);
    assert_eq!(bridge.get_receipt_token(&usdc()), None);

    let effect = bridge_in_ok(&mut bridge, 1, "alice.test.near", 0);
    let token = effect.event.receipt_token;
    let again = bridge
        .try_bridge_in(
            &long_ctx("relayer.near"),
            usdc_proof(2, "alice.test.near"),
            account("alice.test.near"),
        )
        .expect("no token is named")
        .expect("accepted");
    assert_eq!(again.event.receipt_token, token);
    assert_eq!(again.plan.after, None);
    assert_eq!(
        bridge.bridge_in(
            &long_ctx("relayer.near"),
            usdc_proof(2, "alice.test.near"),
            account("alice.test.near")
        ),
        Err(BridgeError::ReplayedProof)
    );
    bridge.set_paused(&long_ctx("owner.near"), true).unwrap();
    assert_eq!(
        bridge.bridge_in(
            &long_ctx("relayer.near"),
            usdc_proof(3, "alice.test.near"),
            account("alice.test.near")
        ),
        Err(BridgeError::Paused)
    );
}

#[test]
fn malformed_proof_data_is_refused() {
    let mut bridge = ready_bridge();
    let good = payload_bytes(1, "near", USDC, 1, 5, "alice.test.near");
    let mut trailing = good.clone();
    trailing.push(0);
    let truncated = good[..good.len() - 1].to_vec();
    let bad_tag = payload_bytes(1, "near", USDC, 6, 5, "alice.test.near");
    let bad_receiver = payload_bytes(1, "near", USDC, 1, 5, "Alice");
    for data in [vec![], vec![1, 2, 3], trailing, truncated, bad_tag, bad_receiver] {
        let proof = BridgeProof {
            source_tx_hash: "0x01".to_string(),
            proof_data: data.clone(),
            block_height: 1,
        };
        let refused = bridge.bridge_in(&ctx("relayer.near", 0), proof, account("alice.test.near"));
        assert_eq!(refused, Err(BridgeError::DecodeFailure));
        assert!(!bridge.is_consumed(&data));
    }
    assert_eq!(bridge.consumed_count(), 0);
}

#[test]
fn a_new_asset_needs_token_code() {
    let mut bridge = XChainBridge::new(&ctx("owner.near", 0), account("owner.near"), vec![]);
    let proof = usdc_proof(1, "alice.test.near");
    let data = proof.proof_data.clone();
    let refused = bridge.bridge_in(&ctx("relayer.near", ONE_NEAR), proof, account("alice.test.near"));
    assert_eq!(refused, Err(BridgeError::FactoryUninitialized));
    assert!(!bridge.is_consumed(&data));
    assert_eq!(bridge.get_receipt_token(&usdc()), None);
    assert_eq!(
        bridge.resolve_or_create(&ctx("relayer.near", 0), &usdc()),
        Err(BridgeError::FactoryUninitialized)
    );
    assert_eq!(bridge.get_receipt_token(&usdc()), None);
}

#[test]
fn resolving_twice_gives_the_same_token() {
    let mut bridge = ready_bridge();
    let (token, created) = bridge.resolve_or_create(&ctx("relayer.near", 0), &usdc()).unwrap();
    assert!(created);
    assert_eq!(
        token.to_string(),
        expected_token(&format!("ethereum:1:{}:ERC20", USDC), "bridge.test.near")
    );
    let (again, created_again) = bridge.resolve_or_create(&ctx("other.near", 7), &usdc()).unwrap();
    assert!(!created_again);
    assert_eq!(again, token);
    assert_eq!(bridge.get_canonical_asset(token.clone()), Some(usdc()));
    assert_eq!(bridge.get_receipt_token(&usdc()), Some(token));
}

#[test]
fn distinct_assets_get_distinct_tokens_and_both_directions_agree() {
    let mut bridge = ready_bridge();
    let nft = CanonicalAssetId {
        source_chain_id: "ethereum:1".to_string(),
        source_contract: USDC.to_string(),
        asset_standard: AssetStandard::ERC721,
    };
    let (a, _) = bridge.resolve_or_create(&ctx("relayer.near", 0), &usdc()).unwrap();
    let (b, _) = bridge.resolve_or_create(&ctx("relayer.near", 0), &nft).unwrap();
    assert_ne!(a, b);
    assert_eq!(bridge.get_canonical_asset(a.clone()), Some(usdc()));
    assert_eq!(bridge.get_canonical_asset(b.clone()), Some(nft.clone()));
    assert_eq!(bridge.get_receipt_token(&usdc()), Some(a));
    assert_eq!(bridge.get_receipt_token(&nft), Some(b));
}

#[test]
fn a_paused_bridge_refuses_transfers_but_not_its_owner() {
    let mut bridge = ready_bridge();
    let effect = bridge_in_ok(&mut bridge, 1, "alice.test.near", ONE_NEAR);
    let token = effect.event.receipt_token;
    bridge.set_paused(&ctx("owner.near", 0), true).unwrap();
    assert_eq!(
        bridge.bridge_in(
            &ctx("relayer.near", 0),
            usdc_proof(2, "alice.test.near"),
            account("alice.test.near")
        ),
        Err(BridgeError::Paused)
    );
    assert_eq!(
        bridge.bridge_out(
            &ctx("alice.test.near", 0),
            token,
            1,
            "ethereum:1".to_string(),
            "0xdead".to_string()
        ),
        Err(BridgeError::Paused)
    );
    assert!(bridge.add_validator(&ctx("owner.near", 0), vec![1, 2, 3]).is_ok());
    assert!(bridge.remove_validator(&ctx("owner.near", 0), vec![1, 2, 3]).is_ok());
    assert!(bridge.set_treasury(&ctx("owner.near", 0), account("vault.near")).is_ok());
    assert!(bridge.set_receipt_token_code(&ctx("owner.near", 0), vec![9]).is_ok());
    assert!(bridge.set_paused(&ctx("owner.near", 0), false).is_ok());
}

#[test]
fn only_the_owner_administers() {
    let mut bridge = ready_bridge();
    let stranger = ctx("mallory.near", 0);
    assert_eq!(bridge.set_paused(&stranger, true), Err(BridgeError::Unauthorized));
    assert_eq!(bridge.add_validator(&stranger, vec![1]), Err(BridgeError::Unauthorized));
    assert_eq!(bridge.remove_validator(&stranger, vec![1]), Err(BridgeError::Unauthorized));
    assert_eq!(bridge.set_receipt_token_code(&stranger, vec![]), Err(BridgeError::Unauthorized));
    assert_eq!(
        bridge.set_treasury(&stranger, account("mallory.near")),
        Err(BridgeError::Unauthorized)
    );
    assert!(!bridge.is_paused());
    assert_eq!(bridge.validator_count(), 0);
    assert_eq!(bridge.receipt_token_code(), &vec![0, 97, 115, 109]);
    assert_eq!(bridge.treasury(), &account("owner.near"));
}

#[test]
fn bridge_out_takes_the_whole_payment() {
    let mut bridge = ready_bridge();
    let token = bridge_in_ok(&mut bridge, 1, "alice.test.near", ONE_NEAR).event.receipt_token;
    bridge.set_treasury(&ctx("owner.near", 0), account("vault.near")).unwrap();

    let short = bridge.bridge_out(
        &ctx("alice.test.near", BRIDGE_FEE - 1),
        token.clone(),
        400,
        "ethereum:1".to_string(),
        "0xdead".to_string(),
    );
    assert_eq!(short, Err(BridgeError::InsufficientFee));

    for paid in [BRIDGE_FEE, 3 * ONE_NEAR] {
        let effect = bridge
            .bridge_out(
                &ctx("alice.test.near", paid),
                token.clone(),
                400,
                "ethereum:1".to_string(),
                "0xdead".to_string(),
            )
            .expect("fee covered");
        assert_eq!(effect.treasury_payment.receiver_id, account("vault.near"));
        assert_eq!(effect.treasury_payment.actions, vec![Action::Transfer { amount: paid }]);
        assert_eq!(effect.event.canonical_asset, usdc());
        assert_eq!(effect.event.amount, 400);
        assert_eq!(effect.event.sender_id, account("alice.test.near"));
        assert_eq!(effect.event.destination_chain, "ethereum:1");
        assert_eq!(effect.event.destination_address, "0xdead");
        assert_eq!(effect.event.receipt_token, token);
        assert_eq!(effect.burn.receiver_id, token);
        assert_eq!(
            effect.burn.actions,
            vec![Action::FunctionCall {
                method_name: "burn".to_string(),
                arguments: CallArguments::Burn { account_id: account("alice.test.near"), amount: 400 },
                deposit: 0,
                gas: GAS_MINT_TOKEN,
            }]
        );
    }
}

#[test]
fn bridge_out_of_an_unknown_token_is_refused() {
    let mut bridge = ready_bridge();
    let refused = bridge.bridge_out(
        &ctx("alice.test.near", BRIDGE_FEE),
        account("unknown.near"),
        1,
        "ethereum:1".to_string(),
        "0xdead".to_string(),
    );
    assert_eq!(refused, Err(BridgeError::UnmanagedToken));
    let unpaid = bridge.bridge_out(
        &ctx("alice.test.near", 0),
        account("unknown.near"),
        1,
        "ethereum:1".to_string(),
        "0xdead".to_string(),
    );
    assert_eq!(unpaid, Err(BridgeError::InsufficientFee));
    assert_eq!(bridge.get_canonical_asset(account("unknown.near")), None);
}

#[test]
fn the_threshold_follows_the_validator_set() {
    let mut bridge = XChainBridge::new(&ctx("owner.near", 0), account("owner.near"), vec![]);
    let owner = ctx("owner.near", 0);
    let expected: [u64; 8] = [1, 1, 2, 3, 3, 4, 5, 5];
    for n in 0..8u8 {
        assert_eq!(
            bridge.get_bridge_route(&account("bridge.test.near")).security_model,
            SecurityModel::Committee { threshold: expected[n as usize], size: n as u64 }
        );
        bridge.add_validator(&owner, vec![0, n]).unwrap();
    }
    bridge.add_validator(&owner, vec![0, 3]).unwrap();
    assert_eq!(bridge.validator_count(), 8);
    bridge.remove_validator(&owner, vec![0, 0]).unwrap();
    bridge.remove_validator(&owner, vec![0, 0]).unwrap();
    let route = bridge.get_bridge_route(&account("bridge.test.near"));
    assert_eq!(route.security_model, SecurityModel::Committee { threshold: 5, size: 7 });
    assert_eq!(route.bridge_contract, account("bridge.test.near"));
    assert_eq!(route.deployed_at, 1_700_000_000_000_000_000);
}

#[test]
fn the_threshold_does_not_wrap_for_large_committees() {
    let keys: Vec<Vec<u8>> = (0..400u16).map(|i| i.to_le_bytes().to_vec()).collect();
    let bridge = XChainBridge::new(&ctx("owner.near", 0), account("owner.near"), keys);
    assert_eq!(
        bridge.get_bridge_route(&account("bridge.test.near")).security_model,
        SecurityModel::Committee { threshold: 267, size: 400 }
    );
}

#[test]
fn a_token_keeps_the_route_it_was_created_under() {
    let mut bridge = ready_bridge();
    let owner = ctx("owner.near", 0);
    for n in 0..3u8 {
        bridge.add_validator(&owner, vec![n]).unwrap();
    }
    let effect = bridge_in_ok(&mut bridge, 1, "alice.test.near", ONE_NEAR);
    bridge.remove_validator(&owner, vec![0]).unwrap();
    match &effect.plan.first.actions[3] {
        Action::FunctionCall { arguments: CallArguments::Initialize { xc_metadata, .. }, .. } => {
            assert_eq!(
                xc_metadata.bridge_route.security_model,
                SecurityModel::Committee { threshold: 3, size: 3 }
            );
        }
        other => panic!("unexpected action {:?}", other),
    }
    assert_eq!(
        bridge.get_bridge_route(&account("bridge.test.near")).security_model,
        SecurityModel::Committee { threshold: 2, size: 2 }
    );
}

#[test]
fn the_fee_is_fixed() {
    let bridge = XChainBridge::new(&ctx("owner.near", 0), account("owner.near"), vec![]);
    assert_eq!(BRIDGE_FEE, near_sdk::NearToken::from_millinear(100).as_yoctonear());
    assert_eq!(bridge.estimate_fee(BridgeDirection::In, None, 0), BRIDGE_FEE);
    assert_eq!(bridge.estimate_fee(BridgeDirection::Out, Some(usdc()), u128::MAX), BRIDGE_FEE);
    assert_eq!(BRIDGE_FEE, 100_000_000_000_000_000_000_000);
}

#[test]
fn the_gas_budgets_are_ten_teragas() {
    assert_eq!(GAS_MINT_TOKEN, near_sdk::Gas::from_tgas(10).as_gas());
    assert_eq!(GAS_INIT_TOKEN, near_sdk::Gas::from_tgas(10).as_gas());
}

#[test]
fn batches_are_built_as_named() {
    let mint = ActionBatch::mint(account("token.near"), account("alice.near"), 5);
    assert_eq!(mint.receiver_id, account("token.near"));
    assert_eq!(mint.actions, vec![mint_action("alice.near", 5)]);
    let pay = ActionBatch::transfer(account("vault.near"), 9);
    assert_eq!(pay.receiver_id, account("vault.near"));
    assert_eq!(pay.actions, vec![Action::Transfer { amount: 9 }]);
}
