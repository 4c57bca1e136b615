use xchain_bridge::account::AccountId;
use xchain_bridge::actions::FungibleTokenMetadata;
use xchain_bridge::bridge::CallContext;
use xchain_bridge::interface::XChainReceiptToken;
use xchain_bridge::token::{LedgerEntry, ReceiptToken, SupplyChange, TokenError};
use xchain_bridge::types::{
    AssetStandard, BridgeRoute, CanonicalAssetId, ReceiptTokenMetadata, SecurityModel,
};

fn account(name: &str) -> AccountId {
    AccountId::parse(name).expect("valid account id")
}

fn ctx(caller: &str) -> CallContext {
    CallContext {
        current_account_id: account("token.bridge.near"),
        predecessor_account_id: account(caller),
        attached_deposit: 0,
        block_timestamp: 0,
    }
}

fn xc_metadata() -> ReceiptTokenMetadata {
    ReceiptTokenMetadata {
        canonical_asset: CanonicalAssetId {
            source_chain_id: "ethereum:1".to_string(),
            source_contract: "0xA0b8".to_string(),
            asset_standard: AssetStandard::ERC20,
        },
        bridge_route: BridgeRoute {
            bridge_contract: account("bridge.near"),
            security_model: SecurityModel::Committee { threshold: 3, size: 4 },
            deployed_at: 12,
        },
        total_locked: 1_000,
        nep141_token: account("token.bridge.near"),
    }
}

fn token() -> ReceiptToken {
    ReceiptToken::new(
        account("bridge.near"),
        FungibleTokenMetadata::for_receipt_token("0xA0b8"),
        xc_metadata(),
    )
}

#[test]
fn only_the_bridge_mints_and_burns() {
    let mut token = token();
    assert_eq!(
        token.mint(&ctx("bridge.near"), account("alice.near"), 5),
        Ok(LedgerEntry { change: SupplyChange::Mint, account_id: account("alice.near"), amount: 5 })
    );
    assert_eq!(
        token.burn(&ctx("bridge.near"), account("alice.near"), 2),
        Ok(LedgerEntry { change: SupplyChange::Burn, account_id: account("alice.near"), amount: 2 })
    );
    assert_eq!(
        token.mint(&ctx("alice.near"), account("alice.near"), 5),
        Err(TokenError::Unauthorized)
    );
    assert_eq!(
        token.burn(&ctx("alice.near"), account("bob.near"), 5),
        Err(TokenError::Unauthorized)
    );
}

#[test]
fn a_token_reports_what_it_was_created_with() {
    let token = token();
    assert_eq!(token.xc_metadata(), xc_metadata());
    assert_eq!(token.xc_total_locked(), 1_000);
    assert!(token.xc_is_bridgeable_to("ethereum:1".to_string()));
    assert!(!token.xc_is_bridgeable_to("ethereum:2".to_string()));
    let metadata = token.ft_metadata();
    assert_eq!(metadata.name, "Bridged 0xA0b8");
    assert_eq!(metadata.symbol, "xAsset");
    assert_eq!(metadata.spec, "ft-1.0.0");
    assert_eq!(metadata.decimals, 18);
}
