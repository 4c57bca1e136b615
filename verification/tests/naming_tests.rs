use xchain_bridge::account::AccountId;
use xchain_bridge::collections::{bytes_equal, string_equal, ByteStringSet, StringMap};
use xchain_bridge::hashing::sha256_hex_prefix;
use xchain_bridge::naming::{derive_token_id, names_this_chain, starts_with};
use xchain_bridge::types::{AssetStandard, CanonicalAssetId};

fn asset(standard: AssetStandard) -> CanonicalAssetId {
    CanonicalAssetId {
        source_chain_id: "ethereum:1".to_string(),
        source_contract: "0xA0b8".to_string(),
        asset_standard: standard,
    }
}

#[test]
fn canonical_keys_join_chain_contract_and_standard() {
    assert_eq!(asset(AssetStandard::Native).canonical_key(), "ethereum:1:0xA0b8:Native");
    assert_eq!(asset(AssetStandard::ERC20).canonical_key(), "ethereum:1:0xA0b8:ERC20");
    assert_eq!(asset(AssetStandard::ERC721).canonical_key(), "ethereum:1:0xA0b8:ERC721");
    assert_eq!(asset(AssetStandard::ERC1155).canonical_key(), "ethereum:1:0xA0b8:ERC1155");
    assert_eq!(asset(AssetStandard::SPL).canonical_key(), "ethereum:1:0xA0b8:SPL");
}

#[test]
fn custom_standards_are_quoted_in_the_key() {
    assert_eq!(
        asset(AssetStandard::Custom("BEP-20".to_string())).canonical_key(),
        "ethereum:1:0xA0b8:Custom(\"BEP-20\")"
    );
    assert_eq!(
        asset(AssetStandard::Custom("a\"b\n".to_string())).canonical_key(),
        "ethereum:1:0xA0b8:Custom(\"a\\\"b\\n\")"
    );
    assert_eq!(AssetStandard::Custom("x".to_string()).name(), "Custom(\"x\")");
    assert_eq!(AssetStandard::ERC20.name(), "ERC20");
}

#[test]
fn the_digest_prefix_is_lowercase_hex() {
    assert_eq!(
        sha256_hex_prefix(b"The phrase that will be hashed", 32),
        "7fc38bc74a0d0e592d2b8381839adc2649007d5bca11f92eeddef78681b4e3a3"
    );
    assert_eq!(sha256_hex_prefix(b"The phrase that will be hashed", 10), "7fc38bc74a0d0e592d2b");
    assert_eq!(sha256_hex_prefix(b"The phrase that will be hashed", 0), "");
    assert_eq!(
        sha256_hex_prefix(b"", 32),
        "e3b0c44298fc1c149afbf4c8996fb92427ae41e4649b934ca495991b7852b855"
    );
}

#[test]
fn token_accounts_are_sub_accounts_of_the_bridge() {
    let bridge = AccountId::parse("bridge.near").unwrap();
    let token = derive_token_id("The phrase that will be hashed", &bridge);
    assert_eq!(token.to_string(), "7fc38bc74a0d0e592d2b.bridge.near");
    let longest = AccountId::parse(&"b".repeat(43)).unwrap();
    let token = derive_token_id("The phrase that will be hashed", &longest);
    assert_eq!(token.to_string().len(), 64);
    assert!(near_sdk::AccountId::validate(token.as_str()).is_ok());
}

#[test]
fn account_ids_are_validated() {
    for good in ["ab", "alice.near", "a-b_c.d", "0", "01", "a.b", &"a".repeat(64)] {
        let expected = near_sdk::AccountId::validate(good).is_ok();
        assert_eq!(AccountId::parse(good).is_some(), expected, "{}", good);
    }
    for bad in [
        "",
        "a",
        "Alice",
        "a..b",
        ".ab",
        "ab.",
        "a-_b",
        "-ab",
        "ab_",
        "a b",
        "caf\u{e9}",
        "\u{e9}",
        &"a".repeat(65),
    ] {
        assert!(near_sdk::AccountId::validate(bad).is_err());
        assert!(AccountId::parse(bad).is_none(), "{}", bad);
    }
    let id = AccountId::parse("alice.near").unwrap();
    assert_eq!(id.as_str(), "alice.near");
    assert_eq!(id.to_string(), "alice.near");
    assert!(id.equals(&id.clone()));
    assert!(!id.equals(&AccountId::parse("bob.near").unwrap()));
}

#[test]
fn byte_strings_and_strings_compare_by_content() {
    assert!(bytes_equal(&[1, 2, 3], &[1, 2, 3]));
    assert!(!bytes_equal(&[1, 2, 3], &[1, 2, 4]));
    assert!(!bytes_equal(&[1, 2, 3], &[1, 2]));
    assert!(bytes_equal(&[], &[]));
    assert!(string_equal("near", "near"));
    assert!(!string_equal("near", "neat"));
    assert!(!string_equal("near", "nearx"));
}

#[test]
fn a_byte_string_set_holds_each_member_once() {
    let mut set = ByteStringSet::new();
    assert_eq!(set.len(), 0);
    assert!(set.insert(vec![1]));
    assert!(set.insert(vec![2]));
    assert!(!set.insert(vec![1]));
    assert_eq!(set.len(), 2);
    assert!(set.contains(&[1]));
    assert!(!set.contains(&[3]));
    assert!(set.remove(&[1]));
    assert!(!set.remove(&[1]));
    assert!(!set.contains(&[1]));
    assert!(set.contains(&[2]));
    assert_eq!(set.len(), 1);
    let from = ByteStringSet::from_keys(&vec![vec![7], vec![8], vec![7]]);
    assert_eq!(from.len(), 2);
}

#[test]
fn a_string_map_replaces_earlier_bindings() {
    let mut map: StringMap<u128> = StringMap::new();
    assert_eq!(map.get("a"), None);
    map.insert("a".to_string(), 1);
    map.insert("b".to_string(), 2);
    assert_eq!(map.get("a"), Some(&1));
    assert_eq!(map.get("b"), Some(&2));
    map.insert("a".to_string(), 3);
    assert_eq!(map.get("a"), Some(&3));
    assert_eq!(map.get("b"), Some(&2));
    assert!(map.contains_key("b"));
    assert!(!map.contains_key("c"));
}

#[test]
fn a_chain_name_is_near_or_begins_with_near_and_a_colon() {
    assert!(names_this_chain("near"));
    assert!(names_this_chain("near:testnet"));
    assert!(names_this_chain("near:"));
    assert!(!names_this_chain("linear:59144"));
    assert!(!names_this_chain("nearx"));
    assert!(!names_this_chain("Near"));
    assert!(!names_this_chain(""));
    assert!(starts_with("near:testnet", "near:"));
    assert!(starts_with("abc", ""));
    assert!(starts_with("\u{e9}t\u{e9}", "\u{e9}t"));
    assert!(!starts_with("ab", "abc"));
    assert!(!starts_with("abd", "abc"));
}
