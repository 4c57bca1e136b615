//! The names the bridge goes by: the name of its own chain, the canonical
//! keys of assets, and the account names of their receipt tokens.
//!
//! A chain name identifies this chain if it is `near`, or `near:` followed
//! by the name of a network.
//!
//! An asset's canonical key is its chain, contract and standard joined by
//! colons.  The receipt token of an asset lives in a sub-account of the
//! bridge whose first label is the first twenty hexadecimal digits of the
//! SHA-256 digest of the canonical key.

use crate::account::{is_lower_alphanumeric, is_separator, valid_account_id, AccountId};
use crate::collections::string_equal;
use crate::hashing::{hex_string, lemma_hex_string_chars, sha256_digest, sha256_hex_prefix};
use crate::text::{debug_quoted, format_debug};
use crate::types::{AssetStandard, AssetStandardView, CanonicalAssetId, CanonicalAssetIdView};
use vstd::prelude::*;
use vstd::string::*;
use vstd::utf8::encode_utf8;

verus! {

/// Whether `a` is the beginning of `b`.
pub open spec fn is_prefix_of(a: Seq<char>, b: Seq<char>) -> bool {
    a.len() <= b.len() && b.subrange(0, a.len() as int) == a
}

/// Whether a chain name identifies this chain: it is `near`, or `near:`
/// followed by the name of a network, as in `near:testnet`.
pub open spec fn identifies_this_chain(chain: Seq<char>) -> bool {
    chain == "near"@ || is_prefix_of("near:"@, chain)
}

/// Whether `text` begins with `prefix`.
pub fn starts_with(text: &str, prefix: &str) -> (r: bool)
    ensures
        r == is_prefix_of(prefix@, text@),
{
    let n = prefix.unicode_len();
    if n > text.unicode_len() {
        return false;
    }
    let mut i: usize = 0;
    while i < n
        invariant
            i <= n,
            n == prefix@.len(),
            n <= text@.len(),
            forall|j: int| 0 <= j < i ==> prefix@[j] == text@[j],
        decreases n - i,
    {
        if prefix.get_char(i) != text.get_char(i) {
            assert(text@.subrange(0, n as int)[i as int] != prefix@[i as int]);
            return false;
        }
        i += 1;
    }
    assert(text@.subrange(0, n as int) =~= prefix@);
    true
}

/// Whether a chain name identifies this chain.
pub fn names_this_chain(chain: &str) -> (r: bool)
    ensures
        r == identifies_this_chain(chain@),
{
    string_equal(chain, "near") || starts_with(chain, "near:")
}

/// Number of hexadecimal digits in the first label of a token account.
pub const TOKEN_LABEL_LEN: usize = 20;

/// Longest bridge account name under which token accounts can be named:
/// the label and a dot take twenty-one of the sixty-four characters.
pub const MAX_BRIDGE_ID_LEN: usize = 43;

/// The name of a standard as it appears in a canonical key.
pub open spec fn standard_name(standard: AssetStandardView) -> Seq<char> {
    match standard {
        AssetStandardView::Native => "Native"@,
        AssetStandardView::ERC20 => "ERC20"@,
        AssetStandardView::ERC721 => "ERC721"@,
        AssetStandardView::ERC1155 => "ERC1155"@,
        AssetStandardView::SPL => "SPL"@,
        AssetStandardView::Custom(name) => "Custom("@ + debug_quoted(name) + ")"@,
    }
}

/// The canonical key of an asset: `chain:contract:standard`.
pub open spec fn canonical_key(asset: CanonicalAssetIdView) -> Seq<char> {
    asset.source_chain_id + ":"@ + asset.source_contract + ":"@ + standard_name(
        asset.asset_standard,
    )
}

/// The first label of the token account for a canonical key.
pub open spec fn token_label(key: Seq<char>) -> Seq<char> {
    hex_string(sha256_digest(encode_utf8(key))).subrange(0, TOKEN_LABEL_LEN as int)
}

/// The account name of the receipt token for a canonical key, under the
/// bridge account `bridge`.
pub open spec fn token_account_name(key: Seq<char>, bridge: Seq<char>) -> Seq<char> {
    token_label(key) + "."@ + bridge
}

impl AssetStandard {
    /// The name of the standard as it appears in a canonical key.
    pub fn name(&self) -> (r: String)
        ensures
            r@ == standard_name(self@),
    {
        match self {
            AssetStandard::Native => String::from_str("Native"),
            AssetStandard::ERC20 => String::from_str("ERC20"),
            AssetStandard::ERC721 => String::from_str("ERC721"),
            AssetStandard::ERC1155 => String::from_str("ERC1155"),
            AssetStandard::SPL => String::from_str("SPL"),
            AssetStandard::Custom(name) => {
                let quoted = format_debug(name.as_str());
                String::from_str("Custom(").concat(quoted.as_str()).concat(")")
            },
        }
    }
}

impl CanonicalAssetId {
    /// The canonical key of the asset.
    pub fn canonical_key(&self) -> (key: String)
        ensures
            key@ == canonical_key(self@),
    {
        let standard = self.asset_standard.name();
        self.source_chain_id.clone().concat(":").concat(self.source_contract.as_str()).concat(
            ":",
        ).concat(standard.as_str())
    }
}

/// A token account name is a valid account identifier whenever the bridge
/// account name is one and is short enough.
proof fn lemma_token_account_name_valid(key: Seq<char>, bridge: Seq<char>)
    requires
        valid_account_id(bridge),
        bridge.len() <= MAX_BRIDGE_ID_LEN,
        sha256_digest(encode_utf8(key)).len() == 32,
    ensures
        valid_account_id(token_account_name(key, bridge)),
        token_label(key).len() == TOKEN_LABEL_LEN,
{
    reveal_strlit(".");
    let digest_text = hex_string(sha256_digest(encode_utf8(key)));
    let label = token_label(key);
    let name = token_account_name(key, bridge);
    lemma_hex_string_chars(sha256_digest(encode_utf8(key)));
    assert(label.len() == 20);
    assert forall|i: int| 0 <= i < 20 implies is_lower_alphanumeric(#[trigger] name[i])
        && !is_separator(name[i]) by {
        assert(name[i] == digest_text[i]);
    }
    assert(name[20] == '.');
    assert forall|i: int| 21 <= i < name.len() implies #[trigger] name[i] == bridge[i - 21] by {}
    assert forall|i: int| 0 <= i < name.len() implies is_lower_alphanumeric(#[trigger] name[i])
        || is_separator(name[i]) by {
        if i >= 21 {
            assert(name[i] == bridge[i - 21]);
        }
    }
    assert forall|i: int| 0 <= i < name.len() - 1 implies !(is_separator(#[trigger] name[i])
        && is_separator(name[i + 1])) by {
        if i >= 21 {
            assert(name[i] == bridge[i - 21]);
            assert(name[i + 1] == bridge[i - 21 + 1]);
        } else if i == 20 {
            assert(name[21] == bridge[0]);
        }
    }
    assert(name[name.len() - 1] == bridge[bridge.len() - 1]);
}

/// Derives the account of the receipt token for a canonical key.
pub fn derive_token_id(key: &str, bridge: &AccountId) -> (token: AccountId)
    requires
        bridge@.len() <= MAX_BRIDGE_ID_LEN,
    ensures
        token@ == token_account_name(key@, bridge@),
        token_label(key@).len() == TOKEN_LABEL_LEN,
{
    let label = sha256_hex_prefix(key.as_bytes(), 10);
    let name = label.concat(".").concat(bridge.as_str());
    proof {
        lemma_token_account_name_valid(key@, bridge@);
    }
    match AccountId::parse(name.as_str()) {
        Some(token) => token,
        None => vstd::pervasive::unreached(),
    }
}

} // verus!
