//! The wire format of bridge payloads and messages.
//!
//! Values are laid out field after field: integers little-endian at their
//! full width, a byte string as a 32-bit length followed by the bytes, text
//! as the byte string of its UTF-8 encoding, an enum as a one-byte variant
//! index followed by the variant's fields.  A buffer decodes only if nothing
//! is left over.

use crate::account::{valid_account_id, AccountId};
use crate::text::string_from_utf8;
use crate::types::{
    AssetStandard, AssetStandardView, BridgePayload, BridgePayloadView, CanonicalAssetId,
    CanonicalAssetIdView, XChainMessage, XChainMessageView,
};
use vstd::bytes::{
    spec_u128_from_le_bytes, spec_u32_from_le_bytes, u128_from_le_bytes, u32_from_le_bytes,
};
use vstd::prelude::*;
use vstd::slice::{slice_subrange, slice_to_vec};
use vstd::utf8::{decode_utf8, valid_utf8};

verus! {

/// A 128-bit integer at `at`, and the position after it.
pub open spec fn read_u128(data: Seq<u8>, at: int) -> Option<(u128, int)> {
    if 0 <= at && at + 16 <= data.len() {
        Some((spec_u128_from_le_bytes(data.subrange(at, at + 16)), at + 16))
    } else {
        None
    }
}

/// A 32-bit integer at `at`, and the position after it.
pub open spec fn read_u32(data: Seq<u8>, at: int) -> Option<(u32, int)> {
    if 0 <= at && at + 4 <= data.len() {
        Some((spec_u32_from_le_bytes(data.subrange(at, at + 4)), at + 4))
    } else {
        None
    }
}

/// A length-prefixed byte string at `at`, and the position after it.
pub open spec fn read_bytes(data: Seq<u8>, at: int) -> Option<(Seq<u8>, int)> {
    match read_u32(data, at) {
        Some((n, start)) => if start + n <= data.len() {
            Some((data.subrange(start, start + n), start + n))
        } else {
            None
        },
        None => None,
    }
}

/// Length-prefixed UTF-8 text at `at`, and the position after it.
pub open spec fn read_string(data: Seq<u8>, at: int) -> Option<(Seq<char>, int)> {
    match read_bytes(data, at) {
        Some((raw, next)) => if valid_utf8(raw) {
            Some((decode_utf8(raw), next))
        } else {
            None
        },
        None => None,
    }
}

/// An account identifier at `at`: text that has the shape of one.
pub open spec fn read_account_id(data: Seq<u8>, at: int) -> Option<(Seq<char>, int)> {
    match read_string(data, at) {
        Some((name, next)) => if valid_account_id(name) {
            Some((name, next))
        } else {
            None
        },
        None => None,
    }
}

/// An asset standard at `at`: a variant index from 0 to 5, where the last
/// variant carries its name.
pub open spec fn read_asset_standard(data: Seq<u8>, at: int) -> Option<(AssetStandardView, int)> {
    if 0 <= at < data.len() {
        let tag = data[at];
        if tag == 0 {
            Some((AssetStandardView::Native, at + 1))
        } else if tag == 1 {
            Some((AssetStandardView::ERC20, at + 1))
        } else if tag == 2 {
            Some((AssetStandardView::ERC721, at + 1))
        } else if tag == 3 {
            Some((AssetStandardView::ERC1155, at + 1))
        } else if tag == 4 {
            Some((AssetStandardView::SPL, at + 1))
        } else if tag == 5 {
            match read_string(data, at + 1) {
                Some((name, next)) => Some((AssetStandardView::Custom(name), next)),
                None => None,
            }
        } else {
            None
        }
    } else {
        None
    }
}

/// A canonical asset identifier at `at`: chain, contract, standard.
pub open spec fn read_asset(data: Seq<u8>, at: int) -> Option<(CanonicalAssetIdView, int)> {
    match read_string(data, at) {
        Some((source_chain_id, end1)) => match read_string(data, end1) {
            Some((source_contract, end2)) => match read_asset_standard(data, end2) {
                Some((asset_standard, end3)) => Some(
                    (CanonicalAssetIdView { source_chain_id, source_contract, asset_standard }, end3),
                ),
                None => None,
            },
            None => None,
        },
        None => None,
    }
}

/// A bridge payload at `at`: nonce, source chain, target chain, asset,
/// amount, receiver, source transaction hash.
pub open spec fn read_payload(data: Seq<u8>, at: int) -> Option<(BridgePayloadView, int)> {
    match read_u128(data, at) {
        Some((nonce, end1)) => match read_string(data, end1) {
            Some((source_chain, end2)) => match read_string(data, end2) {
                Some((target_chain, end3)) => match read_asset(data, end3) {
                    Some((asset, end4)) => match read_u128(data, end4) {
                        Some((amount, end5)) => match read_account_id(data, end5) {
                            Some((receiver, end6)) => match read_string(data, end6) {
                                Some((source_tx_hash, end7)) => Some(
                                    (
                                        BridgePayloadView {
                                            nonce,
                                            source_chain,
                                            target_chain,
                                            asset,
                                            amount,
                                            receiver,
                                            source_tx_hash,
                                        },
                                        end7,
                                    ),
                                ),
                                None => None,
                            },
                            None => None,
                        },
                        None => None,
                    },
                    None => None,
                },
                None => None,
            },
            None => None,
        },
        None => None,
    }
}

/// The payload that a buffer holds, if it holds exactly one.
pub open spec fn decode_payload_spec(data: Seq<u8>) -> Option<BridgePayloadView> {
    match read_payload(data, 0) {
        Some((payload, end)) => if end == data.len() {
            Some(payload)
        } else {
            None
        },
        None => None,
    }
}

/// A message at `at`: nonce, source chain, destination chain, source
/// contract, destination contract, payload bytes.
pub open spec fn read_message(data: Seq<u8>, at: int) -> Option<(XChainMessageView, int)> {
    match read_u128(data, at) {
        Some((nonce, end1)) => match read_string(data, end1) {
            Some((source_chain, end2)) => match read_string(data, end2) {
                Some((destination_chain, end3)) => match read_string(data, end3) {
                    Some((source_contract, end4)) => match read_string(data, end4) {
                        Some((destination_contract, end5)) => match read_bytes(data, end5) {
                            Some((payload, end6)) => Some(
                                (
                                    XChainMessageView {
                                        nonce,
                                        source_chain,
                                        destination_chain,
                                        source_contract,
                                        destination_contract,
                                        payload,
                                    },
                                    end6,
                                ),
                            ),
                            None => None,
                        },
                        None => None,
                    },
                    None => None,
                },
                None => None,
            },
            None => None,
        },
        None => None,
    }
}

/// The message that a buffer holds, if it holds exactly one.
pub open spec fn decode_message_spec(data: Seq<u8>) -> Option<XChainMessageView> {
    match read_message(data, 0) {
        Some((message, end)) => if end == data.len() {
            Some(message)
        } else {
            None
        },
        None => None,
    }
}

/// Reads a 128-bit integer at `at`.
fn take_u128(data: &[u8], at: usize) -> (r: Option<(u128, usize)>)
    requires
        at <= data@.len(),
    ensures
        match r {
            Some((v, next)) => read_u128(data@, at as int) == Some((v, next as int)) && next
                <= data@.len(),
            None => read_u128(data@, at as int) is None,
        },
{
    if data.len() - at < 16 {
        return None;
    }
    let v = u128_from_le_bytes(slice_subrange(data, at, at + 16));
    Some((v, at + 16))
}

/// Reads a 32-bit integer at `at`.
fn take_u32(data: &[u8], at: usize) -> (r: Option<(u32, usize)>)
    requires
        at <= data@.len(),
    ensures
        match r {
            Some((v, next)) => read_u32(data@, at as int) == Some((v, next as int)) && next
                <= data@.len(),
            None => read_u32(data@, at as int) is None,
        },
{
    if data.len() - at < 4 {
        return None;
    }
    let v = u32_from_le_bytes(slice_subrange(data, at, at + 4));
    Some((v, at + 4))
}

/// Reads a length-prefixed byte string at `at`.
fn take_bytes(data: &[u8], at: usize) -> (r: Option<(Vec<u8>, usize)>)
    requires
        at <= data@.len(),
    ensures
        match r {
            Some((v, next)) => read_bytes(data@, at as int) == Some((v@, next as int)) && next
                <= data@.len(),
            None => read_bytes(data@, at as int) is None,
        },
{
    match take_u32(data, at) {
        Some((n, start)) => {
            if data.len() - start < n as usize {
                return None;
            }
            let end = start + n as usize;
            Some((slice_to_vec(slice_subrange(data, start, end)), end))
        },
        None => None,
    }
}

/// Reads length-prefixed UTF-8 text at `at`.
fn take_string(data: &[u8], at: usize) -> (r: Option<(String, usize)>)
    requires
        at <= data@.len(),
    ensures
        match r {
            Some((v, next)) => read_string(data@, at as int) == Some((v@, next as int)) && next
                <= data@.len(),
            None => read_string(data@, at as int) is None,
        },
{
    match take_bytes(data, at) {
        Some((raw, next)) => {
            let ghost bytes = raw@;
            match string_from_utf8(raw) {
                Some(s) => {
                    proof {
                        vstd::utf8::encode_utf8_decode_utf8(s@);
                    }
                    Some((s, next))
                },
                None => None,
            }
        },
        None => None,
    }
}

/// Reads an account identifier at `at`.
fn take_account_id(data: &[u8], at: usize) -> (r: Option<(AccountId, usize)>)
    requires
        at <= data@.len(),
    ensures
        match r {
            Some((v, next)) => read_account_id(data@, at as int) == Some((v@, next as int))
                && next <= data@.len(),
            None => read_account_id(data@, at as int) is None,
        },
{
    match take_string(data, at) {
        Some((name, next)) => match AccountId::parse(name.as_str()) {
            Some(id) => Some((id, next)),
            None => None,
        },
        None => None,
    }
}

/// Reads an asset standard at `at`.
fn take_asset_standard(data: &[u8], at: usize) -> (r: Option<(AssetStandard, usize)>)
    requires
        at <= data@.len(),
    ensures
        match r {
            Some((v, next)) => read_asset_standard(data@, at as int) == Some((v@, next as int))
                && next <= data@.len(),
            None => read_asset_standard(data@, at as int) is None,
        },
{
    if at >= data.len() {
        return None;
    }
    let tag = data[at];
    if tag == 0 {
        Some((AssetStandard::Native, at + 1))
    } else if tag == 1 {
        Some((AssetStandard::ERC20, at + 1))
    } else if tag == 2 {
        Some((AssetStandard::ERC721, at + 1))
    } else if tag == 3 {
        Some((AssetStandard::ERC1155, at + 1))
    } else if tag == 4 {
        Some((AssetStandard::SPL, at + 1))
    } else if tag == 5 {
        match take_string(data, at + 1) {
            Some((name, next)) => Some((AssetStandard::Custom(name), next)),
            None => None,
        }
    } else {
        None
    }
}

/// Reads a canonical asset identifier at `at`.
fn take_asset(data: &[u8], at: usize) -> (r: Option<(CanonicalAssetId, usize)>)
    requires
        at <= data@.len(),
    ensures
        match r {
            Some((v, next)) => read_asset(data@, at as int) == Some((v@, next as int)) && next
                <= data@.len(),
            None => read_asset(data@, at as int) is None,
        },
{
    let (source_chain_id, end1) = match take_string(data, at) {
        Some(x) => x,
        None => { return None; },
    };
    let (source_contract, end2) = match take_string(data, end1) {
        Some(x) => x,
        None => { return None; },
    };
    let (asset_standard, end3) = match take_asset_standard(data, end2) {
        Some(x) => x,
        None => { return None; },
    };
    Some((CanonicalAssetId { source_chain_id, source_contract, asset_standard }, end3))
}

/// Decodes a bridge payload from the whole of `data`.
pub fn decode_payload(data: &[u8]) -> (r: Option<BridgePayload>)
    ensures
        match r {
            Some(payload) => decode_payload_spec(data@) == Some(payload@),
            None => decode_payload_spec(data@) is None,
        },
{
    let (nonce, end1) = match take_u128(data, 0) {
        Some(x) => x,
        None => { return None; },
    };
    let (source_chain, end2) = match take_string(data, end1) {
        Some(x) => x,
        None => { return None; },
    };
    let (target_chain, end3) = match take_string(data, end2) {
        Some(x) => x,
        None => { return None; },
    };
    let (asset, end4) = match take_asset(data, end3) {
        Some(x) => x,
        None => { return None; },
    };
    let (amount, end5) = match take_u128(data, end4) {
        Some(x) => x,
        None => { return None; },
    };
    let (receiver, end6) = match take_account_id(data, end5) {
        Some(x) => x,
        None => { return None; },
    };
    let (source_tx_hash, end7) = match take_string(data, end6) {
        Some(x) => x,
        None => { return None; },
    };
    if end7 != data.len() {
        return None;
    }
    Some(
        BridgePayload { nonce, source_chain, target_chain, asset, amount, receiver, source_tx_hash },
    )
}

/// Decodes a message from the whole of `data`.
pub fn decode_message(data: &[u8]) -> (r: Option<XChainMessage>)
    ensures
        match r {
            Some(message) => decode_message_spec(data@) == Some(message@),
            None => decode_message_spec(data@) is None,
        },
{
    let (nonce, end1) = match take_u128(data, 0) {
        Some(x) => x,
        None => { return None; },
    };
    let (source_chain, end2) = match take_string(data, end1) {
        Some(x) => x,
        None => { return None; },
    };
    let (destination_chain, end3) = match take_string(data, end2) {
        Some(x) => x,
        None => { return None; },
    };
    let (source_contract, end4) = match take_string(data, end3) {
        Some(x) => x,
        None => { return None; },
    };
    let (destination_contract, end5) = match take_string(data, end4) {
        Some(x) => x,
        None => { return None; },
    };
    let (payload, end6) = match take_bytes(data, end5) {
        Some(x) => x,
        None => { return None; },
    };
    if end6 != data.len() {
        return None;
    }
    Some(
        XChainMessage {
            nonce,
            source_chain,
            destination_chain,
            source_contract,
            destination_contract,
            payload,
        },
    )
}

} // verus!
