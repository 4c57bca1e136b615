//! The wire format stated the other way round: how a value is written.
//!
//! Decoding is the inverse of encoding.  Every payload that can be written
//! decodes to itself, and every buffer that decodes is the encoding of what
//! it decodes to, so no two buffers decode to the same payload.

use crate::account::valid_account_id;
use crate::codec::{
    decode_message_spec, decode_payload_spec, read_account_id, read_asset, read_asset_standard,
    read_bytes, read_message, read_payload, read_string, read_u128, read_u32,
};
use crate::types::{
    AssetStandardView, BridgePayloadView, CanonicalAssetIdView, XChainMessageView,
};
use vstd::bytes::{
    lemma_auto_spec_u128_to_from_le_bytes, lemma_auto_spec_u32_to_from_le_bytes,
    spec_u128_to_le_bytes, spec_u32_to_le_bytes,
};
use vstd::prelude::*;
use vstd::utf8::{
    decode_utf8, decode_utf8_encode_utf8, encode_utf8, encode_utf8_decode_utf8,
    encode_utf8_valid_utf8,
};

verus! {

/// A 128-bit integer: sixteen bytes, little-endian.
pub open spec fn write_u128(v: u128) -> Seq<u8> {
    spec_u128_to_le_bytes(v)
}

/// A byte string: its length as four bytes, little-endian, then the bytes.
pub open spec fn write_bytes(b: Seq<u8>) -> Seq<u8> {
    spec_u32_to_le_bytes(b.len() as u32) + b
}

/// Text: the byte string of its UTF-8 encoding.
pub open spec fn write_string(s: Seq<char>) -> Seq<u8> {
    write_bytes(encode_utf8(s))
}

/// An asset standard: its variant index, and for a custom standard its name.
pub open spec fn write_asset_standard(standard: AssetStandardView) -> Seq<u8> {
    match standard {
        AssetStandardView::Native => seq![0u8],
        AssetStandardView::ERC20 => seq![1u8],
        AssetStandardView::ERC721 => seq![2u8],
        AssetStandardView::ERC1155 => seq![3u8],
        AssetStandardView::SPL => seq![4u8],
        AssetStandardView::Custom(name) => seq![5u8] + write_string(name),
    }
}

/// A canonical asset identifier: chain, contract, standard.
pub open spec fn write_asset(asset: CanonicalAssetIdView) -> Seq<u8> {
    write_string(asset.source_chain_id) + write_string(asset.source_contract)
        + write_asset_standard(asset.asset_standard)
}

/// The encoding of a bridge payload.
pub open spec fn encode_payload_spec(p: BridgePayloadView) -> Seq<u8> {
    write_u128(p.nonce) + write_string(p.source_chain) + write_string(p.target_chain)
        + write_asset(p.asset) + write_u128(p.amount) + write_string(p.receiver) + write_string(
        p.source_tx_hash,
    )
}

/// The encoding of a message.
pub open spec fn encode_message_spec(m: XChainMessageView) -> Seq<u8> {
    write_u128(m.nonce) + write_string(m.source_chain) + write_string(m.destination_chain)
        + write_string(m.source_contract) + write_string(m.destination_contract) + write_bytes(
        m.payload,
    )
}

/// Text can be written if its encoding is short enough for the length
/// prefix.
pub open spec fn string_fits(s: Seq<char>) -> bool {
    encode_utf8(s).len() <= u32::MAX
}

/// A standard can be written if its name, where it has one, fits.
pub open spec fn standard_fits(standard: AssetStandardView) -> bool {
    match standard {
        AssetStandardView::Custom(name) => string_fits(name),
        _ => true,
    }
}

/// An asset identifier can be written if its texts fit.
pub open spec fn asset_fits(asset: CanonicalAssetIdView) -> bool {
    string_fits(asset.source_chain_id) && string_fits(asset.source_contract) && standard_fits(
        asset.asset_standard,
    )
}

/// A payload can be written if its texts fit and its receiver is an account
/// identifier.
pub open spec fn payload_fits(p: BridgePayloadView) -> bool {
    &&& string_fits(p.source_chain)
    &&& string_fits(p.target_chain)
    &&& asset_fits(p.asset)
    &&& valid_account_id(p.receiver)
    &&& string_fits(p.source_tx_hash)
}

/// A message can be written if its texts and its payload fit.
pub open spec fn message_fits(m: XChainMessageView) -> bool {
    &&& string_fits(m.source_chain)
    &&& string_fits(m.destination_chain)
    &&& string_fits(m.source_contract)
    &&& string_fits(m.destination_contract)
    &&& m.payload.len() <= u32::MAX
}

/// Reading where an integer was written, between any bytes before and
/// after, gives the integer back.
proof fn lemma_read_written_u128(pre: Seq<u8>, v: u128, post: Seq<u8>)
    ensures
        read_u128(pre + write_u128(v) + post, pre.len() as int) == Some(
            (v, (pre.len() + write_u128(v).len()) as int),
        ),
{
    lemma_auto_spec_u128_to_from_le_bytes();
    let data = pre + write_u128(v) + post;
    let at = pre.len() as int;
    assert(data.subrange(at, at + 16) =~= write_u128(v));
}

/// The same for a byte string.
proof fn lemma_read_written_bytes(pre: Seq<u8>, b: Seq<u8>, post: Seq<u8>)
    requires
        b.len() <= u32::MAX,
    ensures
        read_bytes(pre + write_bytes(b) + post, pre.len() as int) == Some(
            (b, (pre.len() + write_bytes(b).len()) as int),
        ),
{
    lemma_auto_spec_u32_to_from_le_bytes();
    let header = spec_u32_to_le_bytes(b.len() as u32);
    let data = pre + write_bytes(b) + post;
    let at = pre.len() as int;
    assert(data.subrange(at, at + 4) =~= header);
    assert(data.subrange(at + 4, at + 4 + b.len()) =~= b);
    assert(read_u32(data, at) == Some((b.len() as u32, at + 4)));
}

/// The same for text.
proof fn lemma_read_written_string(pre: Seq<u8>, s: Seq<char>, post: Seq<u8>)
    requires
        string_fits(s),
    ensures
        read_string(pre + write_string(s) + post, pre.len() as int) == Some(
            (s, (pre.len() + write_string(s).len()) as int),
        ),
{
    lemma_read_written_bytes(pre, encode_utf8(s), post);
    encode_utf8_valid_utf8(s);
    encode_utf8_decode_utf8(s);
}

/// The same for an asset standard.
proof fn lemma_read_written_standard(pre: Seq<u8>, standard: AssetStandardView, post: Seq<u8>)
    requires
        standard_fits(standard),
    ensures
        read_asset_standard(pre + write_asset_standard(standard) + post, pre.len() as int)
            == Some((standard, (pre.len() + write_asset_standard(standard).len()) as int)),
{
    let data = pre + write_asset_standard(standard) + post;
    assert(data[pre.len() as int] == write_asset_standard(standard)[0]);
    match standard {
        AssetStandardView::Custom(name) => {
            let tagged = pre + seq![5u8];
            assert(data =~= tagged + write_string(name) + post);
            lemma_read_written_string(tagged, name, post);
        },
        _ => {},
    }
}

/// The same for an asset identifier.
proof fn lemma_read_written_asset(pre: Seq<u8>, asset: CanonicalAssetIdView, post: Seq<u8>)
    requires
        asset_fits(asset),
    ensures
        read_asset(pre + write_asset(asset) + post, pre.len() as int) == Some(
            (asset, (pre.len() + write_asset(asset).len()) as int),
        ),
{
    let data = pre + write_asset(asset) + post;
    let w1 = write_string(asset.source_chain_id);
    let w2 = write_string(asset.source_contract);
    let w3 = write_asset_standard(asset.asset_standard);
    assert(data =~= pre + w1 + (w2 + w3 + post));
    lemma_read_written_string(pre, asset.source_chain_id, w2 + w3 + post);
    assert(data =~= (pre + w1) + w2 + (w3 + post));
    lemma_read_written_string(pre + w1, asset.source_contract, w3 + post);
    assert(data =~= (pre + w1 + w2) + w3 + post);
    lemma_read_written_standard(pre + w1 + w2, asset.asset_standard, post);
}

/// An account identifier is short ASCII text, so it can always be written.
proof fn lemma_account_id_fits(s: Seq<char>)
    requires
        valid_account_id(s),
    ensures
        string_fits(s),
{
    assert(vstd::utf8::is_ascii_chars(s)) by {
        assert forall|i: int| 0 <= i < s.len() implies (s[i] as nat) < 128 by {
            assert(crate::account::is_lower_alphanumeric(s[i]) || crate::account::is_separator(
                s[i],
            ));
        }
    }
    vstd::utf8::is_ascii_chars_encode_utf8(s);
}

/// The position after the first field of an encoded payload, and so on for
/// each field after it.
spec fn after_nonce(p: BridgePayloadView) -> int {
    write_u128(p.nonce).len() as int
}

spec fn after_source_chain(p: BridgePayloadView) -> int {
    after_nonce(p) + write_string(p.source_chain).len()
}

spec fn after_target_chain(p: BridgePayloadView) -> int {
    after_source_chain(p) + write_string(p.target_chain).len()
}

spec fn after_asset(p: BridgePayloadView) -> int {
    after_target_chain(p) + write_asset(p.asset).len()
}

spec fn after_amount(p: BridgePayloadView) -> int {
    after_asset(p) + write_u128(p.amount).len()
}

spec fn after_receiver(p: BridgePayloadView) -> int {
    after_amount(p) + write_string(p.receiver).len()
}

spec fn after_tx_hash(p: BridgePayloadView) -> int {
    after_receiver(p) + write_string(p.source_tx_hash).len()
}

/// The first four fields of an encoded payload read back.
proof fn lemma_payload_head_reads(p: BridgePayloadView)
    requires
        payload_fits(p),
    ensures
        read_u128(encode_payload_spec(p), 0) == Some((p.nonce, after_nonce(p))),
        read_string(encode_payload_spec(p), after_nonce(p)) == Some(
            (p.source_chain, after_source_chain(p)),
        ),
        read_string(encode_payload_spec(p), after_source_chain(p)) == Some(
            (p.target_chain, after_target_chain(p)),
        ),
        read_asset(encode_payload_spec(p), after_target_chain(p)) == Some(
            (p.asset, after_asset(p)),
        ),
{
    let data = encode_payload_spec(p);
    let none = Seq::<u8>::empty();
    let w1 = write_u128(p.nonce);
    let w2 = write_string(p.source_chain);
    let w3 = write_string(p.target_chain);
    let w4 = write_asset(p.asset);
    let rest = write_u128(p.amount) + write_string(p.receiver) + write_string(p.source_tx_hash);
    assert(read_u128(data, 0) == Some((p.nonce, after_nonce(p)))) by {
        assert(data =~= none + w1 + (w2 + w3 + w4 + rest));
        lemma_read_written_u128(none, p.nonce, w2 + w3 + w4 + rest);
    }
    assert(read_string(data, after_nonce(p)) == Some(
        (p.source_chain, after_source_chain(p)),
    )) by {
        assert(data =~= w1 + w2 + (w3 + w4 + rest));
        lemma_read_written_string(w1, p.source_chain, w3 + w4 + rest);
    }
    assert(read_string(data, after_source_chain(p)) == Some(
        (p.target_chain, after_target_chain(p)),
    )) by {
        assert(data =~= (w1 + w2) + w3 + (w4 + rest));
        lemma_read_written_string(w1 + w2, p.target_chain, w4 + rest);
    }
    assert(read_asset(data, after_target_chain(p)) == Some((p.asset, after_asset(p))))
        by {
        assert(data =~= (w1 + w2 + w3) + w4 + rest);
        lemma_read_written_asset(w1 + w2 + w3, p.asset, rest);
    }
}

/// The last three fields of an encoded payload read back, and nothing is
/// left over.
proof fn lemma_payload_tail_reads(p: BridgePayloadView)
    requires
        payload_fits(p),
    ensures
        read_u128(encode_payload_spec(p), after_asset(p)) == Some(
            (p.amount, after_amount(p)),
        ),
        read_account_id(encode_payload_spec(p), after_amount(p)) == Some(
            (p.receiver, after_receiver(p)),
        ),
        read_string(encode_payload_spec(p), after_receiver(p)) == Some(
            (p.source_tx_hash, after_tx_hash(p)),
        ),
        after_tx_hash(p) == encode_payload_spec(p).len(),
{
    let data = encode_payload_spec(p);
    let none = Seq::<u8>::empty();
    let head = write_u128(p.nonce) + write_string(p.source_chain) + write_string(p.target_chain)
        + write_asset(p.asset);
    let w5 = write_u128(p.amount);
    let w6 = write_string(p.receiver);
    let w7 = write_string(p.source_tx_hash);
    assert(head.len() == after_asset(p));
    assert(read_u128(data, after_asset(p)) == Some((p.amount, after_amount(p))))
        by {
        assert(data =~= head + w5 + (w6 + w7));
        lemma_read_written_u128(head, p.amount, w6 + w7);
    }
    assert(read_account_id(data, after_amount(p)) == Some(
        (p.receiver, after_receiver(p)),
    )) by {
        lemma_account_id_fits(p.receiver);
        assert(data =~= (head + w5) + w6 + w7);
        lemma_read_written_string(head + w5, p.receiver, w7);
    }
    assert(read_string(data, after_receiver(p)) == Some(
        (p.source_tx_hash, after_tx_hash(p)),
    )) by {
        assert(data =~= (head + w5 + w6) + w7 + none);
        lemma_read_written_string(head + w5 + w6, p.source_tx_hash, none);
    }
}

/// Every payload that can be written decodes to itself.
pub proof fn law_payload_decodes_to_itself(p: BridgePayloadView)
    requires
        payload_fits(p),
    ensures
        decode_payload_spec(encode_payload_spec(p)) == Some(p),
{
    lemma_payload_head_reads(p);
    lemma_payload_tail_reads(p);
}

/// Every message that can be written decodes to itself.
pub proof fn law_message_decodes_to_itself(m: XChainMessageView)
    requires
        message_fits(m),
    ensures
        decode_message_spec(encode_message_spec(m)) == Some(m),
{
    let data = encode_message_spec(m);
    let none = Seq::<u8>::empty();
    let w1 = write_u128(m.nonce);
    let w2 = write_string(m.source_chain);
    let w3 = write_string(m.destination_chain);
    let w4 = write_string(m.source_contract);
    let w5 = write_string(m.destination_contract);
    let w6 = write_bytes(m.payload);
    let end1 = w1.len() as int;
    let end2 = end1 + w2.len();
    let end3 = end2 + w3.len();
    let end4 = end3 + w4.len();
    let end5 = end4 + w5.len();
    let end6 = end5 + w6.len();
    assert(read_u128(data, 0) == Some((m.nonce, end1))) by {
        assert(data =~= none + w1 + (w2 + w3 + w4 + w5 + w6));
        lemma_read_written_u128(none, m.nonce, w2 + w3 + w4 + w5 + w6);
    }
    assert(read_string(data, end1) == Some((m.source_chain, end2))) by {
        assert(data =~= w1 + w2 + (w3 + w4 + w5 + w6));
        lemma_read_written_string(w1, m.source_chain, w3 + w4 + w5 + w6);
    }
    assert(read_string(data, end2) == Some((m.destination_chain, end3))) by {
        assert(data =~= (w1 + w2) + w3 + (w4 + w5 + w6));
        lemma_read_written_string(w1 + w2, m.destination_chain, w4 + w5 + w6);
    }
    assert(read_string(data, end3) == Some((m.source_contract, end4))) by {
        assert(data =~= (w1 + w2 + w3) + w4 + (w5 + w6));
        lemma_read_written_string(w1 + w2 + w3, m.source_contract, w5 + w6);
    }
    assert(read_string(data, end4) == Some((m.destination_contract, end5))) by {
        assert(data =~= (w1 + w2 + w3 + w4) + w5 + w6);
        lemma_read_written_string(w1 + w2 + w3 + w4, m.destination_contract, w6);
    }
    assert(read_bytes(data, end5) == Some((m.payload, end6))) by {
        assert(data =~= (w1 + w2 + w3 + w4 + w5) + w6 + none);
        lemma_read_written_bytes(w1 + w2 + w3 + w4 + w5, m.payload, none);
    }
    assert(end6 == data.len());
}

/// What an integer was read from is what writing it gives.
proof fn lemma_written_read_u128(data: Seq<u8>, at: int)
    requires
        read_u128(data, at) is Some,
    ensures
        ({
            let (v, next) = read_u128(data, at)->0;
            at <= next <= data.len() && data.subrange(at, next) == write_u128(v)
        }),
{
    lemma_auto_spec_u128_to_from_le_bytes();
}

/// The same for a byte string.
proof fn lemma_written_read_bytes(data: Seq<u8>, at: int)
    requires
        read_bytes(data, at) is Some,
    ensures
        ({
            let (b, next) = read_bytes(data, at)->0;
            at <= next <= data.len() && data.subrange(at, next) == write_bytes(b) && b.len()
                <= u32::MAX
        }),
{
    lemma_auto_spec_u32_to_from_le_bytes();
    let (b, next) = read_bytes(data, at)->0;
    let header = data.subrange(at, at + 4);
    assert(spec_u32_to_le_bytes(b.len() as u32) == header);
    assert(data.subrange(at, next) =~= header + b);
}

/// The same for text.
proof fn lemma_written_read_string(data: Seq<u8>, at: int)
    requires
        read_string(data, at) is Some,
    ensures
        ({
            let (s, next) = read_string(data, at)->0;
            at <= next <= data.len() && data.subrange(at, next) == write_string(s) && string_fits(
                s,
            )
        }),
{
    lemma_written_read_bytes(data, at);
    let (raw, next) = read_bytes(data, at)->0;
    decode_utf8_encode_utf8(raw);
}

/// The same for an asset standard.
proof fn lemma_written_read_standard(data: Seq<u8>, at: int)
    requires
        read_asset_standard(data, at) is Some,
    ensures
        ({
            let (standard, next) = read_asset_standard(data, at)->0;
            at <= next <= data.len() && data.subrange(at, next) == write_asset_standard(standard)
                && standard_fits(standard)
        }),
{
    let (standard, next) = read_asset_standard(data, at)->0;
    if data[at] == 5 {
        lemma_written_read_string(data, at + 1);
        assert(data.subrange(at, next) =~= seq![5u8] + data.subrange(at + 1, next));
    } else {
        assert(data.subrange(at, next) =~= seq![data[at]]);
    }
}

/// The same for an asset identifier.
proof fn lemma_written_read_asset(data: Seq<u8>, at: int)
    requires
        read_asset(data, at) is Some,
    ensures
        ({
            let (asset, next) = read_asset(data, at)->0;
            at <= next <= data.len() && data.subrange(at, next) == write_asset(asset)
                && asset_fits(asset)
        }),
{
    let (_, end1) = read_string(data, at)->0;
    let (_, end2) = read_string(data, end1)->0;
    let (_, end3) = read_asset_standard(data, end2)->0;
    lemma_written_read_string(data, at);
    lemma_written_read_string(data, end1);
    lemma_written_read_standard(data, end2);
    assert(data.subrange(at, end3) =~= data.subrange(at, end1) + data.subrange(end1, end2)
        + data.subrange(end2, end3));
}

/// Every buffer that decodes is the encoding of the payload it decodes to.
/// So a payload has one encoding only, and the digest of the proof data
/// tells payloads apart as well as it tells buffers apart.
pub proof fn law_decoded_payload_encodes_to_buffer(data: Seq<u8>)
    requires
        decode_payload_spec(data) is Some,
    ensures
        encode_payload_spec(decode_payload_spec(data)->0) == data,
        payload_fits(decode_payload_spec(data)->0),
{
    let (_, end1) = read_u128(data, 0)->0;
    let (_, end2) = read_string(data, end1)->0;
    let (_, end3) = read_string(data, end2)->0;
    let (_, end4) = read_asset(data, end3)->0;
    let (_, end5) = read_u128(data, end4)->0;
    let (_, end6) = read_string(data, end5)->0;
    let (_, end7) = read_string(data, end6)->0;
    lemma_written_read_u128(data, 0);
    lemma_written_read_string(data, end1);
    lemma_written_read_string(data, end2);
    lemma_written_read_asset(data, end3);
    lemma_written_read_u128(data, end4);
    lemma_written_read_string(data, end5);
    lemma_written_read_string(data, end6);
    assert(data =~= data.subrange(0, end1) + data.subrange(end1, end2) + data.subrange(end2, end3)
        + data.subrange(end3, end4) + data.subrange(end4, end5) + data.subrange(end5, end6) + data.subrange(
        end6,
        end7,
    ));
}

/// Every buffer that decodes is the encoding of the message it decodes to.
pub proof fn law_decoded_message_encodes_to_buffer(data: Seq<u8>)
    requires
        decode_message_spec(data) is Some,
    ensures
        encode_message_spec(decode_message_spec(data)->0) == data,
        message_fits(decode_message_spec(data)->0),
{
    let (_, end1) = read_u128(data, 0)->0;
    let (_, end2) = read_string(data, end1)->0;
    let (_, end3) = read_string(data, end2)->0;
    let (_, end4) = read_string(data, end3)->0;
    let (_, end5) = read_string(data, end4)->0;
    let (_, end6) = read_bytes(data, end5)->0;
    lemma_written_read_u128(data, 0);
    lemma_written_read_string(data, end1);
    lemma_written_read_string(data, end2);
    lemma_written_read_string(data, end3);
    lemma_written_read_string(data, end4);
    lemma_written_read_bytes(data, end5);
    assert(data =~= data.subrange(0, end1) + data.subrange(end1, end2) + data.subrange(end2, end3)
        + data.subrange(end3, end4) + data.subrange(end4, end5) + data.subrange(end5, end6));
}

} // verus!
