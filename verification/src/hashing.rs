//! SHA-256 digests and their hexadecimal rendering.

use vstd::prelude::*;
use vstd::slice::slice_subrange;

verus! {

/// Length of a SHA-256 digest in bytes.
pub const DIGEST_LEN: usize = 32;

/// The SHA-256 digest of a byte string, as `near_sdk::env::sha256` computes it.
pub uninterp spec fn sha256_digest(data: Seq<u8>) -> Seq<u8>;

/// Calls `near_sdk::env::sha256`.  The digest depends on the input bytes
/// alone and is always thirty-two bytes long: the function copies a
/// `[u8; 32]` into the vector it returns.
#[verifier::external_body]
pub(crate) fn sha256(data: &[u8]) -> (digest: Vec<u8>)
    ensures
        digest@ == sha256_digest(data@),
        digest@.len() == DIGEST_LEN,
{
    near_sdk::env::sha256(data)
}

/// The lowercase hexadecimal digit for a value below sixteen.
pub open spec fn hex_digit(n: int) -> char
    recommends
        0 <= n < 16,
{
    if n < 10 {
        ((n + 48) as u8) as char
    } else {
        ((n + 87) as u8) as char
    }
}

/// Lowercase hexadecimal text of a byte string: two digits per byte, the
/// high half first.
pub open spec fn hex_string(data: Seq<u8>) -> Seq<char> {
    Seq::new(
        2 * data.len(),
        |i: int|
            if i % 2 == 0 {
                hex_digit(data[i / 2] as int / 16)
            } else {
                hex_digit(data[i / 2] as int % 16)
            },
    )
}

/// Calls `hex::encode`, which writes each byte as two lowercase hexadecimal
/// digits, the high half first.
#[verifier::external_body]
pub(crate) fn hex_encode(data: &[u8]) -> (text: String)
    ensures
        text@ == hex_string(data@),
{
    hex::encode(data)
}

/// The hexadecimal text of a prefix is a prefix of the hexadecimal text.
pub proof fn lemma_hex_string_prefix(data: Seq<u8>, n: int)
    requires
        0 <= n <= data.len(),
    ensures
        hex_string(data.subrange(0, n)) == hex_string(data).subrange(0, 2 * n),
{
    assert(hex_string(data.subrange(0, n)) =~= hex_string(data).subrange(0, 2 * n));
}

/// Every character of a hexadecimal text is a digit or one of `a` to `f`.
pub proof fn lemma_hex_string_chars(data: Seq<u8>)
    ensures
        hex_string(data).len() == 2 * data.len(),
        forall|i: int|
            0 <= i < hex_string(data).len() ==> {
                let c = #[trigger] hex_string(data)[i];
                ('0' <= c && c <= '9') || ('a' <= c && c <= 'f')
            },
{
    assert forall|i: int| 0 <= i < hex_string(data).len() implies {
        let c = #[trigger] hex_string(data)[i];
        ('0' <= c && c <= '9') || ('a' <= c && c <= 'f')
    } by {
        let b = data[i / 2] as int;
        assert(0 <= b / 16 < 16);
        assert(0 <= b % 16 < 16);
    }
}

/// The first `2 * n` hexadecimal digits of the SHA-256 digest of `data`.
pub fn sha256_hex_prefix(data: &[u8], n: usize) -> (text: String)
    requires
        n <= DIGEST_LEN,
    ensures
        text@ == hex_string(sha256_digest(data@)).subrange(0, 2 * n),
        sha256_digest(data@).len() == DIGEST_LEN,
{
    let digest = sha256(data);
    proof {
        lemma_hex_string_prefix(digest@, n as int);
    }
    hex_encode(slice_subrange(digest.as_slice(), 0, n))
}

} // verus!
