//! Artifact digests and development signatures (SHA-256, HMAC-SHA-256,
//! lowercase hex), as the update manager and release tooling use them.

use hmac::digest::InvalidLength;
use hmac::{Hmac, Mac};
use sha2::{Digest, Sha256};
use vstd::prelude::*;

verus! {

#[verifier::external_type_specification]
#[verifier::external_body]
pub struct ExInvalidLength(InvalidLength);

/// What `Sha256::digest` returns for some bytes.
pub uninterp spec fn sha256(data: Seq<u8>) -> Seq<u8>;

/// The HMAC-SHA-256 tag of `data` under `key`, as `Hmac<Sha256>` computes it.
pub uninterp spec fn hmac_sha256(key: Seq<u8>, data: Seq<u8>) -> Seq<u8>;

/// What `str::to_lowercase` returns for a string.
pub uninterp spec fn lowercase(s: Seq<char>) -> Seq<char>;

/// Whether every character of `s` is ASCII.
pub open spec fn all_ascii(s: Seq<char>) -> bool {
    forall|i: int| 0 <= i < s.len() ==> ((#[trigger] s[i]) as u32) < 128
}

/// An ASCII character in lower case: `A`–`Z` become `a`–`z`, every other
/// character stays.
pub open spec fn ascii_lower_char(c: char) -> char {
    if 'A' <= c && c <= 'Z' {
        (c as u32 + 32) as char
    } else {
        c
    }
}

/// ASCII text in lower case.
pub open spec fn ascii_lower(s: Seq<char>) -> Seq<char> {
    s.map_values(|c: char| ascii_lower_char(c))
}

/// Text in lower case: for ASCII text the ASCII mapping, otherwise
/// [`lowercase`].
pub open spec fn text_lowercase(s: Seq<char>) -> Seq<char> {
    if all_ascii(s) {
        ascii_lower(s)
    } else {
        lowercase(s)
    }
}

/// The lowercase hex digit of a nibble.
pub open spec fn hex_digit(n: u8) -> char {
    if n < 10 {
        ('0' as u8 + n) as char
    } else {
        ('a' as u8 + (n - 10)) as char
    }
}

/// Lowercase hex encoding: two digits per byte, high nibble first.
pub open spec fn hex_lower(data: Seq<u8>) -> Seq<char>
    decreases data.len(),
{
    if data.len() == 0 {
        Seq::empty()
    } else {
        hex_lower(data.drop_last()) + seq![hex_digit(data.last() / 16), hex_digit(data.last() % 16)]
    }
}

/// `Sha256::digest`: the 32-byte SHA-256 digest of `data`, named
/// [`sha256`].
#[verifier::external_body]
pub(crate) fn sha256_digest(data: &[u8]) -> (r: Vec<u8>)
    ensures
        r@ == sha256(data@),
        r@.len() == 32,
{
    Sha256::digest(data).to_vec()
}

/// HMAC-SHA-256 of `data` under `key` (`Hmac::<Sha256>::new_from_slice`,
/// `chain_update`, `finalize`), named [`hmac_sha256`]. HMAC accepts a key
/// of any length: the crate's `new_from_slice` for `Hmac` always returns
/// `Ok`, which is stated.
#[verifier::external_body]
pub(crate) fn hmac_sha256_tag(key: &[u8], data: &[u8]) -> (r: Result<Vec<u8>, InvalidLength>)
    ensures
        r is Ok,
        r->Ok_0@ == hmac_sha256(key@, data@),
{
    let mac = <Hmac<Sha256> as Mac>::new_from_slice(key)?;
    Ok(mac.chain_update(data).finalize().into_bytes().to_vec())
}

/// `hex::encode`: lowercase hex, two digits per byte, high nibble first
/// (the crate's `HEX_CHARS_LOWER` table).
#[verifier::external_body]
pub(crate) fn hex_encode(data: &[u8]) -> (r: String)
    ensures
        r@ == hex_lower(data@),
{
    hex::encode(data)
}

/// `str::to_lowercase`, named [`lowercase`]. Lower case is the Unicode
/// lowercase mapping; on ASCII text that maps `A`–`Z` to `a`–`z` and keeps
/// every other character, which is stated.
#[verifier::external_body]
pub(crate) fn to_lowercase(s: &str) -> (r: String)
    ensures
        r@ == lowercase(s@),
        all_ascii(s@) ==> r@ == ascii_lower(s@),
{
    s.to_lowercase()
}

/// The SHA-256 digest of an artifact in lowercase hex.
pub open spec fn artifact_digest_hex(data: Seq<u8>) -> Seq<char> {
    hex_lower(sha256(data))
}

/// The development signature of an artifact in lowercase hex.
pub open spec fn artifact_signature_hex(key: Seq<u8>, data: Seq<u8>) -> Seq<char> {
    hex_lower(hmac_sha256(key, data))
}

/// Mint a development manifest's digest and signature for `bytes`: the
/// lowercase hex SHA-256 digest and the lowercase hex HMAC-SHA-256 tag
/// under `key`.
pub fn dev_sign(bytes: &[u8], key: &[u8]) -> (r: (String, String))
    ensures
        r.0@ == artifact_digest_hex(bytes@),
        r.1@ == artifact_signature_hex(key@, bytes@),
{
    let digest = sha256_digest(bytes);
    let tag = match hmac_sha256_tag(key, bytes) {
        Ok(t) => t,
        Err(_) => Vec::new(),
    };
    (hex_encode(digest.as_slice()), hex_encode(tag.as_slice()))
}

/// Lowercase hex digits: `0`–`9` and `a`–`f`.
pub open spec fn is_lower_hex_digit(c: char) -> bool {
    ('0' <= c && c <= '9') || ('a' <= c && c <= 'f')
}

proof fn lemma_hex_digit(n: u8)
    requires
        n < 16,
    ensures
        is_lower_hex_digit(hex_digit(n)),
{
}

/// Lowercase hex text is already in lower case: lowering it changes
/// nothing.
pub proof fn lemma_hex_is_lowercase(data: Seq<u8>)
    ensures
        forall|i: int| 0 <= i < hex_lower(data).len() ==> is_lower_hex_digit(#[trigger] hex_lower(data)[i]),
        text_lowercase(hex_lower(data)) == hex_lower(data),
    decreases data.len(),
{
    let h = hex_lower(data);
    if data.len() > 0 {
        lemma_hex_is_lowercase(data.drop_last());
        let pre = hex_lower(data.drop_last());
        lemma_hex_digit(data.last() / 16);
        lemma_hex_digit(data.last() % 16);
        assert forall|i: int| 0 <= i < h.len() implies is_lower_hex_digit(#[trigger] h[i]) by {
            if i < pre.len() {
                assert(h[i] == pre[i]);
            }
        }
    }
    assert forall|i: int| 0 <= i < h.len() implies ((#[trigger] h[i]) as u32) < 128 by {
        assert(is_lower_hex_digit(h[i]));
    }
    assert(ascii_lower(h) =~= h) by {
        assert forall|i: int| 0 <= i < h.len() implies ascii_lower(h)[i] == h[i] by {
            assert(is_lower_hex_digit(h[i]));
        }
    }
}

} // verus!
