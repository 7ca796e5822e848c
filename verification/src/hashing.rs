//! Cryptographic hashing and hex encoding: trusted wrappers around the
//! outside digest and hex crates, the exact specification of lowercase hex
//! encoding, and the one-way API-key hashing function.

use sha2::Digest;
use vstd::prelude::*;
use vstd::string::StrSliceExecFns;
use vstd::utf8::encode_utf8;

verus! {

/// The SHA-256 digest of a byte sequence. The digest has no short
/// mathematical statement, so it is only named here; the wrapper below ties
/// the name to the outside implementation.
pub uninterp spec fn sha256_of(data: Seq<u8>) -> Seq<u8>;

/// Relies on sha2::Sha256 (through the Digest trait): the digest is 32 bytes
/// long and depends on the input bytes alone.
#[verifier::external_body]
pub(crate) fn sha256(data: &[u8]) -> (r: Vec<u8>)
    ensures
        r@ == sha256_of(data@),
        r@.len() == 32,
{
    let mut hasher = sha2::Sha256::new();
    hasher.update(data);
    hasher.finalize().to_vec()
}

/// Relies on sha2::Sha256: its output size, as reported through the Digest
/// trait, is 32 bytes.
#[verifier::external_body]
pub(crate) fn sha256_output_size() -> (n: usize)
    ensures
        n == 32,
{
    <sha2::Sha256 as sha2::Digest>::output_size()
}

/// The sixteen lowercase hex digits, in value order.
pub open spec fn hex_digits() -> Seq<char> {
    seq!['0', '1', '2', '3', '4', '5', '6', '7', '8', '9', 'a', 'b', 'c', 'd', 'e', 'f']
}

/// Lowercase hex encoding of a byte sequence: each byte becomes two digits,
/// high nibble first.
pub open spec fn hex_of(data: Seq<u8>) -> Seq<char>
    decreases data.len(),
{
    if data.len() == 0 {
        Seq::empty()
    } else {
        seq![
            hex_digits()[(data.first() / 16) as int],
            hex_digits()[(data.first() % 16) as int],
        ] + hex_of(data.drop_first())
    }
}

/// Hex encoding doubles the length.
pub proof fn lemma_hex_of_len(data: Seq<u8>)
    ensures
        hex_of(data).len() == 2 * data.len(),
    decreases data.len(),
{
    if data.len() > 0 {
        lemma_hex_of_len(data.drop_first());
    }
}

/// Every character of a hex encoding is a lowercase hex digit.
pub proof fn lemma_hex_of_digits(data: Seq<u8>)
    ensures
        forall|i: int| 0 <= i < hex_of(data).len() ==> hex_digits().contains(#[trigger] hex_of(data)[i]),
    decreases data.len(),
{
    if data.len() > 0 {
        lemma_hex_of_digits(data.drop_first());
        assert(hex_digits().contains(hex_of(data)[0])) by {
            assert(hex_digits()[(data.first() / 16) as int] == hex_of(data)[0]);
        }
        assert(hex_digits().contains(hex_of(data)[1])) by {
            assert(hex_digits()[(data.first() % 16) as int] == hex_of(data)[1]);
        }
        assert forall|i: int| 2 <= i < hex_of(data).len() implies hex_digits().contains(
            #[trigger] hex_of(data)[i],
        ) by {
            assert(hex_of(data)[i] == hex_of(data.drop_first())[i - 2]);
        }
    }
}

/// Relies on base16ct::lower::encode_string: each input byte becomes two
/// lowercase hex digits, high nibble first. The requires keeps the input
/// short enough that the outside function cannot panic computing the
/// doubled length.
#[verifier::external_body]
pub(crate) fn hex_lower(data: &[u8]) -> (r: String)
    requires
        data@.len() <= usize::MAX / 2,
    ensures
        r@ == hex_of(data@),
{
    base16ct::lower::encode_string(data)
}

/// The hash under which an API key is stored and looked up: SHA-256 over the
/// UTF-8 bytes of `"ambient"` followed by the key, hex-encoded lowercase.
pub open spec fn spec_hash_api_key(api_key: Seq<char>) -> Seq<char> {
    hex_of(sha256_of(encode_utf8("ambient"@) + encode_utf8(api_key)))
}

/// Hash an API key for storage. The raw key is never stored; this digest is
/// both the stored lookup key and the externally visible identity. The
/// result is pinned to a function of the key alone (so equal keys always
/// hash alike) and is 64 lowercase hex characters.
pub fn hash_api_key(api_key: &str) -> (r: String)
    ensures
        r@ == spec_hash_api_key(api_key@),
        r@.len() == 64,
        forall|i: int| 0 <= i < r@.len() ==> hex_digits().contains(#[trigger] r@[i]),
{
    let mut msg = "ambient".as_bytes_vec();
    let mut key_bytes = api_key.as_bytes_vec();
    msg.append(&mut key_bytes);
    let digest = sha256(msg.as_slice());
    proof {
        lemma_hex_of_len(digest@);
        lemma_hex_of_digits(digest@);
    }
    hex_lower(digest.as_slice())
}

} // verus!
