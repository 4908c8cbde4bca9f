//! SHA-256 digests, computed by the `crypto` crate. The verifier knows a
//! digest by name, and knows its length.

use crypto::digest::Digest;
use crypto::sha2::Sha256;
use vstd::prelude::*;

verus! {

/// The lower-case hexadecimal SHA-256 digest of `data`.
pub uninterp spec fn sha256_hex(data: Seq<u8>) -> Seq<char>;

/// The number of characters of a digest: two for each of its 32 bytes.
pub const SHA256_HEX_LEN: usize = 64;

/// Inputs of this many bytes or more cannot be digested: their length in bits
/// does not fit the 64-bit counter of SHA-256.
pub const SHA256_INPUT_LIMIT: u64 = 0x2000_0000_0000_0000;

/// Trusted: `crypto::sha2::Sha256::new`, then `Digest::input` and
/// `Digest::result_str` on the fresh hasher.
///
/// The contract claims that the string handed back is `sha256_hex` of the
/// input, a function of the bytes alone, and that it has 64 characters: the
/// digest has 256 bits, and each byte is written as two characters. `input`
/// panics once the bit count overflows `u64`, which `requires` rules out.
#[verifier::external_body]
fn sha256_hex_of(data: &[u8]) -> (digest: String)
    requires
        data@.len() < SHA256_INPUT_LIMIT,
    ensures
        digest@ == sha256_hex(data@),
        digest@.len() == SHA256_HEX_LEN,
{
    let mut hasher = Sha256::new();
    hasher.input(data);
    hasher.result_str()
}

/// The hexadecimal SHA-256 digest of `data`, 64 characters long, or `None`
/// where `data` is too long to be digested.
pub fn hex_digest(data: &[u8]) -> (digest: Option<String>)
    ensures
        match digest {
            Some(d) => {
                &&& data@.len() < SHA256_INPUT_LIMIT
                &&& d@ == sha256_hex(data@)
                &&& d@.len() == SHA256_HEX_LEN
            },
            None => data@.len() >= SHA256_INPUT_LIMIT,
        },
{
    if (data.len() as u64) < SHA256_INPUT_LIMIT {
        Some(sha256_hex_of(data))
    } else {
        None
    }
}

} // verus!
