//! The proof of work that seals a block.
//!
//! A seal is checked on the product of itself and the seal before it, taken
//! modulo 2^64 and written in decimal. This is the multiplicative encoding; a
//! chain sealed under the other encoding in use, the two seals written one
//! after the other, does not validate here, nor the other way round.

use crate::blockchain::Blockchain;
use crate::decimal::{decimal_digits, to_decimal};
use crate::sha256::{hex_digest, sha256_hex};
use vstd::prelude::*;

verus! {

/// The number of `0` characters that the digest of a seal's work ends with.
pub const DIFFICULTY: usize = 4;

/// The bytes whose digest decides whether `proof` seals a block after one
/// sealed with `last_proof`: the product of the two, modulo 2^64, in decimal.
pub open spec fn work_input(last_proof: u64, proof: u64) -> Seq<u8> {
    decimal_digits(((last_proof as nat * proof as nat) % 0x1_0000_0000_0000_0000) as nat)
}

/// Whether `digest` ends with `DIFFICULTY` characters `0`.
pub open spec fn ends_in_zeros(digest: Seq<char>) -> bool {
    &&& digest.len() >= DIFFICULTY
    &&& forall|i: int| digest.len() - DIFFICULTY <= i < digest.len() ==> digest[i] == '0'
}

/// Whether `proof` is accepted as the seal after `last_proof`.
pub open spec fn accepts(last_proof: u64, proof: u64) -> bool {
    ends_in_zeros(sha256_hex(work_input(last_proof, proof)))
}

/// Whether `proof` is the least seal that is accepted after `last_proof`.
pub open spec fn is_first_accepted(last_proof: u64, proof: u64) -> bool {
    &&& accepts(last_proof, proof)
    &&& forall|candidate: u64| candidate < proof ==> !accepts(last_proof, candidate)
}

/// Whether no seal at all is accepted after `last_proof`.
pub open spec fn none_accepted(last_proof: u64) -> bool {
    forall|candidate: u64| !accepts(last_proof, candidate)
}

/// Acceptance does not depend on which of the two seals came first.
pub proof fn lemma_accepts_symmetric(a: u64, b: u64)
    ensures
        accepts(a, b) == accepts(b, a),
{
}

/// After `last_proof`, at most one seal is the first accepted one.
pub proof fn lemma_first_accepted_unique(last_proof: u64, p: u64, q: u64)
    requires
        is_first_accepted(last_proof, p),
        is_first_accepted(last_proof, q),
    ensures
        p == q,
{
}

/// Whether `digest` ends with `DIFFICULTY` characters `0`.
pub fn meets_difficulty(digest: &str) -> (met: bool)
    ensures
        met == ends_in_zeros(digest@),
{
    let len: usize = digest.unicode_len();
    if len < DIFFICULTY {
        return false;
    }
    let mut i: usize = len - DIFFICULTY;
    while i < len
        invariant
            len == digest@.len(),
            len - DIFFICULTY <= i <= len,
            forall|j: int| len - DIFFICULTY <= j < i ==> digest@[j] == '0',
        decreases len - i,
    {
        if digest.get_char(i) != '0' {
            return false;
        }
        i += 1;
    }
    true
}

impl Blockchain {
    /// Whether `proof` is accepted as the seal after `last_proof`.
    pub fn valid_proof(last_proof: u64, proof: u64) -> (valid: bool)
        ensures
            valid == accepts(last_proof, proof),
    {
        let guess: Vec<u8> = to_decimal(last_proof.wrapping_mul(proof));
        match hex_digest(guess.as_slice()) {
            Some(digest) => meets_difficulty(digest.as_str()),
            None => false,
        }
    }

    /// Searches the seals from 0 upwards for the first that is accepted after
    /// `last_proof`. `None` says that no `u64` is.
    pub fn proof_of_work(last_proof: u64) -> (seal: Option<u64>)
        ensures
            match seal {
                Some(p) => is_first_accepted(last_proof, p),
                None => none_accepted(last_proof),
            },
    {
        let mut candidate: u64 = 0;
        loop
            invariant
                forall|c: u64| c < candidate ==> !accepts(last_proof, c),
            decreases u64::MAX - candidate,
        {
            if Blockchain::valid_proof(last_proof, candidate) {
                return Some(candidate);
            }
            if candidate == u64::MAX {
                return None;
            }
            candidate += 1;
        }
    }
}

} // verus!
