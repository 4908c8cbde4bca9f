//! Content hashes of blocks, and what makes a chain of them valid.

use crate::block::{chain_view, Block, BlockView};
use crate::blockchain::Blockchain;
use crate::encoding::{block_encoding, encode_block};
use crate::pow::{accepts, lemma_accepts_symmetric};
use crate::sha256::{hex_digest, sha256_hex, SHA256_HEX_LEN, SHA256_INPUT_LIMIT};
use vstd::prelude::*;

verus! {

/// The content hash of a block: the SHA-256 digest, in hexadecimal, of its
/// canonical bytes. A block whose bytes are too long to be digested has none.
pub open spec fn content_hash(block: BlockView) -> Option<Seq<char>> {
    if block_encoding(block).len() < SHA256_INPUT_LIMIT {
        Some(sha256_hex(block_encoding(block)))
    } else {
        None
    }
}

/// Whether `next` may follow `block` in a chain: it names the content hash of
/// `block`, and the seal of `block` is accepted after its own.
pub open spec fn links(block: BlockView, next: BlockView) -> bool {
    &&& content_hash(block) == Some(next.previous_hash)
    &&& accepts(next.proof, block.proof)
}

/// Whether the block at `i` and the one after it are linked.
pub open spec fn linked_at(chain: Seq<BlockView>, i: int) -> bool {
    links(chain[i], chain[i + 1])
}

/// Whether every block of `chain` but the last is linked to the one after it.
/// A chain of fewer than two blocks is valid.
pub open spec fn valid_chain(chain: Seq<BlockView>) -> bool {
    forall|i: int| 0 <= i < chain.len() - 1 ==> #[trigger] linked_at(chain, i)
}

/// Whether every block of `chain` but the first names a string that has the
/// length of a digest.
pub open spec fn names_digests(chain: Seq<BlockView>) -> bool {
    forall|i: int|
        1 <= i < chain.len() ==> (#[trigger] chain[i]).previous_hash.len() == SHA256_HEX_LEN
}

impl Blockchain {
    /// The content hash of `block`, 64 characters long, or `None` where it
    /// has none.
    pub fn hash(block: &Block) -> (digest: Option<String>)
        ensures
            match digest {
                Some(d) => content_hash(block@) == Some(d@) && d@.len() == SHA256_HEX_LEN,
                None => content_hash(block@) is None,
            },
    {
        let bytes: Vec<u8> = encode_block(block);
        hex_digest(bytes.as_slice())
    }

    /// Whether `chain` is valid. In a chain that is found valid, every block
    /// but the first names a string of 64 characters, as every content hash
    /// is one.
    pub fn validate_chain(chain: &Vec<Block>) -> (valid: bool)
        ensures
            valid == valid_chain(chain_view(chain@)),
            valid ==> names_digests(chain_view(chain@)),
    {
        let ghost blocks = chain_view(chain@);
        let mut i: usize = 1;
        while i < chain.len()
            invariant
                1 <= i,
                blocks == chain_view(chain@),
                forall|j: int| 0 <= j < i - 1 ==> #[trigger] linked_at(blocks, j),
                forall|j: int|
                    1 <= j < i && j < blocks.len() ==> (#[trigger] blocks[j]).previous_hash.len()
                        == SHA256_HEX_LEN,
            decreases chain.len() - i,
        {
            let hash_matches = match Blockchain::hash(&chain[i - 1]) {
                Some(digest) => digest == chain[i].previous_hash,
                None => false,
            };
            if !(hash_matches && Blockchain::valid_proof(chain[i].proof, chain[i - 1].proof)) {
                assert(!linked_at(blocks, i - 1));
                return false;
            }
            i += 1;
        }
        true
    }
}

/// A chain of a single block is valid.
pub proof fn lemma_single_block_valid(chain: Seq<BlockView>)
    requires
        chain.len() <= 1,
    ensures
        valid_chain(chain),
{
}

/// A valid chain stays valid when a block that links to its last block is
/// appended.
pub proof fn lemma_push_keeps_valid(chain: Seq<BlockView>, next: BlockView)
    requires
        valid_chain(chain),
        chain.len() > 0 ==> links(chain.last(), next),
    ensures
        valid_chain(chain.push(next)),
{
    let longer = chain.push(next);
    assert forall|i: int| 0 <= i < longer.len() - 1 implies #[trigger] linked_at(longer, i) by {
        if i < chain.len() - 1 {
            assert(linked_at(chain, i));
        }
    }
}

/// A block that names the content hash of `last` and carries a seal that is
/// accepted after the seal of `last` links to it.
pub proof fn lemma_sealed_block_links(last: BlockView, next: BlockView)
    requires
        content_hash(last) == Some(next.previous_hash),
        accepts(last.proof, next.proof),
    ensures
        links(last, next),
{
    lemma_accepts_symmetric(last.proof, next.proof);
}

/// Changing the hash that a block but the first names, to anything but the
/// content hash of the block before it, makes a chain invalid.
pub proof fn lemma_changed_hash_invalid(chain: Seq<BlockView>, i: int, hash: Seq<char>)
    requires
        1 <= i < chain.len(),
        content_hash(chain[i - 1]) != Some(hash),
    ensures
        !valid_chain(
            chain.update(
                i,
                BlockView {
                    index: chain[i].index,
                    timestamp: chain[i].timestamp,
                    transactions: chain[i].transactions,
                    proof: chain[i].proof,
                    previous_hash: hash,
                },
            ),
        ),
{
    let changed = chain.update(
        i,
        BlockView {
            index: chain[i].index,
            timestamp: chain[i].timestamp,
            transactions: chain[i].transactions,
            proof: chain[i].proof,
            previous_hash: hash,
        },
    );
    assert(!linked_at(changed, i - 1));
}

/// Changing the seal of a block, to one that the seal of the block before it
/// or of the block after it does not accept, makes a chain invalid.
pub proof fn lemma_changed_seal_invalid(chain: Seq<BlockView>, i: int, seal: u64)
    requires
        0 <= i < chain.len(),
        (i >= 1 && !accepts(seal, chain[i - 1].proof)) || (i + 1 < chain.len() && !accepts(
            chain[i + 1].proof,
            seal,
        )),
    ensures
        !valid_chain(
            chain.update(
                i,
                BlockView {
                    index: chain[i].index,
                    timestamp: chain[i].timestamp,
                    transactions: chain[i].transactions,
                    proof: seal,
                    previous_hash: chain[i].previous_hash,
                },
            ),
        ),
{
    let changed = chain.update(
        i,
        BlockView {
            index: chain[i].index,
            timestamp: chain[i].timestamp,
            transactions: chain[i].transactions,
            proof: seal,
            previous_hash: chain[i].previous_hash,
        },
    );
    if i >= 1 && !accepts(seal, chain[i - 1].proof) {
        assert(!linked_at(changed, i - 1));
    } else {
        assert(!linked_at(changed, i));
    }
}

/// Blocks with the same content have the same content hash.
pub proof fn lemma_hash_deterministic(a: Block, b: Block)
    requires
        a@ == b@,
    ensures
        content_hash(a@) == content_hash(b@),
{
}

} // verus!
