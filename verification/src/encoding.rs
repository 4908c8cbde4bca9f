//! The canonical bytes of a block, written by `bincode`.
//!
//! Integers are written in little-endian order at their full width. A string
//! is the number of its UTF-8 bytes, as a `u64`, and then those bytes. A
//! list is the number of its items, as a `u64`, and then the items. The
//! fields of a block, and of a transaction, follow one another with nothing
//! in between.

use crate::block::{Block, BlockView, Transaction, TransactionView};
use vstd::bytes::{
    lemma_auto_spec_u32_to_from_le_bytes, lemma_auto_spec_u64_to_from_le_bytes,
    spec_u32_to_le_bytes, spec_u64_to_le_bytes,
};
use vstd::prelude::*;
use vstd::utf8::encode_utf8;

verus! {

/// The bytes of a string: the count of its UTF-8 bytes, then the bytes.
pub open spec fn encoded_text(text: Seq<char>) -> Seq<u8> {
    spec_u64_to_le_bytes(encode_utf8(text).len() as u64) + encode_utf8(text)
}

/// The bytes of a transaction: its sender, its recipient, its amount.
pub open spec fn encoded_transaction(transaction: (Seq<char>, Seq<char>, u64)) -> Seq<u8> {
    encoded_text(transaction.0) + encoded_text(transaction.1) + spec_u64_to_le_bytes(
        transaction.2,
    )
}

/// The bytes of the fields of a block, taken in this order. The timestamp is
/// written in two's complement.
pub open spec fn encoded_fields(
    index: u32,
    timestamp: i64,
    transactions: Seq<(Seq<char>, Seq<char>, u64)>,
    proof: u64,
    previous_hash: Seq<char>,
) -> Seq<u8> {
    spec_u32_to_le_bytes(index) + spec_u64_to_le_bytes(timestamp as u64) + spec_u64_to_le_bytes(
        transactions.len() as u64,
    ) + transactions.map_values(
        |transaction: (Seq<char>, Seq<char>, u64)| encoded_transaction(transaction),
    ).flatten() + spec_u64_to_le_bytes(proof) + encoded_text(previous_hash)
}

/// Trusted: `bincode::serialize` with the limit `bincode::Infinite`, on the
/// tuple of its arguments.
///
/// The contract claims that the call yields the bytes that `encoded_fields`
/// states. `bincode` writes a tuple field by field, an integer through
/// `byteorder::LittleEndian`, a string as its byte count and its bytes, and a
/// vector as its length and its items. Without a limit `serialize` first
/// sizes the value and then writes it into a `Vec<u8>`; for integers, strings
/// and vectors of them no step of either pass can fail, so the `unwrap` does
/// not panic.
#[verifier::external_body]
fn bincode_serialize(
    index: u32,
    timestamp: i64,
    transactions: &Vec<(String, String, u64)>,
    proof: u64,
    previous_hash: &String,
) -> (bytes: Vec<u8>)
    ensures
        bytes@ == encoded_fields(
            index,
            timestamp,
            transactions.deep_view(),
            proof,
            previous_hash@,
        ),
{
    bincode::serialize(
        &(index, timestamp, transactions, proof, previous_hash),
        bincode::Infinite,
    ).unwrap()
}

/// A transaction as the encoder takes it.
pub open spec fn plain_transaction(transaction: TransactionView) -> (Seq<char>, Seq<char>, u64) {
    (transaction.sender, transaction.recipient, transaction.amount)
}

/// The canonical bytes of a block. Every field takes part.
pub open spec fn block_encoding(block: BlockView) -> Seq<u8> {
    encoded_fields(
        block.index,
        block.timestamp,
        block.transactions.map_values(|t: TransactionView| plain_transaction(t)),
        block.proof,
        block.previous_hash,
    )
}

/// Blocks with the same canonical bytes hold the same number of
/// transactions.
pub proof fn lemma_encoding_tells_the_count(a: BlockView, b: BlockView)
    requires
        a.transactions.len() <= u64::MAX,
        b.transactions.len() <= u64::MAX,
        block_encoding(a) == block_encoding(b),
    ensures
        a.transactions.len() == b.transactions.len(),
{
    lemma_auto_spec_u32_to_from_le_bytes();
    lemma_auto_spec_u64_to_from_le_bytes();
    let count_a = spec_u64_to_le_bytes(a.transactions.len() as u64);
    let count_b = spec_u64_to_le_bytes(b.transactions.len() as u64);
    assert(block_encoding(a).subrange(12, 20) =~= count_a);
    assert(block_encoding(b).subrange(12, 20) =~= count_b);
}

/// A block with one more transaction has other canonical bytes.
pub proof fn lemma_added_transaction_changes_bytes(block: BlockView, transaction: TransactionView)
    requires
        block.transactions.len() < u64::MAX,
    ensures
        block_encoding(block) != block_encoding(
            BlockView {
                index: block.index,
                timestamp: block.timestamp,
                transactions: block.transactions.push(transaction),
                proof: block.proof,
                previous_hash: block.previous_hash,
            },
        ),
{
    let longer = BlockView {
        index: block.index,
        timestamp: block.timestamp,
        transactions: block.transactions.push(transaction),
        proof: block.proof,
        previous_hash: block.previous_hash,
    };
    if block_encoding(block) == block_encoding(longer) {
        lemma_encoding_tells_the_count(block, longer);
    }
}

/// Writes the canonical bytes of `block`.
pub fn encode_block(block: &Block) -> (bytes: Vec<u8>)
    ensures
        bytes@ == block_encoding(block@),
{
    let mut plain: Vec<(String, String, u64)> = Vec::new();
    let mut i: usize = 0;
    while i < block.transactions.len()
        invariant
            i <= block.transactions.len(),
            plain.len() == i,
            forall|j: int|
                0 <= j < i ==> (#[trigger] plain@[j]).deep_view() == plain_transaction(
                    block.transactions[j]@,
                ),
        decreases block.transactions.len() - i,
    {
        let transaction: &Transaction = &block.transactions[i];
        plain.push((transaction.sender.clone(), transaction.recipient.clone(), transaction.amount));
        i += 1;
    }
    assert(plain.deep_view() =~= block@.transactions.map_values(
        |t: TransactionView| plain_transaction(t),
    ));
    bincode_serialize(block.index, block.timestamp, &plain, block.proof, &block.previous_hash)
}

} // verus!
