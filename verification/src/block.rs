//! Transactions and blocks, and what they are to the specifications.

use vstd::prelude::*;

verus! {

/// A chain of blocks, the genesis block first.
pub type Chain = Vec<Block>;

/// A transfer between two parties, named by strings.
#[derive(Debug)]
pub struct Transaction {
    pub sender: String,
    pub recipient: String,
    pub amount: u64,
}

/// A transaction as the specifications see it.
#[verifier::ext_equal]
pub struct TransactionView {
    pub sender: Seq<char>,
    pub recipient: Seq<char>,
    pub amount: u64,
}

impl View for Transaction {
    type V = TransactionView;

    open spec fn view(&self) -> TransactionView {
        TransactionView { sender: self.sender@, recipient: self.recipient@, amount: self.amount }
    }
}

impl Transaction {
    /// A transfer of `amount` from `sender` to `recipient`.
    pub fn new(sender: String, recipient: String, amount: u64) -> (transaction: Transaction)
        ensures
            transaction@ == (TransactionView {
                sender: sender@,
                recipient: recipient@,
                amount,
            }),
    {
        Transaction { sender, recipient, amount }
    }
}

impl Clone for Transaction {
    fn clone(&self) -> (copy: Self)
        ensures
            copy@ == self@,
    {
        Transaction {
            sender: self.sender.clone(),
            recipient: self.recipient.clone(),
            amount: self.amount,
        }
    }
}

/// The views of a sequence of transactions, in order.
pub open spec fn transaction_views(transactions: Seq<Transaction>) -> Seq<TransactionView> {
    transactions.map_values(|t: Transaction| t@)
}

/// A sealed batch of transactions, linked to its predecessor by
/// `previous_hash`.
#[derive(Debug)]
pub struct Block {
    pub index: u32,
    pub timestamp: i64,
    pub transactions: Vec<Transaction>,
    pub proof: u64,
    pub previous_hash: String,
}

/// A block as the specifications see it.
#[verifier::ext_equal]
pub struct BlockView {
    pub index: u32,
    pub timestamp: i64,
    pub transactions: Seq<TransactionView>,
    pub proof: u64,
    pub previous_hash: Seq<char>,
}

impl View for Block {
    type V = BlockView;

    open spec fn view(&self) -> BlockView {
        BlockView {
            index: self.index,
            timestamp: self.timestamp,
            transactions: transaction_views(self.transactions@),
            proof: self.proof,
            previous_hash: self.previous_hash@,
        }
    }
}

/// The views of a sequence of blocks, in order.
pub open spec fn chain_view(chain: Seq<Block>) -> Seq<BlockView> {
    chain.map_values(|b: Block| b@)
}

impl Clone for Block {
    fn clone(&self) -> (copy: Self)
        ensures
            copy@ == self@,
    {
        Block {
            index: self.index,
            timestamp: self.timestamp,
            transactions: self.transactions.clone(),
            proof: self.proof,
            previous_hash: self.previous_hash.clone(),
        }
    }
}

} // verus!
