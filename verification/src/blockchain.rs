//! The ledger: the chain of sealed blocks, the transactions that wait for the
//! next block, and the registry of peers.

use crate::block::{
    chain_view, transaction_views, Block, BlockView, Chain, Transaction, TransactionView,
};
use crate::clock::unix_time;
use crate::nodemanager::{P2PNodeManager, RegistryView};
use crate::pow::{is_first_accepted, none_accepted};
use crate::validation::{
    content_hash, lemma_push_keeps_valid, lemma_sealed_block_links, names_digests, valid_chain,
};
use vstd::prelude::*;

verus! {

/// The sender of the transactions that pay for mining.
pub const ORIGIN_SENDER: &'static str = "0";

/// What the genesis block carries in place of a hash.
pub const ORIGIN_HASH: &'static str = "1";

/// The seal of the genesis block.
pub const GENESIS_PROOF: u64 = 100;

/// The amount that mining a block pays.
pub const MINING_REWARD: u64 = 1;

/// The genesis block made at `timestamp`: the first block, without
/// transactions, with the fixed seal and `1` in place of a hash.
pub open spec fn genesis(timestamp: i64) -> BlockView {
    BlockView {
        index: 1,
        timestamp,
        transactions: Seq::empty(),
        proof: GENESIS_PROOF,
        previous_hash: ORIGIN_HASH@,
    }
}

/// The transaction that pays `miner` for a block; its sender is `0`.
pub open spec fn reward(miner: Seq<char>) -> TransactionView {
    TransactionView { sender: ORIGIN_SENDER@, recipient: miner, amount: MINING_REWARD }
}

/// A node's ledger.
pub struct Blockchain {
    pub chain: Chain,
    pub node_manager: P2PNodeManager,
    pub pending_transactions: Vec<Transaction>,
}

/// The ledger as the specifications see it.
#[verifier::ext_equal]
pub struct LedgerView {
    pub chain: Seq<BlockView>,
    pub pending: Seq<TransactionView>,
    pub registry: RegistryView,
}

impl View for Blockchain {
    type V = LedgerView;

    open spec fn view(&self) -> LedgerView {
        LedgerView {
            chain: chain_view(self.chain@),
            pending: transaction_views(self.pending_transactions@),
            registry: self.node_manager@,
        }
    }
}

impl LedgerView {
    /// The ledger of a node that has just started, at `timestamp`: the
    /// genesis block alone, and nothing pending.
    pub open spec fn fresh(registry: RegistryView, timestamp: i64) -> LedgerView {
        LedgerView { chain: seq![genesis(timestamp)], pending: Seq::empty(), registry }
    }

    /// The ledger with one more pending transaction.
    pub open spec fn with_transaction(self, transaction: TransactionView) -> LedgerView {
        LedgerView {
            chain: self.chain,
            pending: self.pending.push(transaction),
            registry: self.registry,
        }
    }

    /// The hash that the next block names: the one given, or else the
    /// content hash of the last block, if it has one.
    pub open spec fn link(self, given: Option<Seq<char>>) -> Option<Seq<char>> {
        match given {
            Some(hash) => Some(hash),
            None => content_hash(self.chain.last()),
        }
    }

    /// The block that seals the pending transactions.
    pub open spec fn next_block(
        self,
        seal: u64,
        previous_hash: Seq<char>,
        timestamp: i64,
    ) -> BlockView {
        BlockView {
            index: (self.chain.len() + 1) as u32,
            timestamp,
            transactions: self.pending,
            proof: seal,
            previous_hash,
        }
    }

    /// The ledger after `block` was appended: nothing is pending any more.
    pub open spec fn sealed(self, block: BlockView) -> LedgerView {
        LedgerView {
            chain: self.chain.push(block),
            pending: Seq::empty(),
            registry: self.registry,
        }
    }

    /// The block that `miner` mines: it seals the pending transactions and,
    /// after them, the reward of `miner`.
    pub open spec fn mined_block(
        self,
        miner: Seq<char>,
        seal: u64,
        previous_hash: Seq<char>,
        timestamp: i64,
    ) -> BlockView {
        self.with_transaction(reward(miner)).next_block(seal, previous_hash, timestamp)
    }

    /// The ledger after `miner` mined a block.
    pub open spec fn mined(
        self,
        miner: Seq<char>,
        seal: u64,
        previous_hash: Seq<char>,
        timestamp: i64,
    ) -> LedgerView {
        self.sealed(self.mined_block(miner, seal, previous_hash, timestamp))
    }
}

/// Whether each block of `chain` carries its place in the chain as its
/// index, the first block the index 1.
pub open spec fn numbered(chain: Seq<BlockView>) -> bool {
    forall|i: int| 0 <= i < chain.len() ==> (#[trigger] chain[i]).index == i + 1
}

/// What a string that may be absent is to the specifications.
pub open spec fn given_hash(previous_hash: Option<&str>) -> Option<Seq<char>> {
    match previous_hash {
        Some(hash) => Some(hash@),
        None => None,
    }
}

/// Why no block was mined.
#[derive(Debug, Clone, Copy, PartialEq, Eq, Structural)]
pub enum MineError {
    /// The last block has no content hash for the new block to name.
    TipNotHashable,
    /// No seal is accepted after the seal of the last block.
    NoProof,
}

/// In a ledger of any length, the block that a miner mines holds the
/// transactions that were pending, in their order, then the reward of the
/// miner, and nothing else; once it is mined, nothing is pending.
pub proof fn lemma_mined_block_holds_pending_and_reward(
    ledger: LedgerView,
    miner: Seq<char>,
    seal: u64,
    previous_hash: Seq<char>,
    timestamp: i64,
)
    ensures
        ledger.mined_block(miner, seal, previous_hash, timestamp).transactions
            == ledger.pending.push(reward(miner)),
        ledger.mined(miner, seal, previous_hash, timestamp).pending
            == Seq::<TransactionView>::empty(),
{
}

/// A block that is mined after a transaction was added holds what was
/// pending before, then that transaction, then the reward of the miner, and
/// nothing else; once it is mined, nothing is pending.
pub proof fn lemma_transaction_then_mine(
    ledger: LedgerView,
    transaction: TransactionView,
    miner: Seq<char>,
    seal: u64,
    previous_hash: Seq<char>,
    timestamp: i64,
)
    ensures
        ledger.with_transaction(transaction).mined_block(
            miner,
            seal,
            previous_hash,
            timestamp,
        ).transactions == ledger.pending.push(transaction).push(reward(miner)),
        ledger.with_transaction(transaction).mined(miner, seal, previous_hash, timestamp).pending
            == Seq::<TransactionView>::empty(),
        ledger.with_transaction(transaction).mined(miner, seal, previous_hash, timestamp).chain
            == ledger.chain.push(
            ledger.with_transaction(transaction).mined_block(miner, seal, previous_hash, timestamp),
        ),
{
}

/// A numbered chain of fewer than `u32::MAX` blocks stays numbered when the
/// next block of its ledger is appended.
pub proof fn lemma_sealed_keeps_numbered(
    ledger: LedgerView,
    seal: u64,
    previous_hash: Seq<char>,
    timestamp: i64,
)
    requires
        numbered(ledger.chain),
        ledger.chain.len() < u32::MAX,
    ensures
        numbered(ledger.sealed(ledger.next_block(seal, previous_hash, timestamp)).chain),
{
}

impl Blockchain {
    /// A ledger that holds the genesis block and nothing else.
    pub fn new(node_manager: P2PNodeManager) -> (blockchain: Blockchain)
        ensures
            blockchain@.chain.len() == 1,
            blockchain@ == LedgerView::fresh(node_manager@, blockchain@.chain[0].timestamp),
            valid_chain(blockchain@.chain),
            numbered(blockchain@.chain),
            names_digests(blockchain@.chain),
    {
        let mut blockchain = Blockchain {
            chain: Vec::new(),
            pending_transactions: Vec::new(),
            node_manager,
        };
        assert(blockchain@.pending =~= Seq::empty());
        blockchain.new_block(GENESIS_PROOF, Some(ORIGIN_HASH));
        blockchain
    }

    /// A copy of the chain as it stands.
    pub fn read(&self) -> (chain: Chain)
        ensures
            chain_view(chain@) == self@.chain,
    {
        self.chain.clone()
    }

    /// Adds a transaction to those that wait for the next block, and says
    /// how many blocks the chain holds.
    pub fn new_transaction(
        &mut self,
        sender: String,
        recipient: String,
        amount: u64,
    ) -> (index: u32)
        requires
            old(self).chain@.len() <= u32::MAX,
        ensures
            final(self)@ == old(self)@.with_transaction(
                TransactionView { sender: sender@, recipient: recipient@, amount },
            ),
            index == old(self)@.chain.len(),
    {
        self.pending_transactions.push(Transaction::new(sender, recipient, amount));
        self.chain.len() as u32
    }

    /// Seals the pending transactions into a new block made at `timestamp`,
    /// appends it, and hands back a copy. The block names `previous_hash`,
    /// or, where none is given, the content hash of the last block; if that
    /// block has no content hash, nothing is sealed.
    pub fn new_block_at(
        &mut self,
        seal: u64,
        previous_hash: Option<&str>,
        timestamp: i64,
    ) -> (block: Option<Block>)
        requires
            old(self).chain@.len() < u32::MAX,
            previous_hash is None ==> old(self).chain@.len() > 0,
        ensures
            match old(self)@.link(given_hash(previous_hash)) {
                Some(link) => {
                    &&& block matches Some(b)
                    &&& b@ == old(self)@.next_block(seal, link, timestamp)
                    &&& final(self)@ == old(self)@.sealed(b@)
                },
                None => block is None && final(self)@ == old(self)@,
            },
    {
        let link: String = match previous_hash {
            Some(hash) => String::from_str(hash),
            None => {
                match Blockchain::hash(&self.chain[self.chain.len() - 1]) {
                    Some(digest) => digest,
                    None => {
                        return None;
                    },
                }
            },
        };
        Some(self.append_block(seal, link, timestamp))
    }

    /// Seals the pending transactions into a new block that is made at
    /// `timestamp` and names `previous_hash`, appends it, and hands back a
    /// copy.
    pub fn append_block(
        &mut self,
        seal: u64,
        previous_hash: String,
        timestamp: i64,
    ) -> (block: Block)
        requires
            old(self).chain@.len() < u32::MAX,
        ensures
            block@ == old(self)@.next_block(seal, previous_hash@, timestamp),
            final(self)@ == old(self)@.sealed(block@),
            numbered(old(self)@.chain) ==> numbered(final(self)@.chain),
    {
        let block = Block {
            index: (self.chain.len() as u32) + 1,
            timestamp,
            transactions: self.pending_transactions.clone(),
            proof: seal,
            previous_hash,
        };
        self.pending_transactions.clear();
        self.chain.push(block.clone());
        assert(self@.chain == old(self)@.chain.push(block@));
        block
    }

    /// Seals the pending transactions into a new block made now. See
    /// `new_block_at`; the block's timestamp is the time of the call.
    pub fn new_block(&mut self, seal: u64, previous_hash: Option<&str>) -> (block: Option<Block>)
        requires
            old(self).chain@.len() < u32::MAX,
            previous_hash is None ==> old(self).chain@.len() > 0,
        ensures
            match old(self)@.link(given_hash(previous_hash)) {
                Some(link) => {
                    &&& block matches Some(b)
                    &&& b@ == old(self)@.next_block(seal, link, b@.timestamp)
                    &&& final(self)@ == old(self)@.sealed(b@)
                },
                None => block is None && final(self)@ == old(self)@,
            },
    {
        let timestamp: i64 = unix_time();
        self.new_block_at(seal, previous_hash, timestamp)
    }

    /// Finds the seal for the next block, pays `node_uuid` for it with a
    /// reward transaction, and seals all pending transactions into a new
    /// block that names the content hash of the last one.
    ///
    /// Nothing changes where no block can be mined: where the last block has
    /// no content hash, or no seal is accepted after its seal.
    pub fn mine(&mut self, node_uuid: &str) -> (outcome: Result<Block, MineError>)
        requires
            0 < old(self).chain@.len() < u32::MAX,
        ensures
            match outcome {
                Ok(block) => {
                    &&& content_hash(old(self)@.chain.last()) matches Some(link)
                    &&& is_first_accepted(old(self)@.chain.last().proof, block@.proof)
                    &&& block@ == old(self)@.mined_block(
                        node_uuid@,
                        block@.proof,
                        link,
                        block@.timestamp,
                    )
                    &&& final(self)@ == old(self)@.mined(
                        node_uuid@,
                        block@.proof,
                        link,
                        block@.timestamp,
                    )
                },
                Err(MineError::TipNotHashable) => {
                    &&& content_hash(old(self)@.chain.last()) is None
                    &&& final(self)@ == old(self)@
                },
                Err(MineError::NoProof) => {
                    &&& content_hash(old(self)@.chain.last()) is Some
                    &&& none_accepted(old(self)@.chain.last().proof)
                    &&& final(self)@ == old(self)@
                },
            },
            outcome is Ok && valid_chain(old(self)@.chain) ==> valid_chain(final(self)@.chain),
            numbered(old(self)@.chain) ==> numbered(final(self)@.chain),
            names_digests(old(self)@.chain) ==> names_digests(final(self)@.chain),
    {
        let ghost before = self@;
        let last: &Block = &self.chain[self.chain.len() - 1];
        let last_proof: u64 = last.proof;
        let link: String = match Blockchain::hash(last) {
            Some(digest) => digest,
            None => {
                return Err(MineError::TipNotHashable);
            },
        };
        let seal: u64 = match Blockchain::proof_of_work(last_proof) {
            Some(found) => found,
            None => {
                return Err(MineError::NoProof);
            },
        };
        self.new_transaction(
            String::from_str(ORIGIN_SENDER),
            String::from_str(node_uuid),
            MINING_REWARD,
        );
        let timestamp: i64 = unix_time();
        let block = self.append_block(seal, link, timestamp);
        proof {
            if valid_chain(before.chain) {
                lemma_sealed_block_links(before.chain.last(), block@);
                lemma_push_keeps_valid(before.chain, block@);
            }
        }
        Ok(block)
    }
}

} // verus!
