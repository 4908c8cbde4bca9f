use powchain::block::{Block, Chain};
use powchain::blockchain::Blockchain;
use powchain::nodemanager::{Node, P2PNodeManager};

fn ledger() -> Blockchain {
    Blockchain::new(P2PNodeManager::new(Node::new("127.0.0.1:8000".to_owned())))
}

fn mined(blocks: usize) -> Blockchain {
    let mut blockchain = ledger();
    for _ in 0..blocks {
        blockchain.mine("peer").unwrap();
    }
    blockchain
}

fn hashes(chain: &[Block]) -> Vec<Option<String>> {
    chain.iter().map(Blockchain::hash).collect()
}

#[test]
fn resolve_keeps_the_chain_against_a_shorter_one() {
    let mut local = mined(2);
    local.new_transaction("alice".to_owned(), "bob".to_owned(), 10);
    let before = hashes(&local.chain);
    let shorter: Chain = mined(1).chain;

    assert!(!local.resolve_conflicts(vec![Some(shorter)]));

    assert_eq!(hashes(&local.chain), before);
    assert_eq!(local.pending_transactions.len(), 1);
}

#[test]
fn resolve_keeps_the_chain_against_one_of_the_same_length() {
    let mut local = mined(1);
    let before = hashes(&local.chain);
    let same: Chain = mined(1).chain;

    assert!(!local.resolve_conflicts(vec![Some(same)]));

    assert_eq!(hashes(&local.chain), before);
}

#[test]
fn resolve_adopts_a_longer_valid_chain() {
    let mut local = ledger();
    local.new_transaction("alice".to_owned(), "bob".to_owned(), 10);
    let longer: Chain = mined(2).chain;
    let expected = hashes(&longer);

    assert!(local.resolve_conflicts(vec![Some(longer)]));

    assert_eq!(local.chain.len(), 3);
    assert_eq!(hashes(&local.chain), expected);
    assert_eq!(local.pending_transactions.len(), 1);
    assert_eq!(local.pending_transactions[0].sender, "alice");
}

#[test]
fn resolve_passes_over_a_longer_chain_that_is_not_valid() {
    let mut local = ledger();
    let before = hashes(&local.chain);
    let mut broken: Chain = mined(2).chain;
    broken[2].previous_hash = "invalidhash".to_owned();

    assert!(!local.resolve_conflicts(vec![Some(broken)]));

    assert_eq!(hashes(&local.chain), before);
}

#[test]
fn resolve_adopts_the_first_of_several_longer_valid_chains() {
    let mut local = ledger();
    let mut broken: Chain = mined(3).chain;
    broken[1].proof = 0;
    let first: Chain = mined(1).chain;
    let second: Chain = mined(2).chain;
    let expected = hashes(&first);

    let replaced =
        local.resolve_conflicts(vec![None, Some(broken), Some(first), None, Some(second)]);

    assert!(replaced);
    assert_eq!(local.chain.len(), 2);
    assert_eq!(hashes(&local.chain), expected);
}

#[test]
fn resolve_without_answers_keeps_the_chain() {
    let mut local = mined(1);
    let before = hashes(&local.chain);

    assert!(!local.resolve_conflicts(Vec::new()));
    assert!(!local.resolve_conflicts(vec![None, None]));

    assert_eq!(hashes(&local.chain), before);
}

#[test]
fn resolve_leaves_the_registry_alone() {
    let mut local = ledger();
    local.node_manager.add_node(Node::new("10.0.0.2:8000".to_owned()), Ok(())).unwrap();

    assert!(local.resolve_conflicts(vec![Some(mined(1).chain)]));

    assert!(local.node_manager.is_registered(&Node::new("10.0.0.2:8000".to_owned())));
    assert_eq!(local.node_manager.get_nodes().len(), 1);
}
