use powchain::blockchain::Blockchain;
use powchain::pow::DIFFICULTY;

#[test]
fn proof_of_work_finds_the_first_accepted_seal() {
    assert_eq!(Blockchain::proof_of_work(1), Some(31214));
    assert_eq!(Blockchain::proof_of_work(100), Some(3297));
    assert_eq!(Blockchain::proof_of_work(3297), Some(100));
}

#[test]
fn no_seal_below_the_found_one_is_accepted() {
    let found = Blockchain::proof_of_work(100).unwrap();

    assert!(Blockchain::valid_proof(100, found));
    for candidate in 0..found {
        assert!(!Blockchain::valid_proof(100, candidate));
    }
}

#[test]
fn valid_proof_does_not_depend_on_the_order_of_the_seals() {
    assert!(Blockchain::valid_proof(31214, 1));
    assert!(!Blockchain::valid_proof(31213, 1));
    assert!(Blockchain::valid_proof(3297, 100));
    assert!(Blockchain::valid_proof(100, 3297));
}

#[test]
fn valid_proof_wraps_the_product() {
    // 3 * 6148914691236527610 is 31214 modulo 2^64.
    assert!(Blockchain::valid_proof(3, 6148914691236527610));
    assert!(Blockchain::valid_proof(6148914691236527610, 3));
    assert!(!Blockchain::valid_proof(3, 6148914691236527611));
}

#[test]
fn zero_is_never_accepted() {
    assert!(!Blockchain::valid_proof(0, 0));
    assert!(!Blockchain::valid_proof(0, 31214));
    assert!(!Blockchain::valid_proof(31214, 0));
}

#[test]
fn difficulty_is_four() {
    assert_eq!(DIFFICULTY, 4);
}
