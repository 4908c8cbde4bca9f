use powchain::block::{Block, Transaction};
use powchain::blockchain::Blockchain;
use powchain::decimal::to_decimal;
use powchain::encoding::encode_block;
use powchain::pow::meets_difficulty;
use powchain::sha256::hex_digest;

fn sample_block() -> Block {
    Block {
        index: 2,
        timestamp: -5,
        transactions: vec![
            Transaction::new("alice".to_owned(), "bob".to_owned(), 10),
            Transaction::new("0".to_owned(), "miner".to_owned(), 1),
        ],
        proof: 35293,
        previous_hash: "abc".to_owned(),
    }
}

#[test]
fn hex_digest_gives_the_known_digests() {
    assert_eq!(
        hex_digest(b""),
        Some("e3b0c44298fc1c149afbf4c8996fb92427ae41e4649b934ca495991b7852b855".to_owned())
    );
    assert_eq!(
        hex_digest(b"abc"),
        Some("ba7816bf8f01cfea414140de5dae2223b00361a396177a9cb410ff61f20015ad".to_owned())
    );
    assert_eq!(
        hex_digest(b"31214"),
        Some("16b024b09ebcb9d66f6a9968858d7e01081e51a14a4922edf3c8e3c2009c0000".to_owned())
    );
}

#[test]
fn encode_block_writes_the_fields_in_order() {
    let genesis = Block {
        index: 1,
        timestamp: 1_500_000_000,
        transactions: Vec::new(),
        proof: 100,
        previous_hash: "1".to_owned(),
    };
    let expected: Vec<u8> = vec![
        1, 0, 0, 0, 0, 47, 104, 89, 0, 0, 0, 0, 0, 0, 0, 0, 0, 0, 0, 0, 100, 0, 0, 0, 0, 0, 0, 0,
        1, 0, 0, 0, 0, 0, 0, 0, 49,
    ];

    assert_eq!(encode_block(&genesis), expected);
}

#[test]
fn encode_block_writes_each_transaction() {
    let expected: Vec<u8> = vec![
        2, 0, 0, 0, 251, 255, 255, 255, 255, 255, 255, 255, 2, 0, 0, 0, 0, 0, 0, 0, 5, 0, 0, 0,
        0, 0, 0, 0, 97, 108, 105, 99, 101, 3, 0, 0, 0, 0, 0, 0, 0, 98, 111, 98, 10, 0, 0, 0, 0,
        0, 0, 0, 1, 0, 0, 0, 0, 0, 0, 0, 48, 5, 0, 0, 0, 0, 0, 0, 0, 109, 105, 110, 101, 114, 1,
        0, 0, 0, 0, 0, 0, 0, 221, 137, 0, 0, 0, 0, 0, 0, 3, 0, 0, 0, 0, 0, 0, 0, 97, 98, 99,
    ];

    assert_eq!(encode_block(&sample_block()), expected);
}

#[test]
fn hash_is_the_digest_of_the_encoding() {
    let genesis = Block {
        index: 1,
        timestamp: 1_500_000_000,
        transactions: Vec::new(),
        proof: 100,
        previous_hash: "1".to_owned(),
    };

    assert_eq!(
        Blockchain::hash(&genesis),
        Some("e1536f1755cd43dfd8dd1e9042d4187484ec28a8b416fc1e83c5f95a43502d94".to_owned())
    );
    assert_eq!(
        Blockchain::hash(&sample_block()),
        Some("d5dc2a07a0dcdb72e01fd5cc3e51f488bf3072ca4e9dc317f37c4e1f6af405d0".to_owned())
    );
    assert_eq!(Blockchain::hash(&genesis), hex_digest(&encode_block(&genesis)));
}

#[test]
fn hash_depends_on_every_field() {
    let base = Blockchain::hash(&sample_block());

    let mut block = sample_block();
    block.index = 3;
    assert_ne!(Blockchain::hash(&block), base);

    let mut block = sample_block();
    block.timestamp = -4;
    assert_ne!(Blockchain::hash(&block), base);

    let mut block = sample_block();
    block.proof = 35294;
    assert_ne!(Blockchain::hash(&block), base);

    let mut block = sample_block();
    block.previous_hash = "abd".to_owned();
    assert_ne!(Blockchain::hash(&block), base);

    let mut block = sample_block();
    block.transactions[0].amount = 11;
    assert_ne!(Blockchain::hash(&block), base);

    let mut block = sample_block();
    block.transactions[1].recipient = "minor".to_owned();
    assert_ne!(Blockchain::hash(&block), base);

    let mut block = sample_block();
    block.transactions.swap(0, 1);
    assert_ne!(Blockchain::hash(&block), base);
}

#[test]
fn to_decimal_writes_ascii_digits() {
    assert_eq!(to_decimal(0), b"0".to_vec());
    assert_eq!(to_decimal(7), b"7".to_vec());
    assert_eq!(to_decimal(10), b"10".to_vec());
    assert_eq!(to_decimal(31214), b"31214".to_vec());
    assert_eq!(to_decimal(1_000_000), b"1000000".to_vec());
    assert_eq!(to_decimal(u64::MAX), b"18446744073709551615".to_vec());
}

#[test]
fn meets_difficulty_wants_four_trailing_zeros() {
    assert!(meets_difficulty("0000"));
    assert!(meets_difficulty("ab0000"));
    assert!(meets_difficulty("16b024b09ebcb9d66f6a9968858d7e01081e51a14a4922edf3c8e3c2009c0000"));
    assert!(!meets_difficulty(""));
    assert!(!meets_difficulty("000"));
    assert!(!meets_difficulty("a000"));
    assert!(!meets_difficulty("00001"));
    assert!(!meets_difficulty("0000a"));
    assert!(!meets_difficulty("20260e459de6f15245180c40d083ada14b8f8c0ecacaa5501b975251808c097e"));
}

#[test]
fn encode_block_counts_the_bytes_of_a_string() {
    let block = Block {
        index: 0x0102_0304,
        timestamp: i64::MIN,
        transactions: vec![Transaction::new("é".to_owned(), String::new(), u64::MAX)],
        proof: 0x0807_0605_0403_0201,
        previous_hash: "€1".to_owned(),
    };
    let expected: Vec<u8> = vec![
        4, 3, 2, 1, // index
        0, 0, 0, 0, 0, 0, 0, 128, // timestamp
        1, 0, 0, 0, 0, 0, 0, 0, // one transaction
        2, 0, 0, 0, 0, 0, 0, 0, 0xc3, 0xa9, // sender
        0, 0, 0, 0, 0, 0, 0, 0, // recipient
        255, 255, 255, 255, 255, 255, 255, 255, // amount
        1, 2, 3, 4, 5, 6, 7, 8, // proof
        4, 0, 0, 0, 0, 0, 0, 0, 0xe2, 0x82, 0xac, 0x31, // previous hash
    ];

    assert_eq!(encode_block(&block), expected);
}

#[test]
fn digests_have_sixty_four_characters() {
    assert_eq!(hex_digest(b"").unwrap().len(), 64);
    assert_eq!(hex_digest(&[0u8; 1000]).unwrap().len(), 64);
    assert_eq!(Blockchain::hash(&sample_block()).unwrap().len(), 64);
}
