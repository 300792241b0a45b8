use hashchain::block::Block;
use hashchain::chain::{Chain, ChainError};
use hashchain::decimal::push_decimal;

fn four_blocks() -> Chain {
    let mut chain = Chain::new("genesis block");
    chain.add_block(&"123");
    chain.add_block(&"456");
    chain.add_block(&"789");
    chain
}

#[test]
fn test_valid_chain() {
    let mut chain = Chain::new("genesis block");

    chain.add_block(&"123");
    chain.add_block(&"456");
    chain.add_block(&"789");

    assert!(chain.verify().is_ok());
}

#[test]
fn test_tamper() {
    let mut chain = Chain::new("genesis block");

    chain.add_block(&"123");
    chain.add_block(&"456");
    chain.add_block(&"789");

    chain.blocks[1].value = "foo".to_string();

    assert!(!chain.verify().is_ok());
}

#[test]
fn genesis_only_verifies() {
    let chain = Chain::new("genesis block");
    assert_eq!(chain.blocks.len(), 1);
    assert_eq!(chain.blocks[0].link, None);
    assert_eq!(chain.blocks[0].sequence, 1);
    assert_eq!(chain.blocks[0].value, "genesis block");
    assert_eq!(chain.verify(), Ok(()));
}

#[test]
fn genesis_with_empty_payload_verifies() {
    let chain = Chain::new("");
    assert_eq!(chain.verify(), Ok(()));
}

#[test]
fn two_blocks_verify() {
    let mut chain = Chain::new("genesis block");
    chain.add_block("123");
    assert_eq!(chain.blocks.len(), 2);
    assert_eq!(chain.verify(), Ok(()));
}

#[test]
fn four_blocks_verify() {
    let chain = four_blocks();
    assert_eq!(chain.blocks.len(), 4);
    assert_eq!(chain.verify(), Ok(()));
}

#[test]
fn append_links_and_numbers_blocks() {
    let chain = four_blocks();
    assert_eq!(
        chain.blocks[1].link.as_deref(),
        Some("c8d788d4c08711b3a188794d26a1522064c95f23b7a623a2d3d9022071db50f8")
    );
    for j in 1..4 {
        assert_eq!(chain.blocks[j].link, Some(chain.blocks[j - 1].hash()));
        assert_eq!(chain.blocks[j].sequence, j + 1);
    }
    assert_eq!(chain.blocks[3].value, "789");
}

#[test]
fn empty_payloads_verify() {
    let mut chain = Chain::new("genesis block");
    chain.add_block("");
    chain.add_block("123");
    chain.add_block("");
    assert_eq!(chain.verify(), Ok(()));
}

#[test]
fn tampered_value_reported_at_next_position() {
    let mut chain = four_blocks();
    chain.blocks[1].value = "foo".to_string();
    assert_eq!(chain.verify(), Err(ChainError::TamperedLink { position: 2 }));
}

#[test]
fn tampered_genesis_reported_at_position_one() {
    let mut chain = four_blocks();
    chain.blocks[0].value = "other".to_string();
    assert_eq!(chain.verify(), Err(ChainError::TamperedLink { position: 1 }));
}

#[test]
fn tampered_sequence_reported_at_next_position() {
    let mut chain = four_blocks();
    chain.blocks[2].sequence = 9;
    assert_eq!(chain.verify(), Err(ChainError::TamperedLink { position: 3 }));
}

#[test]
fn tampered_last_block_goes_unnoticed() {
    let mut chain = four_blocks();
    chain.blocks[3].value = "changed".to_string();
    assert_eq!(chain.verify(), Ok(()));
}

#[test]
fn swapped_blocks_rejected() {
    let mut chain = four_blocks();
    chain.blocks.swap(1, 2);
    assert_eq!(chain.verify(), Err(ChainError::TamperedLink { position: 1 }));
}

#[test]
fn link_on_first_block_rejected() {
    let mut chain = four_blocks();
    chain.blocks[0].link = Some(String::new());
    assert_eq!(chain.verify(), Err(ChainError::TamperedLink { position: 0 }));
}

#[test]
fn absent_link_is_never_checked() {
    let mut chain = four_blocks();
    chain.blocks[1].value = "foo".to_string();
    chain.blocks[2].link = None;
    assert_eq!(chain.verify(), Err(ChainError::TamperedLink { position: 3 }));
}

#[test]
fn hash_is_deterministic() {
    let chain = four_blocks();
    assert_eq!(chain.blocks[2].hash(), chain.blocks[2].hash());
}

#[test]
fn hash_of_genesis_block() {
    let chain = Chain::new("genesis block");
    assert_eq!(
        chain.blocks[0].hash(),
        "c8d788d4c08711b3a188794d26a1522064c95f23b7a623a2d3d9022071db50f8"
    );
}

#[test]
fn hash_input_concatenates_fields() {
    let b = Block { link: Some("ab".to_string()), sequence: 1234, value: "xy".to_string() };
    assert_eq!(b.hash_input(), "ab1234xy");
    let g = Block { link: None, sequence: 12, value: "ab".to_string() };
    assert_eq!(g.hash_input(), "12ab");
    assert_eq!(g.hash(), "337c73aa627c717443aa2ce56689cfbaf77e9f2a02cc6313fdd24aa4ef14688e");
}

#[test]
fn absent_and_empty_link_hash_alike() {
    let absent = Block { link: None, sequence: 3, value: "v".to_string() };
    let empty = Block { link: Some(String::new()), sequence: 3, value: "v".to_string() };
    assert_eq!(absent.hash_input(), empty.hash_input());
    assert_eq!(absent.hash(), empty.hash());
}

#[test]
fn decimal_rendering() {
    let mut s = String::from("n=");
    push_decimal(&mut s, 0);
    assert_eq!(s, "n=0");
    let mut t = String::new();
    push_decimal(&mut t, 10);
    assert_eq!(t, "10");
    let mut u = String::new();
    push_decimal(&mut u, usize::MAX);
    assert_eq!(u, usize::MAX.to_string());
}

#[test]
fn verify_with_given_digests() {
    let chain = Chain {
        blocks: vec![
            Block { link: None, sequence: 1, value: "a".to_string() },
            Block { link: Some("d0".to_string()), sequence: 2, value: "b".to_string() },
            Block { link: Some("d1".to_string()), sequence: 3, value: "c".to_string() },
        ],
    };
    let good = vec!["d0".to_string(), "d1".to_string(), "d2".to_string()];
    assert_eq!(chain.verify_with_digests(&good), Ok(()));
    let bad = vec!["d0".to_string(), "dx".to_string(), "d2".to_string()];
    assert_eq!(chain.verify_with_digests(&bad), Err(ChainError::TamperedLink { position: 2 }));
}
