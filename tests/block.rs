use ledger_node::block::{Block, DIFFICULTY};
use sha2::Digest;

fn hex_sha256(bytes: &[u8]) -> String {
    format!("{:x}", sha2::Sha256::digest(bytes))
}

#[test]
fn difficulty_is_five() {
    let b = Block::at_time(0, 0, "genesis".to_string(), String::new());
    assert_eq!(b.difficulty(), 5);
    assert_eq!(DIFFICULTY, 5);
}

#[test]
fn hash_covers_fields_in_order() {
    let b = Block::at_time(12, 1700000000, "hello".to_string(), "ab".to_string());
    assert_eq!(b.hash, hex_sha256(b"1217000000000helloab"));
    assert_eq!(b.hash.len(), 64);
    assert!(b.hash.chars().all(|c| c.is_ascii_hexdigit() && !c.is_ascii_uppercase()));
}

#[test]
fn hash_of_genesis_fields() {
    let b = Block::at_time(0, 0, "genesis".to_string(), String::new());
    assert_eq!(b.hash, hex_sha256(b"000genesis"));
    assert_eq!(b.hash_block(), b.hash);
}

#[test]
fn hash_uses_utf8_of_data() {
    let b = Block::at_time(1, 2, "héllo".to_string(), "prev".to_string());
    assert_eq!(b.hash, hex_sha256("120héllo".as_bytes().iter().chain(b"prev").copied().collect::<Vec<u8>>().as_slice()));
}

#[test]
fn hash_is_deterministic() {
    let a = Block::at_time(7, 99, "data".to_string(), "p".to_string());
    let b = Block::at_time(7, 99, "data".to_string(), "p".to_string());
    assert_eq!(a.hash_block(), b.hash_block());
    assert_eq!(a.hash, b.hash);
    let mut c = a.clone();
    c.nonce = 1;
    assert_ne!(c.hash_block(), a.hash);
    let d = Block::at_time(7, 99, "datum".to_string(), "p".to_string());
    assert_ne!(d.hash, a.hash);
    // Fields are concatenated without separators.
    let e = Block::at_time(7, 99, "dat".to_string(), "ap".to_string());
    assert_eq!(e.hash, a.hash);
}

#[test]
fn new_block_is_sealed() {
    let b = Block::new(3, "x".to_string(), "abc".to_string()).unwrap();
    assert_eq!(b.index, 3);
    assert_eq!(b.nonce, 0);
    assert_eq!(b.data, "x");
    assert_eq!(b.prev_hash, "abc");
    assert!(b.timestamp > 0);
    assert_eq!(b.hash, b.hash_block());
}

#[test]
fn next_block_follows_previous() {
    let g = Block::new(0, "genesis".to_string(), String::new()).unwrap();
    let n = Block::next(&g, "second".to_string()).unwrap();
    assert_eq!(n.index, 1);
    assert_eq!(n.prev_hash, g.hash);
    assert_eq!(n.data, "second");
    assert_eq!(n.nonce, 0);
    assert_eq!(n.hash, n.hash_block());
}

#[test]
fn genesis_mines_to_five_zeros() {
    let mut g = Block::at_time(0, 1700000000, "genesis".to_string(), String::new());
    assert!(g.mine_block());
    assert!(g.hash.starts_with("00000"));
    assert_eq!(g.hash, g.hash_block());
    assert_eq!(g.index, 0);
    assert_eq!(g.data, "genesis");
    assert_eq!(g.prev_hash, "");
}

#[test]
fn mining_keeps_a_block_that_already_meets_the_target() {
    let mut g = Block::at_time(0, 1700000000, "genesis".to_string(), String::new());
    assert!(g.mine_block());
    let (nonce, hash) = (g.nonce, g.hash.clone());
    assert!(g.mine_block());
    assert_eq!(g.nonce, nonce);
    assert_eq!(g.hash, hash);
}
