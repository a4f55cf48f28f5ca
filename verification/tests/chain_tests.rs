use blockchain::block::Block;
use blockchain::chain::Blockchain;

fn hex_of(bytes: &[u8]) -> String {
    let mut s = String::new();
    for b in bytes {
        s.push_str(&format!("{:02x}", b));
    }
    s
}

fn sha256_hex(input: &[u8]) -> String {
    let digest = <sha2::Sha256 as sha2::Digest>::digest(input);
    hex_of(digest.as_slice())
}

#[test]
fn empty_chain() {
    let c = Blockchain::new();
    assert_eq!(c.len(), 0);
    assert!(c.blocks().is_empty());
}

#[test]
fn three_appends() {
    let mut c = Blockchain::new();
    c.add_block("First Block".to_string()).unwrap();
    c.add_block("Second Block".to_string()).unwrap();
    c.add_block("Third Block".to_string()).unwrap();
    assert_eq!(c.len(), 3);
    assert_eq!(c.get(0).data, "First Block");
    assert_eq!(c.get(1).data, "Second Block");
    assert_eq!(c.get(2).data, "Third Block");
    assert!(c.get(0).prev_hash.is_none());
    assert_eq!(c.get(1).prev_hash.as_deref(), Some(c.get(0).hash.as_str()));
    assert_eq!(c.get(2).prev_hash.as_deref(), Some(c.get(1).hash.as_str()));
    for i in 0..3 {
        let h = &c.get(i).hash;
        assert_eq!(h.len(), 64);
        assert!(h
            .chars()
            .all(|ch| ch.is_ascii_hexdigit() && !ch.is_ascii_uppercase()));
    }
    assert_ne!(c.get(0).hash, c.get(1).hash);
    assert_ne!(c.get(1).hash, c.get(2).hash);
    assert_ne!(c.get(0).hash, c.get(2).hash);
}

#[test]
fn hash_reproducibility() {
    let b = Block::create("X".to_string(), None, 1000);
    assert_eq!(b.hash, sha256_hex(b"X1000"));
    assert_eq!(b.data, "X");
    assert!(b.prev_hash.is_none());
    assert_eq!(b.timestamp, 1000);
    assert_eq!(Block::calculate_hash("X", &None, 1000), sha256_hex(b"X1000"));
}

#[test]
fn hash_with_prev_matches_concatenation() {
    let h = Block::calculate_hash("data", &Some("abc".to_string()), 42);
    assert_eq!(h, sha256_hex(b"dataabc42"));
}

#[test]
fn unicode_payload_hash() {
    let h = Block::calculate_hash("héllo", &None, 12);
    assert_eq!(h, sha256_hex("héllo12".as_bytes()));
}

#[test]
fn largest_timestamp_hash() {
    let h = Block::calculate_hash("", &None, u64::MAX);
    assert_eq!(h, sha256_hex(b"18446744073709551615"));
}

#[test]
fn timestamp_zero_hash() {
    let h = Block::calculate_hash("", &None, 0);
    assert_eq!(h, sha256_hex(b"0"));
}

#[test]
fn determinism() {
    let b1 = Block::create("payload".to_string(), Some("prev".to_string()), 123);
    let b2 = Block::create("payload".to_string(), Some("prev".to_string()), 123);
    assert_eq!(b1.hash, b2.hash);
}

#[test]
fn avalanche_single_byte() {
    let base = Block::calculate_hash("Xa", &None, 1000);
    assert_ne!(base, Block::calculate_hash("Xb", &None, 1000));
    assert_ne!(base, Block::calculate_hash("Xa", &None, 1001));
    assert_ne!(
        Block::calculate_hash("X", &Some("a".to_string()), 1000),
        Block::calculate_hash("X", &Some("b".to_string()), 1000)
    );
}

#[test]
fn append_monotonicity() {
    let mut c = Blockchain::new();
    let mut seen: Vec<String> = Vec::new();
    for i in 0..5 {
        let before = c.len();
        c.add_block(format!("payload {}", i)).unwrap();
        assert_eq!(c.len(), before + 1);
        for (j, h) in seen.iter().enumerate() {
            assert_eq!(&c.get(j).hash, h);
            assert_eq!(c.get(j).data, format!("payload {}", j));
        }
        seen.push(c.get(c.len() - 1).hash.clone());
    }
}

#[test]
fn genesis_uniqueness() {
    let mut c = Blockchain::new();
    for i in 0..4 {
        c.add_block(format!("b{}", i)).unwrap();
    }
    for i in 0..4 {
        if i == 0 {
            assert!(c.get(i).prev_hash.is_none());
        } else {
            assert!(c.get(i).prev_hash.is_some());
        }
    }
}

#[test]
fn absent_prev_matches_empty_prev() {
    assert_eq!(
        Block::calculate_hash("X", &None, 7),
        Block::calculate_hash("X", &Some(String::new()), 7)
    );
}

#[test]
fn block_new_uses_clock() {
    let b = Block::new("d".to_string(), None).unwrap();
    assert_eq!(b.hash, Block::calculate_hash("d", &None, b.timestamp));
    assert!(b.timestamp > 0);
    let ts = Block::get_current_timestamp().unwrap();
    assert!(ts >= b.timestamp);
}
