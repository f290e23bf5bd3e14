use turbohash::error::HashError;
use turbohash::hash::{u128_be_bytes, u32_be_bytes, FileHasher};

#[test]
fn test_hash_calculation() {
    let mut hasher = FileHasher::new();
    hasher.update(b"Hello, World!");

    let result = hasher.finalize();
    assert!(result.is_ok(), "finalize should succeed");

    let (crc32, md5, sha1, xxh3) = result.unwrap();

    assert_ne!(crc32, 0);
    assert_ne!(md5, [0u8; 16]);
    assert_ne!(sha1, [0u8; 20]);
    assert_ne!(xxh3, [0u8; 16]);
}

#[test]
fn test_empty_hash() {
    let hasher = FileHasher::new();
    let result = hasher.finalize();
    assert!(result.is_ok(), "finalize should succeed");

    let (crc32, md5, sha1, xxh3) = result.unwrap();

    assert_eq!(crc32, 0);
    assert_eq!(hex::encode(md5), "d41d8cd98f00b204e9800998ecf8427e");
    assert_eq!(hex::encode(sha1), "da39a3ee5e6b4b0d3255bfef95601890afd80709");
    assert_eq!(hex::encode(xxh3), "99aa06d3014798d86001c324468d497f");
}

#[test]
fn known_digests_of_a_short_text() {
    let mut hasher = FileHasher::new();
    hasher.update(b"Hello, World!");
    let (crc32, md5, sha1, xxh3) = hasher.finalize().unwrap();
    assert_eq!(crc32, 0xec4a_c3d0);
    assert_eq!(hex::encode(md5), "65a8e27d8879283831b664bd8b7f0ad4");
    assert_eq!(hex::encode(sha1), "0a0a9f2a6772942557ab5355d76af442f8f65e01");
    assert_eq!(xxh3, xxhash_rust::xxh3::xxh3_128(b"Hello, World!").to_be_bytes());
}

#[test]
fn pieces_give_the_digests_of_the_whole() {
    let data: Vec<u8> = (0..100_000u32).map(|i| (i * 31 % 251) as u8).collect();
    let mut whole = FileHasher::new();
    whole.update(&data);
    let expected = whole.finalize().unwrap();

    for step in [1usize, 7, 64, 4096, 99_999] {
        let mut hasher = FileHasher::new();
        for piece in data.chunks(step) {
            hasher.update(piece);
        }
        assert_eq!(hasher.fed_bytes(), data.len() as u64);
        assert_eq!(hasher.finalize().unwrap(), expected, "step {}", step);
    }
    assert_eq!(expected.0, crc32fast::hash(&data));
}

#[test]
fn empty_pieces_change_nothing() {
    let mut hasher = FileHasher::new();
    hasher.update(b"");
    hasher.update(b"abc");
    hasher.update(b"");
    let mut plain = FileHasher::new();
    plain.update(b"abc");
    assert_eq!(hasher.finalize().unwrap(), plain.finalize().unwrap());
}

#[test]
fn fresh_hasher_is_not_overlong() {
    let hasher = FileHasher::default();
    assert!(!hasher.is_overlong());
    assert_eq!(hasher.fed_bytes(), 0);
    assert!(!matches!(hasher.finalize(), Err(HashError::SystemResource(_))));
}

#[test]
fn bytes_come_highest_first() {
    assert_eq!(u32_be_bytes(0x0102_0304), [1, 2, 3, 4]);
    assert_eq!(u32_be_bytes(0xec4a_c3d0), 0xec4a_c3d0u32.to_be_bytes());
    let value = 0x0011_2233_4455_6677_8899_aabb_ccdd_eeffu128;
    assert_eq!(u128_be_bytes(value), value.to_be_bytes());
    assert_eq!(u128_be_bytes(u128::MAX), [0xff; 16]);
    assert_eq!(u128_be_bytes(0), [0; 16]);
}
