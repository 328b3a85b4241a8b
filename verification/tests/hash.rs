use boundless::hash::{compute_pool_id, hash_bytes, hash_tagged_id};
use boundless::types::ModuleType;

#[test]
fn hash_bytes_is_sha256() {
    let expected: [u8; 32] = [
        186, 120, 22, 191, 143, 1, 207, 234, 65, 65, 64, 222, 93, 174, 34, 35, 176, 3, 97, 163, 150, 23, 122, 156,
        180, 16, 255, 97, 242, 0, 21, 173,
    ];
    assert_eq!(hash_bytes(&b"abc".to_vec()).bytes, expected);
}

#[test]
fn hash_tagged_id_is_sha256_of_tag_and_big_endian_id() {
    let expected: [u8; 32] = [
        42, 225, 193, 156, 12, 189, 55, 142, 70, 201, 39, 169, 243, 97, 25, 35, 236, 7, 204, 26, 227, 87, 80, 42, 9,
        83, 109, 69, 82, 117, 207, 33,
    ];
    assert_eq!(hash_tagged_id(0, 1).bytes, expected);
}

#[test]
fn pool_id_of_first_bounty() {
    let expected: [u8; 32] = [
        245, 47, 58, 116, 108, 37, 69, 101, 142, 28, 106, 221, 50, 229, 65, 3, 101, 85, 62, 186, 170, 4, 51, 245,
        248, 189, 144, 198, 248, 95, 214, 226,
    ];
    assert_eq!(compute_pool_id(ModuleType::Bounty, 1).bytes, expected);
    assert_ne!(compute_pool_id(ModuleType::Bounty, 1), compute_pool_id(ModuleType::Grant, 1));
}
