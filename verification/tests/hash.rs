use tiflash_proxy::cached_region_info::{slot_index, CACHED_REGION_INFO_SLOT_COUNT};
use tiflash_proxy::hash::{hash_u64, unhash_u64};

#[test]
fn hash_of_zero_is_zero() {
    assert_eq!(hash_u64(0), 0);
    assert_eq!(unhash_u64(0), 0);
}

#[test]
fn hash_matches_splitmix64() {
    assert_eq!(hash_u64(1), 0x5692161d100b05e5);
    assert_eq!(hash_u64(2), 0xdbd238973a2b148a);
    assert_eq!(hash_u64(42), 0xa759ea27d4727622);
    assert_eq!(hash_u64(1000), 0xc1936642eba4ead7);
    assert_eq!(hash_u64(u64::MAX), 0xb4d055fcf2cbbd7b);
}

#[test]
fn unhash_matches_inverse_splitmix64() {
    assert_eq!(unhash_u64(1), 0x966dbfc16913c5d2);
    assert_eq!(unhash_u64(2), 0x2cdb7f86d2278bb5);
    assert_eq!(unhash_u64(u64::MAX), 0xcf9a04affa6badc0);
}

#[test]
fn unhash_inverts_hash() {
    let mut id: u64 = 0;
    for step in 0..2000u64 {
        assert_eq!(unhash_u64(hash_u64(id)), id);
        assert_eq!(hash_u64(unhash_u64(id)), id);
        id = id.wrapping_mul(6364136223846793005).wrapping_add(step);
    }
    assert_eq!(unhash_u64(hash_u64(u64::MAX)), u64::MAX);
}

#[test]
fn slot_index_is_low_byte_of_hash() {
    assert_eq!(CACHED_REGION_INFO_SLOT_COUNT, 256);
    assert_eq!(slot_index(0), 0);
    assert_eq!(slot_index(1), 229);
    assert_eq!(slot_index(2), 138);
    assert_eq!(slot_index(42), 34);
    assert_eq!(slot_index(u64::MAX), 123);
    for id in 0..5000u64 {
        assert!(slot_index(id) < CACHED_REGION_INFO_SLOT_COUNT);
        assert_eq!(slot_index(id) as u64, hash_u64(id) & 255);
    }
}

#[test]
fn slots_are_spread_evenly() {
    let mut hits = vec![0usize; CACHED_REGION_INFO_SLOT_COUNT];
    for id in 0..(256 * 64) as u64 {
        hits[slot_index(id)] += 1;
    }
    for count in hits {
        assert!(count > 16 && count < 160);
    }
}
