use veil7::l0_memlock::{
    check_canary, plant_stack_canary, poison_bytes, validate_stack_canary, wipe_stack_canary, zeroize_and_poison,
    zeroize_bytes, Locked, CANARY, POISON_PATTERN,
};

#[test]
fn allocates_and_locks() {
    let l: Locked<64> = Locked::new();
    assert_eq!(l.as_bytes().len(), 64);
}

#[test]
fn fill_and_read_back() {
    let mut l: Locked<32> = Locked::new();
    let data = [0x5Au8; 32];
    assert!(l.fill_from(&data));
    assert_eq!(l.as_bytes(), &data);
}

#[test]
fn fill_rejects_wrong_length() {
    let mut l: Locked<32> = Locked::new();
    assert!(!l.fill_from(&[0u8; 16]), "length mismatch must be rejected");
}

#[test]
fn zeroize_bytes_clears_memory() {
    let mut buf = [0xFFu8; 32];
    zeroize_bytes(&mut buf);
    assert!(buf.iter().all(|&b| b == 0), "zeroize must clear all bytes");
}

#[test]
fn poison_bytes_fills_pattern() {
    let mut buf = [0x00u8; 32];
    poison_bytes(&mut buf);
    assert!(buf.iter().all(|&b| b == POISON_PATTERN), "poison must fill with pattern 0xDE");
}

#[test]
fn zeroize_and_poison_clears_and_poisons() {
    let mut buf = [0xFFu8; 32];
    zeroize_and_poison(&mut buf);
    assert!(buf.iter().all(|&b| b == 0), "zeroize_and_poison must end with zeros");
}

#[test]
fn canary_check_detects_modification() {
    assert!(check_canary(CANARY), "intact canary must pass");
    assert!(!check_canary(0x0000000000000000), "modified canary must fail");
    assert!(!check_canary(0xFFFFFFFFFFFFFFFF), "modified canary must fail");
}

#[test]
fn drops_cleanly_when_locked() {
    let mut l: Locked<48> = Locked::new();
    l.as_mut_bytes()[0] = 0xFF;
    drop(l);
}

#[test]
fn test_plant_and_validate_canary() {
    let mut canary = [0u8; 8];
    plant_stack_canary(&mut canary);
    assert!(validate_stack_canary(&canary), "planted canary must validate");
}

#[test]
fn test_corrupted_canary_detected() {
    let mut canary = [0u8; 8];
    plant_stack_canary(&mut canary);
    canary[3] ^= 0xFF;
    assert!(!validate_stack_canary(&canary), "corrupted canary must fail validation");
}

#[test]
fn test_wipe_canary() {
    let mut canary = [0u8; 8];
    plant_stack_canary(&mut canary);
    wipe_stack_canary(&mut canary);
    assert!(!validate_stack_canary(&canary), "wiped canary must fail validation");
}

#[test]
fn locked_fill_from_oversized_src() {
    let mut locked = Locked::<32>::new();
    let oversized = vec![0xAAu8; 64];
    let result = locked.fill_from(&oversized);
    assert!(!result);
}

#[test]
fn new_buffer_is_zero_and_unpinned() {
    let l: Locked<16> = Locked::new();
    assert_eq!(l.as_bytes(), &[0u8; 16]);
    assert!(!l.is_locked());
    let d: Locked<16> = Default::default();
    assert_eq!(d.as_bytes(), &[0u8; 16]);
}

#[test]
fn planted_canary_is_little_endian_constant() {
    let mut canary = [0u8; 8];
    plant_stack_canary(&mut canary);
    assert_eq!(canary, CANARY.to_le_bytes());
}
