use veil7::common::domain;
use veil7::entropy_sources::SOURCE_LEN;
use veil7::{hw_counter, os_csprng_primary, os_csprng_secondary, stack_addr, thread_id, wall_clock, EntropySource};

#[test]
fn whiten_is_deterministic() {
    let s = os_csprng_primary().expect("os_csprng available");
    let w1 = s.whiten();
    let w2 = s.whiten();
    assert_eq!(w1, w2, "whiten must be a pure function of (tag, raw)");
}

#[test]
fn whiten_domain_separates() {
    let raw1 = [0xABu8; SOURCE_LEN];
    let a = EntropySource::from_raw("a", &domain::ENTROPY_SOURCE_OS_PRIMARY, raw1);
    let b = EntropySource::from_raw("b", &domain::ENTROPY_SOURCE_OS_SECONDARY, raw1);
    assert_ne!(a.whiten(), b.whiten(), "different domain tags must produce different whitened outputs");
}

#[test]
fn whiten_input_separates() {
    let raw1 = [0xABu8; SOURCE_LEN];
    let raw2 = [0xCDu8; SOURCE_LEN];
    let a = EntropySource::from_raw("a", &domain::ENTROPY_SOURCE_OS_PRIMARY, raw1);
    let b = EntropySource::from_raw("a", &domain::ENTROPY_SOURCE_OS_PRIMARY, raw2);
    assert_ne!(a.whiten(), b.whiten(), "different raw must produce different whitened");
}

#[test]
fn whiten_takes_shared_reference() {
    let raw = [0x42u8; SOURCE_LEN];
    let s = EntropySource::from_raw("x", &domain::ENTROPY_SOURCE_OS_PRIMARY, raw);
    let _r: [u8; SOURCE_LEN] = s.whiten();
}

#[test]
fn wipe_zeros_raw_buffer() {
    let mut s = os_csprng_primary().expect("os_csprng available");
    let before = *s.raw();
    assert!(before.iter().any(|&b| b != 0), "raw buffer should be non-zero before wipe");
    s.wipe();
    assert_eq!(*s.raw(), [0u8; SOURCE_LEN], "wipe must zero the buffer");
}

#[test]
fn drop_wipes_automatically() {
    let mut s = os_csprng_primary().expect("os_csprng available");
    s.wipe();
    assert_eq!(*s.raw(), [0u8; SOURCE_LEN]);
    drop(s);
}

#[test]
fn all_six_method_constructors_produce_valid_sources() {
    let nanos = std::time::SystemTime::now()
        .duration_since(std::time::UNIX_EPOCH)
        .map(|d| d.as_nanos())
        .unwrap_or(0);
    let s1 = os_csprng_primary().expect("ok");
    let s2 = os_csprng_secondary().expect("ok");
    let s3 = wall_clock(nanos);
    let s4 = stack_addr(0x7ffd_1234_5678);
    let s5 = thread_id(42);
    let s6 = hw_counter(1_000, nanos);
    for (i, s) in [&s1, &s2, &s3, &s4, &s5, &s6].iter().enumerate() {
        assert!(!s.name().is_empty(), "source {i} has empty name");
        assert!(!s.domain_tag().is_empty(), "source {i} has empty tag");
        assert_eq!(s.raw().len(), SOURCE_LEN);
    }
}

#[test]
fn wall_clock_reading_is_little_endian_and_padded() {
    let s = wall_clock(0x0102_0304);
    assert_eq!(&s.raw()[..4], &[4, 3, 2, 1]);
    assert!(s.raw()[16..].iter().all(|&b| b == 0));
    assert_eq!(s.name(), "wall_clock");
}
