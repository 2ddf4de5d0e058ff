use veil7::l1_entropy::{harvest, harvest_external, harvest_multi_source, harvest_with, JitterSource, Seed, SourceReadings};

struct ClockJitter(u64);

impl JitterSource for ClockJitter {
    fn jitter(&mut self) -> [u8; 24] {
        self.0 = self.0.wrapping_add(1);
        let nanos = std::time::SystemTime::now()
            .duration_since(std::time::UNIX_EPOCH)
            .map(|d| d.as_nanos())
            .unwrap_or(0);
        let mut out = [0u8; 24];
        out[..16].copy_from_slice(&nanos.to_le_bytes());
        out[16..].copy_from_slice(&self.0.to_le_bytes());
        out
    }
}

fn readings() -> SourceReadings {
    let start = std::time::Instant::now();
    let nanos = std::time::SystemTime::now()
        .duration_since(std::time::UNIX_EPOCH)
        .map(|d| d.as_nanos())
        .unwrap_or(0);
    SourceReadings {
        wall_nanos: nanos,
        stack_addr: 0x7ffd_0000_1000,
        thread_id_hash: 7,
        elapsed_nanos: start.elapsed().as_nanos(),
        counter_wall_nanos: nanos,
    }
}

#[test]
fn harvest_produces_full_seed() {
    let s = harvest(b"test", &mut ClockJitter(0)).expect("entropy available");
    assert!(s.as_bytes().iter().any(|&b| b != 0));
}

#[test]
fn two_harvests_differ() {
    let a = harvest(b"", &mut ClockJitter(0)).unwrap();
    let b = harvest(b"", &mut ClockJitter(0)).unwrap();
    assert_ne!(a.as_bytes(), b.as_bytes(), "seeds must be independent");
}

#[test]
fn different_personalization_produces_different_seed() {
    let a = harvest(b"context-A", &mut ClockJitter(0)).unwrap();
    let b = harvest(b"context-B", &mut ClockJitter(0)).unwrap();
    assert_ne!(a.as_bytes(), b.as_bytes(), "personalization must be cryptographically bound to the seed");
}

#[test]
fn seed_wipes_on_drop() {
    let s = harvest(b"wipe", &mut ClockJitter(0)).unwrap();
    let copy = *s.as_bytes();
    drop(s);
    assert!(copy.iter().any(|&b| b != 0));
}

#[test]
fn mix_workflow_completes_under_budget() {
    let start = std::time::Instant::now();
    let _ = harvest(b"perf", &mut ClockJitter(0)).unwrap();
    let elapsed = start.elapsed();
    assert!(elapsed.as_millis() < 500, "harvest took {elapsed:?}, expected < 500ms");
}

#[test]
fn harvest_multi_source_produces_full_seed() {
    let s = harvest_multi_source(b"test", &readings()).expect("entropy available");
    assert!(s.as_bytes().iter().any(|&b| b != 0), "seed should not be all-zero");
}

#[test]
fn harvest_multi_source_two_runs_differ() {
    let a = harvest_multi_source(b"", &readings()).unwrap();
    let b = harvest_multi_source(b"", &readings()).unwrap();
    assert_ne!(a.as_bytes(), b.as_bytes(), "two harvests must produce independent seeds");
}

#[test]
fn harvest_multi_source_personalization_binds_seed() {
    let a = harvest_multi_source(b"context-A", &readings()).unwrap();
    let b = harvest_multi_source(b"context-B", &readings()).unwrap();
    assert_ne!(a.as_bytes(), b.as_bytes(), "personalization must be cryptographically bound to the seed");
}

#[test]
fn harvest_multi_source_seed_wipes_on_drop() {
    let s = harvest_multi_source(b"wipe", &readings()).unwrap();
    let copy = *s.as_bytes();
    drop(s);
    assert!(copy.iter().any(|&b| b != 0));
}

#[test]
fn harvest_multi_source_completes_under_budget() {
    let start = std::time::Instant::now();
    let _ = harvest_multi_source(b"perf", &readings()).unwrap();
    let elapsed = start.elapsed();
    assert!(elapsed.as_millis() < 500, "harvest_multi_source took {elapsed:?}, expected < 500ms");
}

#[test]
fn harvest_multi_source_does_not_leak_method_specific_bytes() {
    let s1 = harvest_multi_source(b"alpha", &readings()).unwrap();
    let s2 = harvest_multi_source(b"beta", &readings()).unwrap();
    let diff_bits: u32 = s1
        .as_bytes()
        .iter()
        .zip(s2.as_bytes().iter())
        .map(|(a, b)| (a ^ b).count_ones())
        .sum();
    assert!(diff_bits >= 64, "1-bit personalization change should avalanche; got {diff_bits} differing bits");
}

#[test]
fn harvest_with_fixed_inputs_is_deterministic() {
    let os = [[0x11u8; 48]; 12];
    let jit = [[0x22u8; 24]; 12];
    let a = harvest_with(b"p", &os, &jit);
    let b = harvest_with(b"p", &os, &jit);
    assert_eq!(a.as_bytes(), b.as_bytes());
    let c = harvest_with(b"q", &os, &jit);
    assert_ne!(a.as_bytes(), c.as_bytes());
    let mut jit2 = jit;
    jit2[11][0] ^= 1;
    let d = harvest_with(b"p", &os, &jit2);
    assert_ne!(a.as_bytes(), d.as_bytes(), "the last round's jitter reaches the seed");
}

#[test]
fn external_seed_keeps_its_bytes() {
    let raw = [0x3Cu8; 64];
    let s = harvest_external(&raw);
    assert_eq!(s.as_bytes(), &raw);
    let t = Seed::from_bytes(&raw);
    assert_eq!(t.as_bytes(), s.as_bytes());
    assert!(!t.is_locked());
}
