use veil7::common::transcript::Transcript;

#[test]
fn challenge_is_deterministic() {
    let mut a = Transcript::new(b"proto");
    let mut b = Transcript::new(b"proto");
    a.absorb(b"x", b"hello");
    b.absorb(b"x", b"hello");
    let ca: [u8; 32] = a.challenge_array(b"c");
    let cb: [u8; 32] = b.challenge_array(b"c");
    assert_eq!(ca, cb, "same inputs -> same challenge");
}

#[test]
fn different_protocol_label_diverges() {
    let mut a = Transcript::new(b"proto-A");
    let mut b = Transcript::new(b"proto-B");
    let ca: [u8; 32] = a.challenge_array(b"c");
    let cb: [u8; 32] = b.challenge_array(b"c");
    assert_ne!(ca, cb, "protocol label must domain-separate");
}

#[test]
fn different_absorbed_data_diverges() {
    let mut a = Transcript::new(b"p");
    let mut b = Transcript::new(b"p");
    a.absorb(b"x", b"alpha");
    b.absorb(b"x", b"beta");
    let ca: [u8; 32] = a.challenge_array(b"c");
    let cb: [u8; 32] = b.challenge_array(b"c");
    assert_ne!(ca, cb);
}

#[test]
fn length_framing_prevents_concatenation_collision() {
    let mut a = Transcript::new(b"p");
    let mut b = Transcript::new(b"p");
    a.absorb(b"ab", b"c");
    b.absorb(b"a", b"bc");
    let ca: [u8; 32] = a.challenge_array(b"c");
    let cb: [u8; 32] = b.challenge_array(b"c");
    assert_ne!(ca, cb, "length framing must disambiguate boundaries");
}

#[test]
fn order_of_absorption_matters() {
    let mut a = Transcript::new(b"p");
    let mut b = Transcript::new(b"p");
    a.absorb(b"l", b"one");
    a.absorb(b"l", b"two");
    b.absorb(b"l", b"two");
    b.absorb(b"l", b"one");
    let ca: [u8; 32] = a.challenge_array(b"c");
    let cb: [u8; 32] = b.challenge_array(b"c");
    assert_ne!(ca, cb, "transcript must be order-sensitive");
}

#[test]
fn successive_challenges_differ() {
    let mut t = Transcript::new(b"p");
    t.absorb(b"x", b"data");
    let c1: [u8; 32] = t.challenge_array(b"c");
    let c2: [u8; 32] = t.challenge_array(b"c");
    assert_ne!(c1, c2, "post-challenge fold must advance the state");
}

#[test]
fn challenge_into_slice_matches_array() {
    let mut a = Transcript::new(b"p");
    let mut b = Transcript::new(b"p");
    a.absorb(b"x", b"data");
    b.absorb(b"x", b"data");
    let ca: [u8; 48] = a.challenge_array(b"c");
    let mut cb = [0u8; 48];
    b.challenge(b"c", &mut cb);
    assert_eq!(ca, cb, "both challenge forms read the same bytes");
}
