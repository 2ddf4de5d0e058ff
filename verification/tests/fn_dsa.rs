use veil7::pq_backends::fn_dsa::{FnDsaSigner, PUBLIC_KEY_LEN, SECRET_KEY_LEN, SIGNATURE_LEN_MAX};

#[test]
fn verify_fails_closed_when_unimplemented() {
    let pk = [0u8; PUBLIC_KEY_LEN];
    let sig = [0u8; SIGNATURE_LEN_MAX];
    assert_eq!(
        FnDsaSigner::verify(b"any-message", &sig, &pk, SIGNATURE_LEN_MAX).unwrap_u8(),
        0,
        "scaffold must fail-closed until FIPS 206 integration"
    );
}

#[test]
fn verify_fails_closed_for_zero_length_signature() {
    let pk = [0u8; PUBLIC_KEY_LEN];
    let sig = [0u8; SIGNATURE_LEN_MAX];
    assert_eq!(FnDsaSigner::verify(b"any-message", &sig, &pk, 0).unwrap_u8(), 0, "zero-length signature must also fail-closed");
}

#[test]
fn derive_returns_none_until_fips206_final() {
    let seed = [0u8; 32];
    assert!(FnDsaSigner::derive_secret_key(&seed).is_none(), "scaffold derive must return None until FIPS 206 integration");
}

#[test]
fn sign_returns_none_until_fips206_final() {
    let mut sk = [0u8; SECRET_KEY_LEN];
    assert!(FnDsaSigner::sign(b"msg", &mut sk).is_none(), "scaffold sign must return None until FIPS 206 integration");
}

#[test]
fn secret_key_buffer_is_wiped_in_scaffold() {
    let mut sk = [0xFFu8; SECRET_KEY_LEN];
    let result = FnDsaSigner::sign(b"msg", &mut sk);
    assert!(result.is_none());
    assert_eq!(sk, [0xFFu8; SECRET_KEY_LEN]);
}
