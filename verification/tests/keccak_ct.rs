use sha3::digest::{ExtendableOutput, Update, XofReader};
use sha3::Shake256;
use veil7::keccak_ct::{ct_shake256, CtShake256};

#[test]
fn ct_shake256_produces_nonzero_output() {
    let mut out = [0u8; 32];
    ct_shake256(b"test-data", &mut out);
    assert_ne!(out, [0u8; 32]);
}

#[test]
fn ct_shake256_different_masks_different_outputs() {
    let mut out1 = [0u8; 32];
    let mut out2 = [0u8; 32];
    ct_shake256(b"same-data", &mut out1);
    ct_shake256(b"same-data", &mut out2);
    assert_ne!(out1, out2);
}

#[test]
fn ct_shake256_deterministic_with_fixed_mask() {
    let mask = [0x42u8; 32];
    let mut h1 = CtShake256::with_mask(mask);
    let mut h2 = CtShake256::with_mask(mask);
    h1.ct_update(b"hello");
    h2.ct_update(b"hello");
    let out1: [u8; 32] = h1.ct_finalize_array();
    let out2: [u8; 32] = h2.ct_finalize_array();
    assert_eq!(out1, out2, "same mask + same data → same output");
}

#[test]
fn different_data_different_output() {
    let mask = [0xAAu8; 32];
    let mut h1 = CtShake256::with_mask(mask);
    let mut h2 = CtShake256::with_mask(mask);
    h1.ct_update(b"data-A");
    h2.ct_update(b"data-B");
    let out1: [u8; 32] = h1.ct_finalize_array();
    let out2: [u8; 32] = h2.ct_finalize_array();
    assert_ne!(out1, out2);
}

#[test]
fn public_update_is_unmasked() {
    let mut standard = Shake256::default();
    standard.update(b"public-data");
    let mut std_out = [0u8; 32];
    standard.finalize_xof().read(&mut std_out);
    let mut ct = CtShake256::with_mask([0xFF; 32]);
    ct.update_public(b"public-data");
    let ct_out: [u8; 32] = ct.ct_finalize_array();
    assert_eq!(std_out, ct_out, "public update must match standard SHAKE256");
}

#[test]
fn mask_is_wiped_on_drop() {
    let mask = [0xBBu8; 32];
    let hasher = CtShake256::with_mask(mask);
    drop(hasher);
}

#[test]
fn masked_update_hashes_data_xor_cycled_mask() {
    let mut mask = [0u8; 32];
    for (i, m) in mask.iter_mut().enumerate() {
        *m = i as u8 * 7 + 1;
    }
    let data: Vec<u8> = (0..70u8).collect();
    let mut ct = CtShake256::with_mask(mask);
    ct.ct_update(&data);
    let ct_out: [u8; 32] = ct.ct_finalize_array();
    let xored: Vec<u8> = data.iter().enumerate().map(|(i, b)| b ^ mask[i % 32]).collect();
    let mut standard = Shake256::default();
    standard.update(&xored);
    let mut std_out = [0u8; 32];
    standard.finalize_xof().read(&mut std_out);
    assert_eq!(ct_out, std_out);
    let mut public = CtShake256::with_mask(mask);
    public.update_public(&xored);
    let public_out: [u8; 32] = public.ct_finalize_array();
    assert_eq!(ct_out, public_out, "masked update equals a public update of the masked bytes");
}
