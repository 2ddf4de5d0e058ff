//! The stateless end-to-end pipeline: L1 → L7 with nothing surviving the
//! call but the verdict.

use crate::bytes::{encode_le, to_array_32};
use crate::common::domain;
use crate::ct::{choice_and_bits, choice_bit, choice_from_bit, choice_ok};
use crate::execution::vm::{vm_root, MicroVM};
use crate::l0_memlock::zeroize_bytes;
use crate::l1_entropy::{harvest, harvest_outcome, JitterSource, Seed};
use crate::l2_keygen::{derive_keys, spec_keys};
use crate::l3_commit::{commit, spec_commit};
use crate::l4_prove::{MlDsaProver, Prover};
use crate::l5_verify::{spec_kem_roundtrip, MlDsaVerifier, Verifier};
use crate::pq_backends::libcrux_backend::signatures_verify;
use crate::l6_zeroise::scrub;
use crate::l7_emit::{spec_transcript, Verdict};
use crate::bytes::le_bytes;
use crate::xof::{absorbed, shake256, xof_new, xof_squeeze, xof_update};
use crate::VeilError;
use vstd::prelude::*;

verus! {

/// A claim to attest: its bytes, and the personalization that binds the
/// harvested entropy to a context.
pub struct Claim<'a> {
    /// The claim bytes.
    pub bytes: &'a [u8],
    /// The entropy personalization (empty by default).
    pub personalization: &'a [u8],
}

impl<'a> Claim<'a> {
    /// A claim over `bytes` with an empty personalization.
    pub fn new(bytes: &'a [u8]) -> (c: Self)
        ensures
            c.bytes@ == bytes@,
            c.personalization@ == Seq::<u8>::empty(),
    {
        Claim { bytes, personalization: &[] }
    }
}

/// The verdict `(bit, transcript)` the pipeline yields for a seed and a
/// claim with prover `P` and verifier `V`, or the error.
pub open spec fn spec_pipeline<P: Prover, V: Verifier>(seed: Seq<u8>, claim: Seq<u8>) -> Result<(u8, Seq<u8>), VeilError> {
    let keys = spec_keys(seed);
    let c = spec_commit(keys, claim, Seq::empty());
    match P::spec_prove(keys, c) {
        Err(e) => Err(e),
        Ok(sig) => match V::spec_verify(keys, claim, sig) {
            Err(e) => Err(e),
            Ok(bit) => Ok((bit, spec_transcript(c))),
        },
    }
}

/// Whether a returned verdict is the expected one.
pub open spec fn verdict_matches(r: Result<Verdict, VeilError>, expected: Result<(u8, Seq<u8>), VeilError>) -> bool {
    match r {
        Ok(v) => expected == Ok::<(u8, Seq<u8>), VeilError>(v@),
        Err(e) => expected == Err::<(u8, Seq<u8>), VeilError>(e),
    }
}

/// Whether `r` is what the default pipeline can yield for a claim: an
/// entropy failure, or the verdict of some seed the harvest can produce.
pub open spec fn verify_once_outcome(personalization: Seq<u8>, claim: Seq<u8>, r: Result<Verdict, VeilError>) -> bool {
    r == Err::<Verdict, VeilError>(VeilError::Entropy)
        || exists|seed: Seq<u8>| harvest_outcome(personalization, seed)
            && signatures_verify(spec_keys(seed).1)
            && #[trigger] verdict_matches(r, spec_pipeline::<MlDsaProver, MlDsaVerifier>(seed, claim))
}

/// Run L2–L7 on a caller-supplied seed: derive keys, commit to the claim,
/// prove, verify, and bind the verdict to the commitment. The seed and the
/// keys are wiped before returning.
pub fn verify_once_with_seed<P: Prover, V: Verifier>(seed: Seed, claim: &Claim) -> (r: Result<Verdict, VeilError>)
    ensures
        verdict_matches(r, spec_pipeline::<P, V>(seed@, claim.bytes@)),
        signatures_verify(spec_keys(seed@).1),
{
    let keys = derive_keys(&seed)?;
    let ghost kv = keys@;
    {
        let _wiped = seed;
    }
    let commitment = commit(&keys, claim.bytes);
    let proof = P::prove(&keys, &commitment)?;
    let valid = V::verify(&keys, claim.bytes, &proof)?;
    let verdict = Verdict::new(valid, &commitment);
    scrub(keys);
    Ok(verdict)
}

/// Harvest fresh entropy bound to the claim's personalization, then run the
/// pipeline with the ML-DSA-65 prover and verifier.
pub fn verify_once<J: JitterSource>(claim: &Claim, jitter: &mut J) -> (r: Result<Verdict, VeilError>)
    ensures
        verify_once_outcome(claim.personalization@, claim.bytes@, r),
{
    verify_once_with::<MlDsaProver, MlDsaVerifier, J>(claim, jitter)
}

/// Harvest fresh entropy, then run the pipeline with prover `P` and verifier `V`.
pub fn verify_once_with<P: Prover, V: Verifier, J: JitterSource>(claim: &Claim, jitter: &mut J) -> (r: Result<Verdict, VeilError>)
    ensures
        r == Err::<Verdict, VeilError>(VeilError::Entropy)
            || exists|seed: Seq<u8>| harvest_outcome(claim.personalization@, seed)
                && signatures_verify(spec_keys(seed).1)
                && #[trigger] verdict_matches(r, spec_pipeline::<P, V>(seed, claim.bytes@)),
{
    let seed = harvest(claim.personalization, jitter)?;
    let ghost s = seed@;
    let r = verify_once_with_seed::<P, V>(seed, claim);
    assert(verdict_matches(r, spec_pipeline::<P, V>(s, claim.bytes@)));
    r
}

/// The seed the VM pipeline derives from a root: its first 32 bytes, twice.
pub open spec fn spec_vm_seed(root: Seq<u8>) -> Seq<u8> {
    root.subrange(0, 32) + root.subrange(0, 32)
}

/// Run the claim as MicroVM bytecode and seed the pipeline with the root.
/// The root depends on the VM's canary only through whether it is intact.
pub fn verify_once_with_vm(claim: &Claim) -> (r: Result<Verdict, VeilError>)
    ensures
        exists|canary: u64| #[trigger] verdict_matches(
            r,
            spec_pipeline::<MlDsaProver, MlDsaVerifier>(spec_vm_seed(vm_root(claim.bytes@, canary)), claim.bytes@),
        ),
{
    let mut vm = MicroVM::new();
    let ghost canary = vm.spec_canary();
    let root = vm.execute(claim.bytes);
    let mut seed_bytes = [0u8; 64];
    let mut i: usize = 0;
    while i < 32
        invariant
            i <= 32,
            root@.len() == 64,
            forall|j: int| 0 <= j < i ==> seed_bytes@[j] == root@[j] && seed_bytes@[j + 32] == root@[j],
        decreases 32 - i,
    {
        seed_bytes[i] = root[i];
        seed_bytes[i + 32] = root[i];
        i = i + 1;
    }
    assert(seed_bytes@ =~= spec_vm_seed(root@));
    let seed = Seed::from_bytes(&seed_bytes);
    zeroize_bytes(&mut seed_bytes);
    let r = verify_once_with_seed::<MlDsaProver, MlDsaVerifier>(seed, claim);
    assert(verdict_matches(r, spec_pipeline::<MlDsaProver, MlDsaVerifier>(spec_vm_seed(vm_root(claim.bytes@, canary)), claim.bytes@)));
    r
}

/// The bytes the batch transcript absorbs after its head tag: for each
/// verdict `i`, the step tag, `i` as 8 little-endian bytes, and its transcript.
pub open spec fn batch_body(transcripts: Seq<Seq<u8>>) -> Seq<u8>
    decreases transcripts.len(),
{
    if transcripts.len() == 0 {
        Seq::empty()
    } else {
        let n = (transcripts.len() - 1) as nat;
        batch_body(transcripts.drop_last()) + domain::BATCH_STEP@ + le_bytes(n, 8) + transcripts.last()
    }
}

/// The verdict over a batch: bit 1 exactly when every member's bit is 1, and
/// the transcript SHAKE256 over the head tag and the batch body.
pub open spec fn spec_batch(verdicts: Seq<(u8, Seq<u8>)>) -> (u8, Seq<u8>) {
    (
        if forall|i: int| 0 <= i < verdicts.len() ==> (#[trigger] verdicts[i]).0 == 1 { 1u8 } else { 0u8 },
        shake256(domain::BATCH_HEAD@ + batch_body(verdicts.map_values(|v: (u8, Seq<u8>)| v.1)), 32),
    )
}

/// The views of a sequence of verdicts.
pub open spec fn verdict_views(vs: Seq<Verdict>) -> Seq<(u8, Seq<u8>)> {
    vs.map_values(|m: Verdict| m@)
}

/// Fold the members' verdicts into the batch verdict.
pub fn batch_verdict(verdicts: &Vec<Verdict>) -> (v: Verdict)
    requires
        verdicts@.len() < u64::MAX,
    ensures
        v@ == spec_batch(verdict_views(verdicts@)),
{
    let ghost views = verdict_views(verdicts@);
    let ghost ts = views.map_values(|v: (u8, Seq<u8>)| v.1);
    let mut all_valid = choice_from_bit(1);
    let mut xof = xof_new();
    xof_update(&mut xof, &domain::BATCH_HEAD);
    assert(ts.subrange(0, 0) =~= Seq::<Seq<u8>>::empty());
    let mut i: usize = 0;
    while i < verdicts.len()
        invariant
            i <= verdicts@.len(),
            verdicts@.len() < u64::MAX,
            views == verdict_views(verdicts@),
            ts == views.map_values(|v: (u8, Seq<u8>)| v.1),
            choice_ok(all_valid),
            choice_bit(all_valid) == (if forall|k: int| 0 <= k < i ==> (#[trigger] views[k]).0 == 1 { 1u8 } else { 0u8 }),
            absorbed(xof) == domain::BATCH_HEAD@ + batch_body(ts.subrange(0, i as int)),
        decreases verdicts@.len() - i,
    {
        let bit = if verdicts[i].is_valid_bool() { 1u8 } else { 0u8 };
        let ghost prev = choice_bit(all_valid);
        all_valid = choice_and_bits(all_valid, choice_from_bit(bit));
        proof {
            if prev == 1 && bit == 1 {
                assert forall|k: int| 0 <= k < i + 1 implies (#[trigger] views[k]).0 == 1 by {
                    if k < i {
                    } else {
                        assert(views[k] == verdicts@[k]@);
                    }
                }
            } else if prev == 0 {
                let w = choose|k: int| 0 <= k < i && (#[trigger] views[k]).0 != 1;
                assert(0 <= w < i + 1 && views[w].0 != 1);
            } else {
                assert(views[i as int] == verdicts@[i as int]@);
                assert(0 <= i < i + 1 && views[i as int].0 != 1);
            }
        }
        let step = encode_le(i as u128, 8);
        let ghost before = absorbed(xof);
        xof_update(&mut xof, &domain::BATCH_STEP);
        xof_update(&mut xof, step.as_slice());
        xof_update(&mut xof, verdicts[i].transcript());
        proof {
            let next = ts.subrange(0, i + 1);
            assert(next.drop_last() =~= ts.subrange(0, i as int));
            assert(next.last() == verdicts@[i as int]@.1);
            assert(absorbed(xof) =~= domain::BATCH_HEAD@ + batch_body(next));
        }
        i = i + 1;
    }
    assert(ts.subrange(0, verdicts@.len() as int) =~= ts);
    let out = xof_squeeze(xof, 32);
    Verdict::from_batch(all_valid, &to_array_32(&out))
}

/// Attest every claim with a fresh harvest and fold the verdicts: the batch
/// bit is 1 exactly when every member verified. Fails with `Crypto` on an
/// empty batch; any other error is the one verifying some member returned.
pub fn verify_batch<J: JitterSource>(claims: &[Claim], jitter: &mut J) -> (r: Result<Verdict, VeilError>)
    requires
        claims@.len() < u64::MAX,
    ensures
        claims@.len() == 0 ==> (r matches Err(e) && e == VeilError::Crypto),
        r matches Err(e) ==> (claims@.len() == 0 && e == VeilError::Crypto) || exists|i: int|
            0 <= i < claims@.len() && #[trigger] verify_once_outcome(
                claims@[i].personalization@,
                claims@[i].bytes@,
                Err::<Verdict, VeilError>(e),
            ),
        r matches Ok(v) ==> exists|vs: Seq<Verdict>|
            vs.len() == claims@.len()
            && v@ == #[trigger] spec_batch(verdict_views(vs))
            && forall|i: int| 0 <= i < vs.len() ==> verify_once_outcome(
                claims@[i].personalization@,
                claims@[i].bytes@,
                Ok::<Verdict, VeilError>(#[trigger] vs[i]),
            ),
{
    if claims.len() == 0 {
        return Err(VeilError::Crypto);
    }
    let mut verdicts: Vec<Verdict> = Vec::new();
    let mut i: usize = 0;
    while i < claims.len()
        invariant
            i <= claims@.len(),
            verdicts@.len() == i,
            forall|k: int| 0 <= k < i ==> verify_once_outcome(
                claims@[k].personalization@,
                claims@[k].bytes@,
                Ok::<Verdict, VeilError>(#[trigger] verdicts@[k]),
            ),
        decreases claims@.len() - i,
    {
        let v = match verify_once(&claims[i], jitter) {
            Ok(v) => v,
            Err(e) => {
                assert(verify_once_outcome(
                    claims@[i as int].personalization@,
                    claims@[i as int].bytes@,
                    Err::<Verdict, VeilError>(e),
                ));
                return Err(e);
            },
        };
        verdicts.push(v);
        i = i + 1;
    }
    let out = batch_verdict(&verdicts);
    assert(out@ == spec_batch(verdict_views(verdicts@)));
    Ok(out)
}

/// The transcript a verdict carries depends only on the seed and the claim
/// (through the commitment), never on the prover or verifier: two schemes
/// that both succeed on the same seed and claim emit the same transcript.
pub proof fn lemma_transcript_independent_of_scheme<P1: Prover, V1: Verifier, P2: Prover, V2: Verifier>(
    seed: Seq<u8>,
    claim: Seq<u8>,
)
    requires
        spec_pipeline::<P1, V1>(seed, claim) is Ok,
        spec_pipeline::<P2, V2>(seed, claim) is Ok,
    ensures
        spec_pipeline::<P1, V1>(seed, claim)->Ok_0.1 == spec_pipeline::<P2, V2>(seed, claim)->Ok_0.1,
        spec_pipeline::<P1, V1>(seed, claim)->Ok_0.1 == spec_transcript(spec_commit(spec_keys(seed), claim, Seq::empty())),
{
}

/// The pipeline's own proofs always pass the signature check: with the
/// ML-DSA-65 prover and verifier, whenever proving succeeds the verdict bit
/// is exactly the outcome of the KEM round-trip.
pub proof fn lemma_own_proof_passes_signature_check(seed: Seq<u8>, claim: Seq<u8>)
    requires
        signatures_verify(spec_keys(seed).1),
    ensures
        spec_pipeline::<MlDsaProver, MlDsaVerifier>(seed, claim) is Ok ==> spec_pipeline::<MlDsaProver, MlDsaVerifier>(seed, claim)->Ok_0.0
            == (if spec_kem_roundtrip(spec_keys(seed), spec_commit(spec_keys(seed), claim, Seq::empty())) { 1u8 } else { 0u8 }),
{
}

} // verus!
