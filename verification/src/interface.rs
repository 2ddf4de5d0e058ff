//! The developer-facing surface: attest bytes, text, labelled payloads,
//! batches, event chains and blinded claims in one call each. Reading files
//! and directories is the caller's part; everything computed on the bytes
//! is here.

use crate::blind::{blind_claim as blind_with, spec_blind, unblind_transcript, spec_unblind_mask, BlindFactor};
use crate::chain::{chain_root, chain_verify, event_views, spec_chain_root, spec_chain_verify, spec_file_events, ChainState};
use crate::ct::choice_unwrap;
use crate::l0_memlock::zeroize_bytes;
use crate::l1_entropy::JitterSource;
use crate::l7_emit::Verdict;
use crate::pipeline::{
    spec_batch, spec_pipeline, spec_vm_seed, verdict_matches, verdict_views, verify_batch, verify_once, verify_once_outcome,
    verify_once_with_vm, Claim,
};
use crate::execution::vm::vm_root;
use crate::l4_prove::MlDsaProver;
use crate::l5_verify::MlDsaVerifier;
use crate::VeilError;
use vstd::prelude::*;
use vstd::string::StringSliceAdditionalSpecFns;

verus! {

/// Attest raw bytes.
pub fn attest_bytes<J: JitterSource>(bytes: &[u8], jitter: &mut J) -> (r: Result<Verdict, VeilError>)
    ensures
        verify_once_outcome(Seq::empty(), bytes@, r),
{
    verify_once(&Claim::new(bytes), jitter)
}

/// Attest a UTF-8 string by its bytes.
pub fn attest_text<J: JitterSource>(text: &str, jitter: &mut J) -> (r: Result<Verdict, VeilError>)
    ensures
        verify_once_outcome(Seq::empty(), text.spec_bytes(), r),
{
    attest_bytes(text.as_bytes(), jitter)
}

/// Attest a payload with a label that personalizes the harvested entropy.
pub fn attest_structured<J: JitterSource>(label: &[u8], payload: &[u8], jitter: &mut J) -> (r: Result<Verdict, VeilError>)
    ensures
        verify_once_outcome(label@, payload@, r),
{
    verify_once(&Claim { bytes: payload, personalization: label }, jitter)
}

/// Attest bytes through the MicroVM pipeline (the bytes are run as bytecode
/// and the root seeds the keys).
pub fn attest_with_vm(bytes: &[u8]) -> (r: Result<Verdict, VeilError>)
    ensures
        exists|canary: u64| #[trigger] verdict_matches(
            r,
            spec_pipeline::<MlDsaProver, MlDsaVerifier>(spec_vm_seed(vm_root(bytes@, canary)), bytes@),
        ),
{
    verify_once_with_vm(&Claim::new(bytes))
}

/// Attest every item and fold the verdicts into one batch verdict. Fails
/// with `Crypto` on an empty batch.
pub fn attest_batch<J: JitterSource>(items: &[&[u8]], jitter: &mut J) -> (r: Result<Verdict, VeilError>)
    requires
        items@.len() < u64::MAX,
    ensures
        items@.len() == 0 ==> (r matches Err(e) && e == VeilError::Crypto),
        r matches Err(e) ==> (items@.len() == 0 && e == VeilError::Crypto) || exists|i: int|
            0 <= i < items@.len() && #[trigger] verify_once_outcome(
                Seq::empty(),
                items@[i]@,
                Err::<Verdict, VeilError>(e),
            ),
        r matches Ok(v) ==> exists|vs: Seq<Verdict>|
            vs.len() == items@.len()
            && v@ == #[trigger] spec_batch(verdict_views(vs))
            && forall|i: int| 0 <= i < vs.len() ==> verify_once_outcome(
                Seq::empty(),
                items@[i]@,
                Ok::<Verdict, VeilError>(#[trigger] vs[i]),
            ),
{
    let mut claims: Vec<Claim> = Vec::new();
    let mut i: usize = 0;
    while i < items.len()
        invariant
            i <= items@.len(),
            claims@.len() == i,
            forall|k: int| 0 <= k < i ==> (#[trigger] claims@[k]).bytes@ == items@[k]@
                && claims@[k].personalization@ == Seq::<u8>::empty(),
        decreases items@.len() - i,
    {
        claims.push(Claim::new(items[i]));
        i = i + 1;
    }
    let r = verify_batch(claims.as_slice(), jitter);
    proof {
        if r is Ok {
            let v = r->Ok_0;
            let vs = choose|vs: Seq<Verdict>|
                vs.len() == claims@.len()
                && v@ == #[trigger] spec_batch(verdict_views(vs))
                && forall|i: int| 0 <= i < vs.len() ==> verify_once_outcome(
                    claims@[i].personalization@,
                    claims@[i].bytes@,
                    Ok::<Verdict, VeilError>(#[trigger] vs[i]),
                );
            assert forall|i: int| 0 <= i < vs.len() implies verify_once_outcome(
                Seq::empty(),
                items@[i]@,
                Ok::<Verdict, VeilError>(#[trigger] vs[i]),
            ) by {
                assert(claims@[i].bytes@ == items@[i]@);
            }
        }
        if r is Err && items@.len() > 0 {
            let e = r->Err_0;
            let i = choose|i: int| 0 <= i < claims@.len() && #[trigger] verify_once_outcome(
                claims@[i].personalization@,
                claims@[i].bytes@,
                Err::<Verdict, VeilError>(e),
            );
            assert(claims@[i].bytes@ == items@[i]@);
            assert(verify_once_outcome(Seq::empty(), items@[i]@, Err::<Verdict, VeilError>(e)));
        }
    }
    r
}

/// Attest every string by its bytes, as one batch.
pub fn attest_batch_texts<J: JitterSource>(texts: &[&str], jitter: &mut J) -> (r: Result<Verdict, VeilError>)
    requires
        texts@.len() < u64::MAX,
    ensures
        texts@.len() == 0 ==> (r matches Err(e) && e == VeilError::Crypto),
        r matches Err(e) ==> (texts@.len() == 0 && e == VeilError::Crypto) || exists|i: int|
            0 <= i < texts@.len() && #[trigger] verify_once_outcome(
                Seq::empty(),
                texts@[i].spec_bytes(),
                Err::<Verdict, VeilError>(e),
            ),
        r matches Ok(v) ==> exists|vs: Seq<Verdict>|
            vs.len() == texts@.len()
            && v@ == #[trigger] spec_batch(verdict_views(vs))
            && forall|i: int| 0 <= i < vs.len() ==> verify_once_outcome(
                Seq::empty(),
                texts@[i].spec_bytes(),
                Ok::<Verdict, VeilError>(#[trigger] vs[i]),
            ),
{
    let mut items: Vec<&[u8]> = Vec::new();
    let mut i: usize = 0;
    while i < texts.len()
        invariant
            i <= texts@.len(),
            items@.len() == i,
            forall|k: int| 0 <= k < i ==> (#[trigger] items@[k])@ == texts@[k].spec_bytes(),
        decreases texts@.len() - i,
    {
        items.push(texts[i].as_bytes());
        i = i + 1;
    }
    let r = attest_batch(items.as_slice(), jitter);
    proof {
        if r is Ok {
            let v = r->Ok_0;
            let vs = choose|vs: Seq<Verdict>|
                vs.len() == items@.len()
                && v@ == #[trigger] spec_batch(verdict_views(vs))
                && forall|i: int| 0 <= i < vs.len() ==> verify_once_outcome(
                    Seq::empty(),
                    items@[i]@,
                    Ok::<Verdict, VeilError>(#[trigger] vs[i]),
                );
            assert forall|i: int| 0 <= i < vs.len() implies verify_once_outcome(
                Seq::empty(),
                texts@[i].spec_bytes(),
                Ok::<Verdict, VeilError>(#[trigger] vs[i]),
            ) by {
                assert(items@[i]@ == texts@[i].spec_bytes());
            }
        }
        if r is Err && texts@.len() > 0 {
            let e = r->Err_0;
            let i = choose|i: int| 0 <= i < items@.len() && #[trigger] verify_once_outcome(
                Seq::empty(),
                items@[i]@,
                Err::<Verdict, VeilError>(e),
            );
            assert(items@[i]@ == texts@[i].spec_bytes());
            assert(verify_once_outcome(Seq::empty(), texts@[i].spec_bytes(), Err::<Verdict, VeilError>(e)));
        }
    }
    r
}

/// Attest an ordered event chain by its root. Fails with `Crypto` on an
/// empty chain.
pub fn attest_chain<J: JitterSource>(events: &[&[u8]], jitter: &mut J) -> (r: Result<Verdict, VeilError>)
    ensures
        events@.len() == 0 ==> (r matches Err(e) && e == VeilError::Crypto),
        events@.len() > 0 ==> verify_once_outcome(Seq::empty(), spec_chain_root(event_views(events@)), r),
{
    let mut root = chain_root(events)?;
    let verdict = attest_bytes(&root, jitter);
    zeroize_bytes(&mut root);
    verdict
}

/// Attest the root of an accumulated chain: finalise the accumulator, attest
/// the root's bytes, and wipe the root. Fails with `Crypto` when no event was
/// absorbed.
pub fn attest_chain_state<J: JitterSource>(state: ChainState, jitter: &mut J) -> (r: Result<Verdict, VeilError>)
    requires
        state.wf(),
    ensures
        state.spec_events().len() == 0 ==> r == Err::<Verdict, VeilError>(VeilError::Crypto),
        state.spec_events().len() > 0 ==> verify_once_outcome(Seq::empty(), spec_chain_root(state.spec_events()), r),
{
    let mut root = state.finalize()?;
    let verdict = attest_bytes(&root, jitter);
    zeroize_bytes(&mut root);
    verdict
}

/// The events a sequence of files contributes to a chain: each file's path,
/// then its chunks, file after file.
pub open spec fn spec_files_events(files: Seq<(Seq<u8>, Seq<Seq<u8>>)>) -> Seq<Seq<u8>>
    decreases files.len(),
{
    if files.len() == 0 {
        Seq::empty()
    } else {
        spec_files_events(files.drop_last()) + spec_file_events(files.last().0, files.last().1)
    }
}

/// Streaming attestation of several files as one chain. The caller reads;
/// the attestor frames: `start_file` binds a file's path into the chain, and
/// each `add_chunk` appends the next piece of that file's contents.
pub struct FileChainAttestor {
    state: ChainState,
    files: Ghost<Seq<(Seq<u8>, Seq<Seq<u8>>)>>,
}

impl FileChainAttestor {
    /// The files begun so far, each with the chunks added to it, in order.
    pub closed spec fn spec_files(&self) -> Seq<(Seq<u8>, Seq<Seq<u8>>)> {
        self.files@
    }

    /// The accumulator holds exactly the framed files.
    pub closed spec fn wf(&self) -> bool {
        &&& self.state.wf()
        &&& self.state.spec_events() == spec_files_events(self.files@)
    }

    /// An attestor with no file begun.
    pub fn new() -> (a: Self)
        ensures
            a.wf(),
            a.spec_files() == Seq::<(Seq<u8>, Seq<Seq<u8>>)>::empty(),
    {
        FileChainAttestor { state: ChainState::new(), files: Ghost(Seq::empty()) }
    }

    /// Begin the next file with its path. Refused with `Crypto`, changing
    /// nothing, only when the chain already holds `usize::MAX - 1` events.
    pub fn start_file(&mut self, path: &[u8]) -> (r: Result<(), VeilError>)
        requires
            old(self).wf(),
        ensures
            final(self).wf(),
            r is Ok <==> spec_files_events(old(self).spec_files()).len() + 1 < usize::MAX,
            r matches Ok(_) ==> final(self).spec_files() == old(self).spec_files().push((path@, Seq::<Seq<u8>>::empty())),
            r matches Err(e) ==> e == VeilError::Crypto && final(self).spec_files() == old(self).spec_files(),
    {
        if self.state.len() >= usize::MAX - 1 {
            return Err(VeilError::Crypto);
        }
        let no_chunks: &[&[u8]] = &[];
        assert(event_views(no_chunks@) =~= Seq::<Seq<u8>>::empty());
        self.state.absorb_file(path, no_chunks);
        let ghost fs = self.files@.push((path@, Seq::<Seq<u8>>::empty()));
        assert(fs.drop_last() =~= self.files@);
        self.files = Ghost(fs);
        Ok(())
    }

    /// Append the next chunk of the current file. Refused with `Crypto`,
    /// changing nothing, when no file has been begun or when the chain
    /// already holds `usize::MAX - 1` events.
    pub fn add_chunk(&mut self, chunk: &[u8]) -> (r: Result<(), VeilError>)
        requires
            old(self).wf(),
        ensures
            final(self).wf(),
            r is Ok <==> old(self).spec_files().len() > 0 && spec_files_events(old(self).spec_files()).len() + 1 < usize::MAX,
            r matches Ok(_) ==> final(self).spec_files() == old(self).spec_files().update(
                old(self).spec_files().len() - 1,
                (old(self).spec_files().last().0, old(self).spec_files().last().1.push(chunk@)),
            ),
            r matches Err(e) ==> e == VeilError::Crypto && final(self).spec_files() == old(self).spec_files(),
    {
        if self.state.is_empty() || self.state.len() >= usize::MAX - 1 {
            proof {
                if self.files@.len() > 0 {
                    let f = self.files@;
                    assert(spec_file_events(f.last().0, f.last().1).len() >= 1);
                }
            }
            return Err(VeilError::Crypto);
        }
        proof {
            if self.files@.len() == 0 {
                assert(spec_files_events(self.files@).len() == 0);
            }
        }
        self.state.absorb(chunk);
        let ghost old_files = self.files@;
        let ghost last = old_files.last();
        let ghost fs = old_files.update(old_files.len() - 1, (last.0, last.1.push(chunk@)));
        proof {
            assert(fs.drop_last() =~= old_files.drop_last());
            assert(fs.last() == (last.0, last.1.push(chunk@)));
            assert(spec_file_events(last.0, last.1.push(chunk@)) =~= spec_file_events(last.0, last.1).push(chunk@));
            assert(spec_files_events(fs) =~= spec_files_events(old_files).push(chunk@));
        }
        self.files = Ghost(fs);
        Ok(())
    }

    /// Attest the chain of every file begun and every chunk added. Fails
    /// with `Crypto` when no file was begun.
    pub fn attest<J: JitterSource>(self, jitter: &mut J) -> (r: Result<Verdict, VeilError>)
        requires
            self.wf(),
        ensures
            self.spec_files().len() == 0 ==> r == Err::<Verdict, VeilError>(VeilError::Crypto),
            self.spec_files().len() > 0 ==> verify_once_outcome(
                Seq::empty(),
                spec_chain_root(spec_files_events(self.spec_files())),
                r,
            ),
    {
        let ghost files = self.files@;
        proof {
            if files.len() > 0 {
                assert(spec_file_events(files.last().0, files.last().1).len() >= 1);
            }
        }
        attest_chain_state(self.state, jitter)
    }
}

/// Whether the events reproduce the expected chain root.
pub fn check_chain(events: &[&[u8]], expected_root: &[u8; 32]) -> (ok: bool)
    ensures
        ok == (spec_chain_verify(event_views(events@), expected_root@) == 1),
{
    choice_unwrap(&chain_verify(events, expected_root)) == 1
}

/// Blind a claim with a fresh factor; the caller keeps the factor.
pub fn blind_claim(claim: &[u8]) -> (r: Result<(Vec<u8>, BlindFactor), VeilError>)
    ensures
        r matches Ok((blinded, f)) ==> blinded@ == spec_blind(claim@, f.spec_mask()),
        r matches Err(e) ==> e == VeilError::Entropy,
{
    let factor = BlindFactor::fresh()?;
    let blinded = blind_with(claim, &factor);
    Ok((blinded, factor))
}

/// Attest already-blinded bytes.
pub fn attest_blinded<J: JitterSource>(blinded_claim: &[u8], jitter: &mut J) -> (r: Result<Verdict, VeilError>)
    ensures
        verify_once_outcome(Seq::empty(), blinded_claim@, r),
{
    verify_once(&Claim::new(blinded_claim), jitter)
}

/// Unblind a verdict's transcript with the caller's factor.
pub fn unblind_verdict(verdict: &Verdict, factor: &BlindFactor) -> (out: [u8; 32])
    ensures
        out@ == Seq::new(32, |i: int| verdict@.1[i] ^ spec_unblind_mask(factor.spec_nonce())[i]),
{
    unblind_transcript(verdict.transcript(), factor)
}

/// The bytes a chain entry attests: the previous transcript (when there is
/// one) followed by the event.
pub open spec fn spec_chain_entry(event: Seq<u8>, prev: Option<Seq<u8>>) -> Seq<u8> {
    match prev {
        Some(p) => p + event,
        None => event,
    }
}

/// Attest one event linked to the previous entry's transcript.
pub fn attest_chain_entry<J: JitterSource>(event: &[u8], prev_transcript: Option<&[u8; 32]>, jitter: &mut J) -> (r: Result<Verdict, VeilError>)
    ensures
        verify_once_outcome(
            Seq::empty(),
            spec_chain_entry(event@, match prev_transcript { Some(p) => Some(p@), None => None }),
            r,
        ),
{
    let mut chain_data: Vec<u8> = Vec::new();
    match prev_transcript {
        Some(prev) => {
            let mut i: usize = 0;
            while i < 32
                invariant
                    i <= 32,
                    chain_data@ == prev@.subrange(0, i as int),
                decreases 32 - i,
            {
                chain_data.push(prev[i]);
                i = i + 1;
                assert(chain_data@ =~= prev@.subrange(0, i as int));
            }
            assert(chain_data@ =~= prev@);
        },
        None => {},
    }
    let ghost head = chain_data@;
    let mut j: usize = 0;
    while j < event.len()
        invariant
            j <= event@.len(),
            chain_data@ == head + event@.subrange(0, j as int),
        decreases event@.len() - j,
    {
        chain_data.push(event[j]);
        j = j + 1;
        assert(chain_data@ =~= head + event@.subrange(0, j as int));
    }
    assert(event@.subrange(0, event@.len() as int) =~= event@);
    assert(chain_data@ =~= spec_chain_entry(event@, match prev_transcript { Some(p) => Some(p@), None => None }));
    verify_once(&Claim::new(chain_data.as_slice()), jitter)
}

} // verus!
