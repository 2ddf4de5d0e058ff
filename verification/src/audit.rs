//! Audit helpers: re-check an event chain against a root, and re-check a
//! batch transcript against the members' transcripts.

use crate::bytes::encode_le;
use crate::chain::{chain_verify, event_views, spec_chain_verify};
use crate::common::domain;
use crate::ct::{choice_bit, choice_from_bit, ct_eq_bytes};
use crate::pipeline::{batch_body, spec_batch};
use crate::xof::{absorbed, shake256, xof_new, xof_squeeze, xof_update};
use vstd::prelude::*;

verus! {

/// Check the events against an expected chain root: 1 exactly when the list
/// is non-empty and its root is the expected one.
pub fn verify_chain_attestation(events: &[&[u8]], expected_root: &[u8; 32]) -> (c: subtle::Choice)
    ensures
        choice_bit(c) == spec_chain_verify(event_views(events@), expected_root@),
{
    chain_verify(events, expected_root)
}

/// The transcripts of a list of 32-byte arrays, as byte strings.
pub open spec fn transcript_views(ts: Seq<[u8; 32]>) -> Seq<Seq<u8>> {
    ts.map_values(|t: [u8; 32]| t@)
}

/// Recompute the batch transcript from the members' transcripts and compare
/// it with the expected one: 1 exactly when the list is non-empty and the
/// recomputed transcript is the expected one.
pub fn verify_batch_transcripts(individual_transcripts: &[[u8; 32]], expected_batch_transcript: &[u8; 32]) -> (c: subtle::Choice)
    requires
        individual_transcripts@.len() < u64::MAX,
    ensures
        choice_bit(c) == (if individual_transcripts@.len() > 0
            && shake256(domain::BATCH_HEAD@ + batch_body(transcript_views(individual_transcripts@)), 32)
                == expected_batch_transcript@ { 1u8 } else { 0u8 }),
{
    if individual_transcripts.len() == 0 {
        return choice_from_bit(0);
    }
    let ghost ts = transcript_views(individual_transcripts@);
    let mut xof = xof_new();
    xof_update(&mut xof, &domain::BATCH_HEAD);
    assert(ts.subrange(0, 0) =~= Seq::<Seq<u8>>::empty());
    let mut i: usize = 0;
    while i < individual_transcripts.len()
        invariant
            i <= individual_transcripts@.len(),
            individual_transcripts@.len() < u64::MAX,
            ts == transcript_views(individual_transcripts@),
            absorbed(xof) == domain::BATCH_HEAD@ + batch_body(ts.subrange(0, i as int)),
        decreases individual_transcripts@.len() - i,
    {
        let step = encode_le(i as u128, 8);
        xof_update(&mut xof, &domain::BATCH_STEP);
        xof_update(&mut xof, step.as_slice());
        let t: &[u8; 32] = &individual_transcripts[i];
        xof_update(&mut xof, t);
        proof {
            let next = ts.subrange(0, i + 1);
            assert(next.drop_last() =~= ts.subrange(0, i as int));
            assert(next.last() == individual_transcripts@[i as int]@);
            assert(absorbed(xof) =~= domain::BATCH_HEAD@ + batch_body(next));
        }
        i = i + 1;
    }
    assert(ts.subrange(0, individual_transcripts@.len() as int) =~= ts);
    let computed = xof_squeeze(xof, 32);
    ct_eq_bytes(computed.as_slice(), expected_batch_transcript)
}

/// A batch verdict passes the audit: recomputing the batch transcript from
/// the members' transcripts reproduces the transcript of the batch verdict.
pub proof fn lemma_batch_transcript_audits(ts: Seq<[u8; 32]>, members: Seq<(u8, Seq<u8>)>)
    requires
        members.map_values(|v: (u8, Seq<u8>)| v.1) == transcript_views(ts),
    ensures
        shake256(domain::BATCH_HEAD@ + batch_body(transcript_views(ts)), 32) == spec_batch(members).1,
{
}

} // verus!
