//! L7 — the verdict.
//!
//! The only thing that leaves the pipeline: one validity bit (as a
//! constant-time `Choice`) and a 32-byte transcript digest. No keys, no
//! signatures, no claim bytes.

use crate::bytes::{count_distinct, to_array_32};
use crate::codec::{decimal, hex, spec_decimal, spec_hex};
use crate::common::domain;
use crate::ct::{choice_bit, choice_unwrap};
use crate::l0_memlock::{all_bytes, is_all_bytes};
use crate::l3_commit::Commitment;
use crate::xof::{absorbed, shake2, shake256, xof_new, xof_squeeze, xof_update};
use crate::VeilError;
use vstd::prelude::*;

verus! {

/// Fewest distinct byte values a transcript must show.
pub const TRANSCRIPT_MIN_DISTINCT: usize = 4;

/// `Verdict { valid: `
pub const DEBUG_HEAD: [u8; 17] = [0x56, 0x65, 0x72, 0x64, 0x69, 0x63, 0x74, 0x20, 0x7b, 0x20, 0x76, 0x61, 0x6c, 0x69, 0x64, 0x3a, 0x20];
/// `, transcript: `
pub const DEBUG_MID: [u8; 14] = [0x2c, 0x20, 0x74, 0x72, 0x61, 0x6e, 0x73, 0x63, 0x72, 0x69, 0x70, 0x74, 0x3a, 0x20];
/// ` }`
pub const DEBUG_TAIL: [u8; 2] = [0x20, 0x7d];

/// The outcome of one verification: a validity bit and a transcript digest.
pub struct Verdict {
    valid: subtle::Choice,
    transcript: [u8; 32],
}

impl View for Verdict {
    type V = (u8, Seq<u8>);

    /// `(validity bit, transcript)`.
    closed spec fn view(&self) -> (u8, Seq<u8>) {
        (choice_bit(self.valid), self.transcript@)
    }
}

/// The transcript digest bound to a commitment (or a statement digest).
pub open spec fn spec_transcript(binding: Seq<u8>) -> Seq<u8> {
    shake256(domain::TRANSCRIPT@ + binding, 32)
}

/// A verdict whose bit is not 0 or 1, or whose transcript is all zeros or
/// all ones, is refused.
pub open spec fn verdict_well_formed(v: (u8, Seq<u8>)) -> bool {
    v.0 <= 1 && !all_bytes(v.1, 0) && !all_bytes(v.1, 0xFF)
}

/// A verdict passes the strength check when its transcript bytes are not all
/// equal and take at least four distinct values.
pub open spec fn verdict_strong(v: (u8, Seq<u8>)) -> bool {
    !all_bytes(v.1, v.1[0]) && v.1.to_set().len() >= TRANSCRIPT_MIN_DISTINCT
}

/// The metadata-free rendering of a verdict.
pub open spec fn spec_debug_text(v: (u8, Seq<u8>)) -> Seq<u8> {
    DEBUG_HEAD@ + spec_decimal(v.0) + DEBUG_MID@ + spec_hex(v.1) + DEBUG_TAIL@
}

impl Verdict {
    /// The verdict on a commitment: its transcript is SHAKE256 over the
    /// transcript tag and the commitment.
    pub fn new(valid: subtle::Choice, commitment: &Commitment) -> (v: Self)
        ensures
            v@ == (choice_bit(valid), spec_transcript(commitment@)),
    {
        let out = shake2(&domain::TRANSCRIPT, commitment.as_bytes(), 32);
        Verdict { valid, transcript: to_array_32(&out) }
    }

    /// The verdict on a statement digest: its transcript is SHAKE256 over the
    /// transcript tag and the digest.
    pub fn from_statement_digest(valid: subtle::Choice, statement_digest: &[u8; 32]) -> (v: Self)
        ensures
            v@ == (choice_bit(valid), spec_transcript(statement_digest@)),
    {
        let out = shake2(&domain::TRANSCRIPT, statement_digest, 32);
        Verdict { valid, transcript: to_array_32(&out) }
    }

    /// A verdict carrying an already-computed transcript.
    pub fn from_batch(valid: subtle::Choice, batch_transcript: &[u8; 32]) -> (v: Self)
        ensures
            v@ == (choice_bit(valid), batch_transcript@),
    {
        Verdict { valid, transcript: *batch_transcript }
    }

    /// The validity bit as a constant-time choice.
    pub fn is_valid(&self) -> (c: subtle::Choice)
        ensures
            choice_bit(c) == self@.0,
    {
        self.valid
    }

    /// Whether the validity bit is 1.
    pub fn is_valid_bool(&self) -> (b: bool)
        ensures
            b == (self@.0 == 1),
    {
        choice_unwrap(&self.valid) == 1
    }

    /// The transcript digest.
    pub fn transcript(&self) -> (t: &[u8; 32])
        ensures
            t@ == self@.1,
    {
        &self.transcript
    }

    /// `Verdict { valid: <bit>, transcript: <hex> }` as ASCII bytes: the bit
    /// and the digest, nothing else.
    pub fn debug_text(&self) -> (s: Vec<u8>)
        ensures
            s@ == spec_debug_text(self@),
    {
        let mut out: Vec<u8> = Vec::new();
        let bit = decimal(choice_unwrap(&self.valid));
        let digest = hex(&self.transcript);
        extend(&mut out, &DEBUG_HEAD);
        extend(&mut out, bit.as_slice());
        extend(&mut out, &DEBUG_MID);
        extend(&mut out, digest.as_slice());
        extend(&mut out, &DEBUG_TAIL);
        assert(out@ =~= spec_debug_text(self@));
        out
    }
}

/// Append `src` to `out`.
fn extend(out: &mut Vec<u8>, src: &[u8])
    ensures
        final(out)@ == old(out)@ + src@,
{
    let ghost start = out@;
    let mut i: usize = 0;
    while i < src.len()
        invariant
            i <= src@.len(),
            out@ == start + src@.subrange(0, i as int),
        decreases src@.len() - i,
    {
        out.push(src[i]);
        i = i + 1;
        assert(out@ =~= start + src@.subrange(0, i as int));
    }
    assert(src@.subrange(0, src@.len() as int) =~= src@);
}

/// Refuse a verdict whose bit is not 0 or 1, or whose transcript is all
/// zeros or all `0xFF`.
pub fn validate_verdict(verdict: &Verdict) -> (r: Result<(), VeilError>)
    ensures
        r is Ok == verdict_well_formed(verdict@),
        r matches Err(e) ==> e == VeilError::Crypto,
{
    let valid_value = choice_unwrap(&verdict.valid);
    if valid_value != 0 && valid_value != 1 {
        return Err(VeilError::Crypto);
    }
    if is_all_bytes(&verdict.transcript, 0) {
        return Err(VeilError::Crypto);
    }
    if is_all_bytes(&verdict.transcript, 0xFF) {
        return Err(VeilError::Crypto);
    }
    Ok(())
}

/// Refuse a verdict whose transcript bytes are all equal or take fewer than
/// four distinct values.
pub fn validate_verdict_strength(verdict: &Verdict) -> (r: Result<(), VeilError>)
    ensures
        r is Ok == verdict_strong(verdict@),
        r matches Err(e) ==> e == VeilError::Crypto,
{
    let transcript = &verdict.transcript;
    let first_byte = transcript[0];
    if is_all_bytes(transcript, first_byte) {
        return Err(VeilError::Crypto);
    }
    if count_distinct(transcript) < TRANSCRIPT_MIN_DISTINCT {
        return Err(VeilError::Crypto);
    }
    Ok(())
}

/// Rebind a verdict to additional context: the same bit, and a transcript
/// SHAKE256 over the tag, the old transcript and the context.
pub fn verdict_multi_source(verdict: &Verdict, additional_context: &[u8]) -> (v: Verdict)
    ensures
        v@ == (verdict@.0, shake256(domain::TRANSCRIPT@ + verdict@.1 + additional_context@, 32)),
{
    let mut xof = xof_new();
    xof_update(&mut xof, &domain::TRANSCRIPT);
    xof_update(&mut xof, verdict.transcript());
    xof_update(&mut xof, additional_context);
    assert(absorbed(xof) =~= domain::TRANSCRIPT@ + verdict@.1 + additional_context@);
    let out = xof_squeeze(xof, 32);
    Verdict { valid: verdict.valid, transcript: to_array_32(&out) }
}

/// A verdict constructor.
pub trait VerdictScheme {
    /// The verdict on a commitment.
    fn new(valid: subtle::Choice, commitment: &Commitment) -> Verdict;
}

/// The basic verdict scheme: the transcript bound to the commitment.
pub struct BasicVerdictScheme;

impl VerdictScheme for BasicVerdictScheme {
    fn new(valid: subtle::Choice, commitment: &Commitment) -> (v: Verdict)
        ensures
            v@ == (choice_bit(valid), spec_transcript(commitment@)),
    {
        Verdict::new(valid, commitment)
    }
}

} // verus!
