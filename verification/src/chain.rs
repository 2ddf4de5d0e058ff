//! Tamper-evident event chain — domain-separated SHAKE256 accumulator.
//!
//! Framing: `CHAIN_HEAD ‖ CHAIN_STEP ‖ e_0 ‖ CHAIN_STEP ‖ e_1 ‖ …`, squeezed to
//! a 32-byte root. The root is a public anchor, reproducible by anyone holding
//! the events. [`ChainState`] builds the same root incrementally.

use crate::common::domain;
use crate::ct::{choice_bit, choice_from_bit, ct_eq_bytes};
use crate::bytes::to_array_32;
use crate::xof::{absorbed, shake256, xof_new, xof_squeeze, xof_update, Sponge};
use crate::VeilError;
use vstd::prelude::*;

verus! {

/// The plain byte strings a slice of events holds.
pub open spec fn event_views(events: Seq<&[u8]>) -> Seq<Seq<u8>> {
    events.map_values(|e: &[u8]| e@)
}

/// `CHAIN_STEP ‖ e_0 ‖ CHAIN_STEP ‖ e_1 ‖ …`.
pub open spec fn chain_body(events: Seq<Seq<u8>>) -> Seq<u8>
    decreases events.len(),
{
    if events.len() == 0 {
        Seq::empty()
    } else {
        chain_body(events.drop_last()) + domain::CHAIN_STEP@ + events.last()
    }
}

/// The 32-byte chain root of a non-empty event sequence.
pub open spec fn spec_chain_root(events: Seq<Seq<u8>>) -> Seq<u8> {
    shake256(domain::CHAIN_HEAD@ + chain_body(events), 32)
}

/// The bit `chain_verify` returns: 1 exactly when the list is non-empty and
/// its root is the expected one.
pub open spec fn spec_chain_verify(events: Seq<Seq<u8>>, expected_root: Seq<u8>) -> u8 {
    if events.len() > 0 && spec_chain_root(events) == expected_root { 1u8 } else { 0u8 }
}

/// Fold `events` through the chain accumulator and return the 32-byte root.
/// Empty input is refused: there is no chain to attest.
pub fn chain_root(events: &[&[u8]]) -> (r: Result<[u8; 32], VeilError>)
    ensures
        events@.len() == 0 <==> r is Err,
        r matches Err(e) ==> e == VeilError::Crypto,
        r matches Ok(root) ==> root@ == spec_chain_root(event_views(events@)),
{
    if events.len() == 0 {
        return Err(VeilError::Crypto);
    }
    let mut xof = xof_new();
    xof_update(&mut xof, &domain::CHAIN_HEAD);
    let n = events.len();
    let mut i: usize = 0;
    while i < n
        invariant
            i <= n,
            n == events@.len(),
            absorbed(xof) == domain::CHAIN_HEAD@ + chain_body(event_views(events@.subrange(0, i as int))),
        decreases n - i,
    {
        let ev: &[u8] = events[i];
        xof_update(&mut xof, &domain::CHAIN_STEP);
        xof_update(&mut xof, ev);
        proof {
            let prev = event_views(events@.subrange(0, i as int));
            let next = event_views(events@.subrange(0, i + 1));
            assert(next.drop_last() =~= prev);
            assert(next.last() == ev@);
        }
        i = i + 1;
        proof {
            let v = event_views(events@.subrange(0, i as int));
            assert(absorbed(xof) =~= domain::CHAIN_HEAD@ + chain_body(v));
        }
    }
    assert(events@.subrange(0, n as int) =~= events@);
    let out = xof_squeeze(xof, 32);
    Ok(to_array_32(&out))
}

/// Verify that `events` folds to `expected_root`: 1 when the events are
/// non-empty and their root equals `expected_root` byte for byte, else 0.
/// The comparison is constant time.
pub fn chain_verify(events: &[&[u8]], expected_root: &[u8; 32]) -> (c: subtle::Choice)
    ensures
        choice_bit(c) == spec_chain_verify(event_views(events@), expected_root@),
{
    match chain_root(events) {
        Ok(root) => ct_eq_bytes(&root, expected_root),
        Err(_) => choice_from_bit(0),
    }
}

/// The events one file contributes to a chain: its path, then its chunks.
pub open spec fn spec_file_events(path: Seq<u8>, chunks: Seq<Seq<u8>>) -> Seq<Seq<u8>> {
    seq![path] + chunks
}

/// Incremental builder for the chain accumulator: absorbs events one at a
/// time and finalises into the root `chain_root` gives for the whole slice.
pub struct ChainState {
    xof: Sponge,
    count: usize,
    events: Ghost<Seq<Seq<u8>>>,
}

impl ChainState {
    /// The events absorbed so far, in order.
    pub closed spec fn spec_events(&self) -> Seq<Seq<u8>> {
        self.events@
    }

    /// The sponge holds exactly the framing of the absorbed events.
    pub closed spec fn wf(&self) -> bool {
        &&& absorbed(self.xof) == domain::CHAIN_HEAD@ + chain_body(self.events@)
        &&& self.count == self.events@.len()
    }

    /// Start a new chain accumulator with no events.
    pub fn new() -> (s: Self)
        ensures
            s.wf(),
            s.spec_events() == Seq::<Seq<u8>>::empty(),
    {
        let mut xof = xof_new();
        xof_update(&mut xof, &domain::CHAIN_HEAD);
        let s = ChainState { xof, count: 0, events: Ghost(Seq::empty()) };
        assert(absorbed(s.xof) =~= domain::CHAIN_HEAD@ + chain_body(Seq::empty()));
        s
    }

    /// Append one event to the running state.
    pub fn absorb(&mut self, event: &[u8])
        requires
            old(self).wf(),
            old(self).spec_events().len() < usize::MAX,
        ensures
            final(self).wf(),
            final(self).spec_events() == old(self).spec_events().push(event@),
    {
        xof_update(&mut self.xof, &domain::CHAIN_STEP);
        xof_update(&mut self.xof, event);
        self.count = self.count + 1;
        let ghost evs = self.events@.push(event@);
        self.events = Ghost(evs);
        assert(evs.drop_last() =~= old(self).events@);
        assert(absorbed(self.xof) =~= domain::CHAIN_HEAD@ + chain_body(evs));
    }

    /// Append one file: its path as an event, binding the file boundary into
    /// the chain, then each chunk of its contents as an event, in order.
    pub fn absorb_file(&mut self, path: &[u8], chunks: &[&[u8]])
        requires
            old(self).wf(),
            old(self).spec_events().len() + 1 + chunks@.len() < usize::MAX,
        ensures
            final(self).wf(),
            final(self).spec_events() == old(self).spec_events() + spec_file_events(path@, event_views(chunks@)),
    {
        self.absorb(path);
        let mut i: usize = 0;
        while i < chunks.len()
            invariant
                self.wf(),
                i <= chunks@.len(),
                old(self).spec_events().len() + 1 + chunks@.len() < usize::MAX,
                self.spec_events() == old(self).spec_events() + seq![path@] + event_views(chunks@).subrange(0, i as int),
            decreases chunks@.len() - i,
        {
            self.absorb(chunks[i]);
            i = i + 1;
            assert(event_views(chunks@).subrange(0, i as int) =~= event_views(chunks@).subrange(0, i - 1).push(chunks@[i - 1]@));
        }
        assert(event_views(chunks@).subrange(0, chunks@.len() as int) =~= event_views(chunks@));
        assert(old(self).spec_events() + seq![path@] + event_views(chunks@) =~= old(self).spec_events() + spec_file_events(path@, event_views(chunks@)));
    }

    /// Finalise into the 32-byte root. Refused when no event was absorbed.
    pub fn finalize(self) -> (r: Result<[u8; 32], VeilError>)
        requires
            self.wf(),
        ensures
            self.spec_events().len() == 0 <==> r is Err,
            r matches Err(e) ==> e == VeilError::Crypto,
            r matches Ok(root) ==> root@ == spec_chain_root(self.spec_events()),
    {
        if self.count == 0 {
            return Err(VeilError::Crypto);
        }
        let out = xof_squeeze(self.xof, 32);
        Ok(to_array_32(&out))
    }

    /// Number of events absorbed so far.
    pub fn len(&self) -> (n: usize)
        requires
            self.wf(),
        ensures
            n == self.spec_events().len(),
    {
        self.count
    }

    /// True if no events have been absorbed yet.
    pub fn is_empty(&self) -> (b: bool)
        requires
            self.wf(),
        ensures
            b == (self.spec_events().len() == 0),
    {
        self.count == 0
    }
}

impl Default for ChainState {
    /// A new accumulator with no events.
    fn default() -> (s: Self)
        ensures
            s.wf(),
            s.spec_events() == Seq::<Seq<u8>>::empty(),
    {
        Self::new()
    }
}

/// Every non-empty event list verifies against its own root, and the root
/// a streaming accumulator finalises to after absorbing the same events is
/// that root.
pub proof fn lemma_chain_own_root(events: Seq<Seq<u8>>, state: ChainState)
    requires
        events.len() > 0,
        state.spec_events() == events,
    ensures
        spec_chain_verify(events, spec_chain_root(events)) == 1,
        spec_chain_verify(events, spec_chain_root(state.spec_events())) == 1,
{
}

} // verus!
