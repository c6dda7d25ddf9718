//! The client's bounded, ordered log of sent inputs.
//!
//! Every input the client issues is stamped with the next sequence number
//! and appended here; when the server acknowledges a sequence number, the
//! acknowledged prefix is dropped. The log keeps at most the 100 most recent
//! entries, evicting the oldest first: a memory bound, accepted as a lossy
//! trade-off.

use vstd::prelude::*;
use crate::protocol::PlayerInput;

verus! {

/// The bound on retained entries.
pub const HISTORY_CAP: usize = 100;

/// The log of inputs not yet acknowledged by the server.
pub struct InputHistory {
    entries: Vec<PlayerInput>,
    next_sequence: u32,
}

impl View for InputHistory {
    type V = Seq<PlayerInput>;

    closed spec fn view(&self) -> Seq<PlayerInput> {
        self.entries@
    }
}

proof fn lemma_filter_all_false<A>(s: Seq<A>, pred: spec_fn(A) -> bool)
    requires
        forall|i: int| 0 <= i < s.len() ==> !pred(s[i]),
    ensures
        s.filter(pred) == Seq::<A>::empty(),
    decreases s.len(),
{
    reveal(Seq::filter);
    if s.len() > 0 {
        lemma_filter_all_false(s.drop_last(), pred);
    }
    assert(s.filter(pred) =~= Seq::<A>::empty());
}

proof fn lemma_filter_all_true<A>(s: Seq<A>, pred: spec_fn(A) -> bool)
    requires
        forall|i: int| 0 <= i < s.len() ==> pred(s[i]),
    ensures
        s.filter(pred) == s,
    decreases s.len(),
{
    reveal(Seq::filter);
    if s.len() > 0 {
        lemma_filter_all_true(s.drop_last(), pred);
        assert(s.drop_last().filter(pred) =~= s.drop_last());
        assert(s.filter(pred) =~= s.drop_last().push(s.last()));
        assert(s =~= s.drop_last().push(s.last()));
    } else {
        assert(s.filter(pred) =~= s);
    }
}

impl InputHistory {
    /// The sequence number the next recorded input will get.
    pub closed spec fn spec_next_sequence(self) -> u32 {
        self.next_sequence
    }

    /// Well-formed: bounded, and strictly ascending sequence numbers, all
    /// below the session counter.
    pub open spec fn wf(self) -> bool {
        &&& self@.len() <= 100
        &&& forall|i: int, j: int|
            0 <= i < j < self@.len() ==> self@[i].sequence_number < self@[
                j
            ].sequence_number
        &&& forall|i: int|
            0 <= i < self@.len() ==> self@[i].sequence_number < self.spec_next_sequence()
    }

    /// An empty history; the session counter starts at zero.
    pub fn new() -> (r: InputHistory)
        ensures
            r@ == Seq::<PlayerInput>::empty(),
            r.spec_next_sequence() == 0,
            r.wf(),
    {
        InputHistory { entries: Vec::new(), next_sequence: 0 }
    }

    /// How many inputs are waiting for acknowledgement.
    pub fn len(&self) -> (r: usize)
        ensures
            r == self@.len(),
    {
        self.entries.len()
    }

    /// The entry at a position, oldest first.
    pub fn entry_at(&self, i: usize) -> (r: PlayerInput)
        requires
            i < self@.len(),
        ensures
            r == self@[i as int],
    {
        self.entries[i]
    }

    /// The current session counter.
    pub fn next_sequence(&self) -> (r: u32)
        ensures
            r == self.spec_next_sequence(),
    {
        self.next_sequence
    }

    /// Stamp `input` with the next sequence number, append it, and evict the
    /// oldest entry if the log would exceed its bound. Returns the assigned
    /// number so the caller can transmit it.
    ///
    /// Sequence numbers strictly increase by one per call and are never
    /// reused within the session; the counter's `u32` ceiling is out of any
    /// realistic session's reach and is excluded rather than wrapped.
    pub fn record(&mut self, input: PlayerInput) -> (seq: u32)
        requires
            old(self).wf(),
            old(self).spec_next_sequence() < 0xffff_ffffu32,
        ensures
            seq == old(self).spec_next_sequence(),
            final(self).spec_next_sequence() == seq + 1,
            final(self)@ == ({
                let stamped = PlayerInput { sequence_number: seq, ..input };
                if old(self)@.len() < 100 {
                    old(self)@.push(stamped)
                } else {
                    old(self)@.subrange(1, 100).push(stamped)
                }
            }),
            final(self).wf(),
    {
        let seq = self.next_sequence;
        self.next_sequence = seq + 1;
        let stamped = PlayerInput { sequence_number: seq, ..input };
        if self.entries.len() >= HISTORY_CAP {
            self.entries.remove(0);
            proof {
                assert(self.entries@ =~= old(self)@.subrange(1, 100));
            }
        }
        self.entries.push(stamped);
        proof {
            if old(self)@.len() < 100 {
                assert(self@ =~= old(self)@.push(stamped));
            } else {
                assert(self@ =~= old(self)@.subrange(1, 100).push(stamped));
            }
        }
        seq
    }

    /// Drop every entry the server has acknowledged: afterwards the log
    /// holds exactly the previously recorded entries whose sequence number
    /// exceeds `seqno` — the reconciliation prefix property.
    ///
    /// The log is ascending by construction, so this is a prefix trim that
    /// stops at the first entry above `seqno`.
    pub fn acknowledge_up_to(&mut self, seqno: u32)
        requires
            old(self).wf(),
        ensures
            final(self)@ == old(self)@.filter(
                |e: PlayerInput| e.sequence_number > seqno,
            ),
            final(self).spec_next_sequence() == old(self).spec_next_sequence(),
            final(self).wf(),
    {
        let ghost pred = |e: PlayerInput| e.sequence_number > seqno;
        let ghost orig = self.entries@;
        let ghost mut idx: int = 0;
        while self.entries.len() > 0 && self.entries[0].sequence_number <= seqno
            invariant
                0 <= idx <= orig.len(),
                self.entries@ == orig.subrange(idx, orig.len() as int),
                forall|i: int| 0 <= i < idx ==> orig[i].sequence_number <= seqno,
                self.next_sequence == old(self).spec_next_sequence(),
            decreases orig.len() - idx,
        {
            self.entries.remove(0);
            proof {
                assert(self.entries@ =~= orig.subrange(idx + 1, orig.len() as int));
                idx = idx + 1;
            }
        }
        proof {
            let prefix = orig.subrange(0, idx);
            let suffix = orig.subrange(idx, orig.len() as int);
            assert(orig =~= prefix + suffix);
            Seq::filter_distributes_over_add(prefix, suffix, pred);
            lemma_filter_all_false(prefix, pred);
            if suffix.len() > 0 {
                assert(suffix[0].sequence_number > seqno);
                assert forall|i: int| 0 <= i < suffix.len() implies pred(suffix[i]) by {
                    if i > 0 {
                        assert(orig[idx].sequence_number < orig[idx + i].sequence_number);
                    }
                }
            }
            lemma_filter_all_true(suffix, pred);
            assert(self.entries@ =~= Seq::<PlayerInput>::empty() + suffix);
            assert(orig.filter(pred) == suffix);
        }
    }

    /// The newest recorded input, if any: what the prediction step replays.
    pub fn most_recent(&self) -> (r: Option<PlayerInput>)
        ensures
            match r {
                Some(i) => self@.len() > 0 && i == self@[self@.len() - 1],
                None => self@.len() == 0,
            },
    {
        if self.entries.len() == 0 {
            None
        } else {
            Some(self.entries[self.entries.len() - 1])
        }
    }
}

/// The history never exceeds 100 entries, however many calls were made.
pub proof fn lemma_history_bounded(h: InputHistory)
    requires
        h.wf(),
    ensures
        h@.len() <= 100,
{
}

/// Recorded sequence numbers strictly increase along the log: within one
/// session no number is issued twice and later inputs carry larger numbers.
pub proof fn lemma_history_ordered(h: InputHistory, i: int, j: int)
    requires
        h.wf(),
        0 <= i < j < h@.len(),
    ensures
        h@[i].sequence_number < h@[j].sequence_number,
{
}

} // verus!
