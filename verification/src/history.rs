//! A bounded, chronological record of past simulation states.
//!
//! Every simulation step pushes the pre-step state of an object onto its
//! history, which acts as a ring buffer: once `MAX_PATH_LEN` entries are
//! stored, each push discards the oldest entry, so the record always holds
//! the most recent pushes, oldest first.

use vstd::prelude::*;
use std::collections::VecDeque;

verus! {

broadcast use vstd::std_specs::vecdeque::group_vec_dequeue_axioms;

/// Upper bound on the number of past states a trajectory keeps.
pub const MAX_PATH_LEN: usize = 50000;

/// Bounded queue of past states, oldest first.
///
/// `log()` is the (ghost) sequence of everything ever pushed; the view `@` is
/// the suffix of `log()` that is actually kept, which is `log()` itself while
/// it is short enough and its last `MAX_PATH_LEN` entries afterwards.
#[derive(Clone)]
pub struct History<T> {
    entries: VecDeque<T>,
    recorded: Ghost<Seq<T>>,
}

impl<T> View for History<T> {
    type V = Seq<T>;

    closed spec fn view(&self) -> Seq<T> {
        self.entries@
    }
}

impl<T> History<T> {
    /// Everything ever pushed, in push order.
    pub closed spec fn log(&self) -> Seq<T> {
        self.recorded@
    }

    /// The kept entries are the most recent pushes, in push order, and there
    /// are never more than `MAX_PATH_LEN` of them.
    pub open spec fn wf(&self) -> bool {
        &&& self@.len() == if self.log().len() <= MAX_PATH_LEN {
            self.log().len() as int
        } else {
            MAX_PATH_LEN as int
        }
        &&& self@ == self.log().skip(self.log().len() - self@.len())
    }

    /// An empty history.
    pub fn new() -> (h: Self)
        ensures
            h.wf(),
            h.log() == Seq::<T>::empty(),
    {
        let h = History { entries: VecDeque::new(), recorded: Ghost(Seq::empty()) };
        proof {
            assert(h@ =~= h.log().skip(0));
        }
        h
    }

    /// Number of kept entries.
    pub fn len(&self) -> (n: usize)
        ensures
            n == self@.len(),
    {
        self.entries.len()
    }

    /// The `i`-th kept entry, oldest first.
    pub fn get(&self, i: usize) -> (r: &T)
        requires
            i < self@.len(),
        ensures
            *r == self@[i as int],
    {
        &self.entries[i]
    }

    /// Bounded-history law: however many states have been pushed, a
    /// well-formed history holds at most `MAX_PATH_LEN` entries; they are
    /// exactly the most recent pushes, in push order; and once enough states
    /// have been pushed, exactly `MAX_PATH_LEN` of them are held.
    pub proof fn lemma_bounded(&self)
        requires
            self.wf(),
        ensures
            self@.len() <= MAX_PATH_LEN,
            self@ == self.log().skip(self.log().len() - self@.len()),
            self.log().len() >= MAX_PATH_LEN ==> self@.len() == MAX_PATH_LEN,
    {
    }

    /// Record one more state, discarding the oldest entry once the bound
    /// `MAX_PATH_LEN` is reached.
    pub fn push(&mut self, v: T)
        requires
            old(self).wf(),
        ensures
            final(self).wf(),
            final(self).log() == old(self).log().push(v),
    {
        proof {
            self.recorded@ = self.recorded@.push(v);
        }
        self.entries.push_back(v);
        if self.entries.len() > MAX_PATH_LEN {
            let _ = self.entries.pop_front();
            proof {
                assert(self@ =~= self.log().skip(self.log().len() - self@.len()));
            }
        } else {
            proof {
                assert(self@ =~= self.log().skip(self.log().len() - self@.len()));
            }
        }
    }
}

} // verus!
