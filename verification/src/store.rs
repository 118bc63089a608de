//! The state shared between the sampler and the render loop.
//!
//! The store holds the selected index and the debounce history. Every
//! operation is one copy of a small value, so a caller that runs each
//! operation with preemption disabled gives both sides an atomic view.

use vstd::prelude::*;
use crate::index::{AnswerIndex, ANSWER_COUNT};
use crate::debounce::{DebounceHistory, initial_history};

verus! {

/// The shared state: the selected index and the two most recent samples.
#[derive(Clone, Copy, Debug)]
pub struct Store {
    index: AnswerIndex,
    history: DebounceHistory,
}

/// What a store holds, as plain values.
pub struct StoreState {
    pub index: nat,
    pub history: DebounceHistory,
}

/// One access to the selected index.
pub enum Access {
    /// The render loop reads the index.
    Read,
    /// The sampler overwrites the index.
    Write(AnswerIndex),
}

/// The store after `v` has been written as the selected index.
pub open spec fn with_index(s: StoreState, v: AnswerIndex) -> StoreState {
    StoreState { index: v@, history: s.history }
}

/// The store after `history` has been written as the debounce history.
pub open spec fn with_history(s: StoreState, history: DebounceHistory) -> StoreState {
    StoreState { index: s.index, history }
}

/// The store after one access to the index.
pub open spec fn accessed(s: StoreState, access: Access) -> StoreState {
    match access {
        Access::Read => s,
        Access::Write(v) => with_index(s, v),
    }
}

/// The store after a sequence of accesses, each of them atomic, in the order
/// in which they took effect.
pub open spec fn after_accesses(s: StoreState, accesses: Seq<Access>) -> StoreState
    decreases accesses.len(),
{
    if accesses.len() == 0 {
        s
    } else {
        accessed(after_accesses(s, accesses.drop_last()), accesses.last())
    }
}

/// What a read that takes effect as access `i` of `accesses` returns.
pub open spec fn observed(s: StoreState, accesses: Seq<Access>, i: int) -> nat {
    after_accesses(s, accesses.take(i)).index
}

/// Every access writes an index of the table.
pub open spec fn writes_in_domain(accesses: Seq<Access>) -> bool {
    forall|j: int|
        0 <= j < accesses.len() ==> (#[trigger] accesses[j] matches Access::Write(v)
            ==> v.in_domain())
}

/// Access `w` is the only write among `accesses`.
pub open spec fn single_write_at(accesses: Seq<Access>, w: int, v: AnswerIndex) -> bool {
    &&& 0 <= w < accesses.len()
    &&& accesses[w] == Access::Write(v)
    &&& forall|j: int| 0 <= j < accesses.len() && j != w ==> accesses[j] == Access::Read
}

/// The access writes the index whose number is `value`.
pub open spec fn stores(access: Access, value: nat) -> bool {
    match access {
        Access::Read => false,
        Access::Write(v) => v@ == value,
    }
}

/// However reads and writes interleave, a read returns an index of the table:
/// the one the store started with, or one that an earlier write stored whole.
pub proof fn lemma_reads_stay_in_domain(s: StoreState, accesses: Seq<Access>, i: int)
    requires
        s.index < ANSWER_COUNT,
        writes_in_domain(accesses),
        0 <= i <= accesses.len(),
    ensures
        observed(s, accesses, i) < ANSWER_COUNT,
        observed(s, accesses, i) == s.index || exists|j: int|
            0 <= j < i && stores(#[trigger] accesses[j], observed(s, accesses, i)),
        after_accesses(s, accesses.take(i)).history == s.history,
    decreases i,
{
    let seen = accesses.take(i);
    if i > 0 {
        let earlier = accesses.take(i - 1);
        assert(seen.drop_last() =~= earlier);
        assert(seen.last() == accesses[i - 1]);
        lemma_reads_stay_in_domain(s, accesses, i - 1);
        match accesses[i - 1] {
            Access::Read => {
                if observed(s, accesses, i - 1) != s.index {
                    let j = choose|j: int|
                        0 <= j < i - 1 && stores(
                            #[trigger] accesses[j],
                            observed(s, accesses, i - 1),
                        );
                    assert(0 <= j < i && stores(accesses[j], observed(s, accesses, i)));
                }
            },
            Access::Write(v) => {
                v.lemma_in_domain_is_bounded();
                assert(stores(accesses[i - 1], observed(s, accesses, i)));
            },
        }
    }
}

/// With one write among any number of reads, each read returns the old index
/// if it takes effect before the write and the new one if after: never a
/// mixture of the two.
pub proof fn lemma_single_write_is_seen_whole(
    s: StoreState,
    accesses: Seq<Access>,
    w: int,
    v: AnswerIndex,
    i: int,
)
    requires
        single_write_at(accesses, w, v),
        0 <= i <= accesses.len(),
    ensures
        observed(s, accesses, i) == if i <= w {
            s.index
        } else {
            v@
        },
    decreases i,
{
    let seen = accesses.take(i);
    if i > 0 {
        assert(seen.drop_last() =~= accesses.take(i - 1));
        assert(seen.last() == accesses[i - 1]);
        lemma_single_write_is_seen_whole(s, accesses, w, v, i - 1);
    }
}

impl View for Store {
    type V = StoreState;

    closed spec fn view(&self) -> StoreState {
        StoreState { index: self.index@, history: self.history }
    }
}

impl Store {
    /// Holds of every store that executable code can get hold of: its index
    /// is one of the table.
    #[verifier::type_invariant]
    pub closed spec fn in_domain(self) -> bool {
        self.index.in_domain()
    }

    /// A store in its domain shows an index of the table.
    pub proof fn lemma_in_domain_is_bounded(self)
        ensures
            self.in_domain() <==> self@.index < ANSWER_COUNT,
    {
        self.index.lemma_in_domain_is_bounded();
    }

    /// The store at boot: the first answer is selected and the button has
    /// never been seen pressed.
    pub fn new() -> (store: Store)
        ensures
            store@.index == 0,
            store@.history == initial_history(),
    {
        Store { index: AnswerIndex::first(), history: DebounceHistory::new() }
    }

    /// The selected index. Reading changes nothing, so two reads with no
    /// write between them return the same index.
    pub fn get_index(&self) -> (idx: AnswerIndex)
        ensures
            idx@ == self@.index,
            idx@ < ANSWER_COUNT,
            idx.in_domain(),
    {
        proof {
            use_type_invariant(&self.index);
            self.index.lemma_in_domain_is_bounded();
        }
        self.index
    }

    /// Overwrites the selected index and leaves the history as it is.
    pub fn set_index(&mut self, v: AnswerIndex)
        ensures
            final(self)@ == with_index(old(self)@, v),
    {
        proof {
            use_type_invariant(&v);
        }
        self.index = v;
    }

    /// The two most recent samples, oldest first.
    pub fn get_history(&self) -> (pair: (bool, bool))
        ensures
            pair.0 == self@.history.older,
            pair.1 == self@.history.newer,
    {
        (self.history.older, self.history.newer)
    }

    /// Overwrites the two most recent samples, oldest first, and leaves the
    /// index as it is.
    pub fn set_history(&mut self, pair: (bool, bool))
        ensures
            final(self)@ == with_history(
                old(self)@,
                (DebounceHistory { older: pair.0, newer: pair.1 }),
            ),
    {
        proof {
            use_type_invariant(&*self);
        }
        self.history = DebounceHistory { older: pair.0, newer: pair.1 };
    }

    /// Carries out one access to the index and returns what it read, if it
    /// was a read.
    pub fn access(&mut self, access: Access) -> (seen: Option<AnswerIndex>)
        ensures
            final(self)@ == accessed(old(self)@, access),
            seen.is_some() <==> access is Read,
            seen.is_some() ==> seen.unwrap()@ == old(self)@.index,
    {
        match access {
            Access::Read => Some(self.get_index()),
            Access::Write(v) => {
                self.set_index(v);
                None
            },
        }
    }
}

} // verus!
