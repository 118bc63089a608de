//! The index of the selected answer.

use vstd::prelude::*;

verus! {

/// Number of entries in the answer table.
pub const ANSWER_COUNT: u8 = 20;

/// An index into the answer table: an integer that is always below
/// [`ANSWER_COUNT`].
#[derive(Clone, Copy, Debug, PartialEq, Eq, Structural)]
pub struct AnswerIndex {
    value: u8,
}

impl View for AnswerIndex {
    type V = nat;

    closed spec fn view(&self) -> nat {
        self.value as nat
    }
}

impl AnswerIndex {
    /// Holds of every index that executable code can get hold of.
    #[verifier::type_invariant]
    pub closed spec fn in_domain(self) -> bool {
        self.value < ANSWER_COUNT
    }

    /// A mathematical index is one exactly when it lies in the table.
    pub proof fn lemma_in_domain_is_bounded(self)
        ensures
            self.in_domain() <==> self@ < ANSWER_COUNT,
    {
    }

    /// Two indices with the same view are the same index.
    pub proof fn lemma_view_is_injective(self, other: AnswerIndex)
        ensures
            self@ == other@ <==> self == other,
    {
    }

    /// The index selected at boot: the first entry of the table.
    pub fn first() -> (idx: AnswerIndex)
        ensures
            idx@ == 0,
            idx.in_domain(),
    {
        AnswerIndex { value: 0 }
    }

    /// Accepts `value` as an index exactly when it lies in the table.
    pub fn new(value: u8) -> (idx: Option<AnswerIndex>)
        ensures
            idx.is_some() <==> value < ANSWER_COUNT,
            idx.is_some() ==> idx.unwrap()@ == value && idx.unwrap().in_domain(),
    {
        if value < ANSWER_COUNT {
            Some(AnswerIndex { value })
        } else {
            None
        }
    }

    /// Reduces a raw generator output into the table by taking its remainder.
    pub fn reduce(raw: u32) -> (idx: AnswerIndex)
        ensures
            idx@ == raw as nat % ANSWER_COUNT as nat,
            idx@ < ANSWER_COUNT,
            idx.in_domain(),
    {
        let rem: u32 = raw % (ANSWER_COUNT as u32);
        AnswerIndex { value: rem as u8 }
    }

    /// The index as a number.
    pub fn get(&self) -> (value: u8)
        ensures
            value == self@,
            value < ANSWER_COUNT,
    {
        proof {
            use_type_invariant(self);
        }
        self.value
    }

    /// The index as a position in a slice.
    pub fn position(&self) -> (pos: usize)
        ensures
            pos == self@,
            pos < ANSWER_COUNT,
    {
        proof {
            use_type_invariant(self);
        }
        self.value as usize
    }
}

} // verus!
