//! The debounce state machine of the push button.
//!
//! The machine remembers the two most recent raw samples. A release is
//! accepted as a press of the button only when both remembered samples read
//! "pressed", so a contact that bounces for a single tick selects nothing.

use vstd::prelude::*;

verus! {

/// The two most recent raw samples of the button, oldest first.
/// `true` stands for "pressed".
#[derive(Clone, Copy, Debug, PartialEq, Eq, Structural)]
pub struct DebounceHistory {
    pub older: bool,
    pub newer: bool,
}

/// What one tick of the machine yields.
#[derive(Clone, Copy, Debug, PartialEq, Eq, Structural)]
pub struct Step {
    /// The history to remember for the next tick.
    pub next: DebounceHistory,
    /// Whether this tick completes a press.
    pub select: bool,
}

/// The history at boot: the button has never been seen pressed.
pub open spec fn initial_history() -> DebounceHistory {
    DebounceHistory { older: false, newer: false }
}

/// A tick selects when the button reads released after two pressed samples.
pub open spec fn select_fires(history: DebounceHistory, reading: bool) -> bool {
    !reading && history.older && history.newer
}

/// The history after a tick: the oldest sample is dropped.
pub open spec fn shifted(history: DebounceHistory, reading: bool) -> DebounceHistory {
    DebounceHistory { older: history.newer, newer: reading }
}

/// The history after the machine, started at boot, has seen `samples`.
pub open spec fn history_after(samples: Seq<bool>) -> DebounceHistory
    decreases samples.len(),
{
    if samples.len() == 0 {
        initial_history()
    } else {
        shifted(history_after(samples.drop_last()), samples.last())
    }
}

/// Whether the machine, started at boot and fed `samples`, selects at tick `i`.
pub open spec fn fires_at(samples: Seq<bool>, i: int) -> bool
    recommends
        0 <= i < samples.len(),
{
    select_fires(history_after(samples.take(i)), samples[i])
}

/// The sample `back` ticks before tick `i`; before boot the button counts as
/// released.
pub open spec fn sample_before(samples: Seq<bool>, i: int, back: int) -> bool {
    i - back >= 0 && samples[i - back]
}

/// After any run the history holds the last two samples of the run.
pub proof fn lemma_history_is_last_two(samples: Seq<bool>)
    ensures
        history_after(samples).older == sample_before(samples, samples.len() as int, 2),
        history_after(samples).newer == sample_before(samples, samples.len() as int, 1),
    decreases samples.len(),
{
    if samples.len() > 0 {
        let front = samples.drop_last();
        lemma_history_is_last_two(front);
        if front.len() > 0 {
            assert(front[front.len() - 1] == samples[samples.len() - 2]);
        }
    }
}

/// The machine selects at a tick exactly when the two samples just before it
/// were both pressed and the sample of the tick is released.
pub proof fn lemma_select_iff_release_after_two_presses(samples: Seq<bool>, i: int)
    requires
        0 <= i < samples.len(),
    ensures
        fires_at(samples, i) <==> (i >= 2 && samples[i - 2] && samples[i - 1] && !samples[i]),
{
    let seen = samples.take(i);
    lemma_history_is_last_two(seen);
    if i >= 2 {
        assert(seen[i - 2] == samples[i - 2]);
        assert(seen[i - 1] == samples[i - 1]);
    } else if i == 1 {
        assert(seen[0] == samples[0]);
    }
}

/// The samples from `from` up to, not including, `until` all read pressed,
/// there are at least two of them, and the sample at `until` reads released.
pub open spec fn press_ends_at(samples: Seq<bool>, from: int, until: int) -> bool {
    &&& 0 <= from
    &&& from + 2 <= until < samples.len()
    &&& forall|i: int| from <= i < until ==> samples[i]
    &&& !samples[until]
}

/// One press gives one select: while the button is held the machine does not
/// select, and it selects at the tick that sees the release.
pub proof fn lemma_one_select_per_press(samples: Seq<bool>, from: int, until: int)
    requires
        press_ends_at(samples, from, until),
    ensures
        fires_at(samples, until),
        forall|i: int| from <= i < until ==> !fires_at(samples, i),
{
    lemma_select_iff_release_after_two_presses(samples, until);
    assert forall|i: int| from <= i < until implies !fires_at(samples, i) by {
        lemma_select_iff_release_after_two_presses(samples, i);
    }
}

/// A press is reported at most once: the tick after a selecting tick never
/// selects.
pub proof fn lemma_no_select_twice_in_a_row(history: DebounceHistory, first: bool, second: bool)
    requires
        select_fires(history, first),
    ensures
        !select_fires(shifted(history, first), second),
{
}

impl DebounceHistory {
    /// The history at boot.
    pub fn new() -> (history: DebounceHistory)
        ensures
            history == initial_history(),
    {
        DebounceHistory { older: false, newer: false }
    }

    /// Runs one tick of the machine on the raw reading of the button.
    pub fn step(self, reading: bool) -> (out: Step)
        ensures
            out.select == select_fires(self, reading),
            out.next == shifted(self, reading),
    {
        let select = !reading && self.older && self.newer;
        Step { next: DebounceHistory { older: self.newer, newer: reading }, select }
    }
}

/// Turns the outcome of reading the button line into a sample: a failed read
/// counts as "released", so it can never complete a press.
pub fn sample_of<E>(raw: Result<bool, E>) -> (reading: bool)
    ensures
        reading == (raw matches Ok(pressed) && pressed),
{
    match raw {
        Ok(pressed) => pressed,
        Err(_) => false,
    }
}

/// Runs the machine from boot over `samples` and reports, tick by tick,
/// whether it selected.
pub fn select_ticks(samples: &Vec<bool>) -> (fired: Vec<bool>)
    ensures
        fired@.len() == samples@.len(),
        forall|i: int| 0 <= i < samples@.len() ==> fired@[i] == fires_at(samples@, i),
        forall|i: int|
            0 <= i < samples@.len() ==> (#[trigger] fired@[i] <==> (i >= 2 && samples@[i - 2]
                && samples@[i - 1] && !samples@[i])),
{
    let mut fired: Vec<bool> = Vec::new();
    let mut history = DebounceHistory::new();
    let mut k: usize = 0;
    assert(samples@.take(0) =~= Seq::<bool>::empty());
    while k < samples.len()
        invariant
            k <= samples@.len(),
            fired@.len() == k,
            history == history_after(samples@.take(k as int)),
            forall|i: int| 0 <= i < k ==> fired@[i] == fires_at(samples@, i),
        decreases samples@.len() - k,
    {
        let out = history.step(samples[k]);
        proof {
            let seen = samples@.take(k as int + 1);
            assert(seen.drop_last() =~= samples@.take(k as int));
            assert(seen.last() == samples@[k as int]);
        }
        fired.push(out.select);
        history = out.next;
        k = k + 1;
    }
    proof {
        assert forall|i: int| 0 <= i < samples@.len() implies (#[trigger] fired@[i] <==> (i >= 2
            && samples@[i - 2] && samples@[i - 1] && !samples@[i])) by {
            lemma_select_iff_release_after_two_presses(samples@, i);
        }
    }
    fired
}

} // verus!
