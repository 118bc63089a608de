//! The periodic sampler: one tick per timer period.
//!
//! Each tick feeds the raw reading of the button to the debounce machine.
//! When the machine selects, the tick draws a new index and stores it. The
//! tick touches nothing but the store and the selector, so it never waits.

use vstd::prelude::*;
use crate::index::ANSWER_COUNT;
use crate::debounce::{DebounceHistory, history_after, initial_history, select_fires, shifted};
use crate::selector::Selector;
use crate::store::{Store, StoreState};

verus! {

/// The store after one tick with the given reading, where `raw` is what the
/// generator draws if the tick selects.
pub open spec fn after_tick(s: StoreState, reading: bool, raw: u32) -> StoreState {
    StoreState {
        index: if select_fires(s.history, reading) {
            raw as nat % ANSWER_COUNT as nat
        } else {
            s.index
        },
        history: shifted(s.history, reading),
    }
}

/// The store after a run of ticks. Tick `i` reads `readings[i]`, and
/// `draws[i]` is what the generator would draw in it.
pub open spec fn after_ticks(s: StoreState, readings: Seq<bool>, draws: Seq<u32>) -> StoreState
    recommends
        draws.len() == readings.len(),
    decreases readings.len(),
{
    if readings.len() == 0 {
        s
    } else {
        after_tick(
            after_ticks(s, readings.drop_last(), draws.drop_last()),
            readings.last(),
            draws.last(),
        )
    }
}

/// Whether tick `i` of a run selects.
pub open spec fn tick_selects(s: StoreState, readings: Seq<bool>, draws: Seq<u32>, i: int) -> bool
    recommends
        0 <= i < readings.len(),
        draws.len() == readings.len(),
{
    select_fires(after_ticks(s, readings.take(i), draws.take(i)).history, readings[i])
}

/// Whatever the button does and whatever the generator draws, the selected
/// index stays in the table.
pub proof fn lemma_index_always_in_domain(s: StoreState, readings: Seq<bool>, draws: Seq<u32>)
    requires
        s.index < ANSWER_COUNT,
        draws.len() == readings.len(),
    ensures
        after_ticks(s, readings, draws).index < ANSWER_COUNT,
    decreases readings.len(),
{
    if readings.len() > 0 {
        lemma_index_always_in_domain(s, readings.drop_last(), draws.drop_last());
    }
}

/// Over a run of ticks of which none selects, the selected index does not
/// change: every read of it during the run returns the same index.
pub proof fn lemma_index_kept_without_select(s: StoreState, readings: Seq<bool>, draws: Seq<u32>)
    requires
        draws.len() == readings.len(),
        forall|i: int| 0 <= i < readings.len() ==> !tick_selects(s, readings, draws, i),
    ensures
        after_ticks(s, readings, draws).index == s.index,
    decreases readings.len(),
{
    if readings.len() > 0 {
        let n = readings.len() - 1;
        let front = readings.drop_last();
        let front_draws = draws.drop_last();
        assert forall|i: int| 0 <= i < front.len() implies !tick_selects(
            s,
            front,
            front_draws,
            i,
        ) by {
            assert(front.take(i) =~= readings.take(i));
            assert(front_draws.take(i) =~= draws.take(i));
            assert(!tick_selects(s, readings, draws, i));
        }
        lemma_index_kept_without_select(s, front, front_draws);
        assert(readings.take(n) =~= front);
        assert(draws.take(n) =~= front_draws);
        assert(!tick_selects(s, readings, draws, n));
    }
}

/// The history that a run of ticks leaves in a store booted just before it is
/// the one that the debounce machine reaches on the same readings, so the
/// ticks of the run that select are those of the machine.
pub proof fn lemma_ticks_follow_machine(s: StoreState, readings: Seq<bool>, draws: Seq<u32>)
    requires
        s.history == initial_history(),
        draws.len() == readings.len(),
    ensures
        after_ticks(s, readings, draws).history == history_after(readings),
    decreases readings.len(),
{
    if readings.len() > 0 {
        lemma_ticks_follow_machine(s, readings.drop_last(), draws.drop_last());
    }
}

/// While the button is never pressed, a store keeps the index it booted
/// with.
pub proof fn lemma_idle_keeps_index(s: StoreState, readings: Seq<bool>, draws: Seq<u32>)
    requires
        draws.len() == readings.len(),
        !s.history.older || !s.history.newer,
        forall|i: int| 0 <= i < readings.len() ==> !readings[i],
    ensures
        after_ticks(s, readings, draws).index == s.index,
        !after_ticks(s, readings, draws).history.older || !after_ticks(
            s,
            readings,
            draws,
        ).history.newer,
    decreases readings.len(),
{
    if readings.len() > 0 {
        let front = readings.drop_last();
        assert forall|i: int| 0 <= i < front.len() implies !front[i] by {
            assert(front[i] == readings[i]);
        }
        lemma_idle_keeps_index(s, front, draws.drop_last());
    }
}

/// The debounce part of a tick: shifts the reading into the history of the
/// store and tells whether the tick selects. The index is left as it is.
pub fn advance(store: &mut Store, reading: bool) -> (select: bool)
    ensures
        select == select_fires(old(store)@.history, reading),
        final(store)@.history == shifted(old(store)@.history, reading),
        final(store)@.index == old(store)@.index,
{
    let pair = store.get_history();
    let out = (DebounceHistory { older: pair.0, newer: pair.1 }).step(reading);
    store.set_history((out.next.older, out.next.newer));
    out.select
}

/// One tick of the sampler. Runs the debounce machine on `reading`; if it
/// selects, draws a new index from `selector` and stores it. Returns whether
/// the tick selected. The generator is asked only on a selecting tick.
pub fn tick(store: &mut Store, selector: &mut Selector, reading: bool) -> (select: bool)
    ensures
        select == select_fires(old(store)@.history, reading),
        final(store)@.history == shifted(old(store)@.history, reading),
        !select ==> final(store)@.index == old(store)@.index,
        final(store)@.index < ANSWER_COUNT,
        exists|raw: u32| final(store)@ == after_tick(old(store)@, reading, raw),
        final(selector)@.seed == old(selector)@.seed,
        final(selector)@.draws == old(selector)@.draws + if select {
            1nat
        } else {
            0nat
        },
{
    let ghost before = store@;
    let select = advance(store, reading);
    if select {
        let drawn = selector.next_index();
        store.set_index(drawn);
        proof {
            let raw: u32 = drawn@ as u32;
            assert(raw as nat % ANSWER_COUNT as nat == drawn@);
            assert(store@ == after_tick(before, reading, raw));
        }
    } else {
        proof {
            use_type_invariant(&*store);
            store.lemma_in_domain_is_bounded();
            assert(store@ == after_tick(before, reading, 0u32));
        }
    }
    select
}

} // verus!
