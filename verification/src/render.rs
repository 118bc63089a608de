//! What the render loop shows.
//!
//! Each iteration of the loop reads the selected index from the store and
//! looks the answer up in the table, checking the bound. Drawing the text is
//! the business of the display.

use vstd::prelude::*;
use crate::index::{AnswerIndex, ANSWER_COUNT};
use crate::store::Store;

verus! {

/// The entry of `table` at `idx`, if the table is long enough to have one.
pub fn lookup<'a>(table: &'a [&'a str], idx: AnswerIndex) -> (text: Option<&'a str>)
    ensures
        text == if idx@ < table@.len() {
            Some(table@[idx@ as int])
        } else {
            None
        },
{
    let pos = idx.position();
    if pos < table.len() {
        Some(table[pos])
    } else {
        None
    }
}

/// The answer to show now: the entry of `table` at the index that the store
/// holds. A table of [`ANSWER_COUNT`] entries has an answer for every store.
pub fn current_answer<'a>(store: &Store, table: &'a [&'a str]) -> (text: Option<&'a str>)
    ensures
        text == if store@.index < table@.len() {
            Some(table@[store@.index as int])
        } else {
            None
        },
        table@.len() >= ANSWER_COUNT ==> text.is_some(),
{
    lookup(table, store.get_index())
}

} // verus!
