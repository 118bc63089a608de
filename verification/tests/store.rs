use magicball::index::AnswerIndex;
use magicball::store::{Access, Store};

#[test]
fn store_boots_with_first_answer_and_released_button() {
    let store = Store::new();
    assert_eq!(store.get_index().get(), 0);
    assert_eq!(store.get_history(), (false, false));
}

#[test]
fn set_index_overwrites_the_index_only() {
    let mut store = Store::new();
    store.set_history((true, false));
    store.set_index(AnswerIndex::new(13).unwrap());
    assert_eq!(store.get_index().get(), 13);
    assert_eq!(store.get_history(), (true, false));
    store.set_index(AnswerIndex::new(19).unwrap());
    assert_eq!(store.get_index().get(), 19);
}

#[test]
fn set_history_overwrites_the_history_only() {
    let mut store = Store::new();
    store.set_index(AnswerIndex::new(4).unwrap());
    store.set_history((false, true));
    assert_eq!(store.get_history(), (false, true));
    assert_eq!(store.get_index().get(), 4);
    store.set_history((true, true));
    assert_eq!(store.get_history(), (true, true));
}

#[test]
fn reading_twice_returns_the_same_index() {
    let mut store = Store::new();
    store.set_index(AnswerIndex::new(11).unwrap());
    let first = store.get_index();
    let second = store.get_index();
    assert_eq!(first, second);
    assert_eq!(second.get(), 11);
}

#[test]
fn reads_around_one_write_see_old_or_new() {
    let written = AnswerIndex::new(17).unwrap();
    for write_at in 0..6 {
        let mut store = Store::new();
        store.set_index(AnswerIndex::new(3).unwrap());
        for step in 0..6 {
            if step == write_at {
                assert!(store.access(Access::Write(written)).is_none());
            } else {
                let seen = store.access(Access::Read).unwrap().get();
                let expected = if step < write_at { 3 } else { 17 };
                assert_eq!(seen, expected);
                assert!(seen < 20);
            }
        }
    }
}

#[test]
fn access_leaves_the_history_alone() {
    let mut store = Store::new();
    store.set_history((true, true));
    store.access(Access::Write(AnswerIndex::new(9).unwrap()));
    store.access(Access::Read);
    assert_eq!(store.get_history(), (true, true));
    assert_eq!(store.get_index().get(), 9);
}
