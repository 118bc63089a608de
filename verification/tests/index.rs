use magicball::index::{AnswerIndex, ANSWER_COUNT};

#[test]
fn table_has_twenty_answers() {
    assert_eq!(ANSWER_COUNT, 20);
}

#[test]
fn first_index_is_zero() {
    assert_eq!(AnswerIndex::first().get(), 0);
    assert_eq!(AnswerIndex::first().position(), 0);
}

#[test]
fn new_accepts_what_lies_in_the_table() {
    for v in 0..20u8 {
        let idx = AnswerIndex::new(v).unwrap();
        assert_eq!(idx.get(), v);
        assert_eq!(idx.position(), v as usize);
    }
}

#[test]
fn new_rejects_what_lies_outside() {
    assert!(AnswerIndex::new(20).is_none());
    assert!(AnswerIndex::new(21).is_none());
    assert!(AnswerIndex::new(255).is_none());
}

#[test]
fn reduce_takes_the_remainder() {
    assert_eq!(AnswerIndex::reduce(0).get(), 0);
    assert_eq!(AnswerIndex::reduce(19).get(), 19);
    assert_eq!(AnswerIndex::reduce(20).get(), 0);
    assert_eq!(AnswerIndex::reduce(39).get(), 19);
    assert_eq!(AnswerIndex::reduce(0x1234_5678).get(), 16);
    assert_eq!(AnswerIndex::reduce(u32::MAX).get(), 15);
}

#[test]
fn reduce_is_always_in_the_table() {
    let mut raw: u32 = 1;
    for _ in 0..10_000 {
        raw = raw.wrapping_mul(1_664_525).wrapping_add(1_013_904_223);
        let idx = AnswerIndex::reduce(raw);
        assert!(idx.get() < ANSWER_COUNT);
        assert_eq!(u32::from(idx.get()), raw % 20);
    }
}

#[test]
fn equal_numbers_are_equal_indices() {
    assert_eq!(AnswerIndex::reduce(27), AnswerIndex::new(7).unwrap());
    assert_ne!(AnswerIndex::reduce(27), AnswerIndex::new(8).unwrap());
}
