use magicball::index::ANSWER_COUNT;
use magicball::selector::{choose_seed, seed_from_readings, Selector, DEFAULT_SEED};

#[test]
fn default_seed_is_the_fixed_constant() {
    assert_eq!(DEFAULT_SEED, 0x0101030308080909);
}

#[test]
fn next_index_stays_in_the_table_for_many_seeds() {
    let seeds = [0u64, 1, 2, 19, 20, 0xffff, DEFAULT_SEED, u64::MAX, 0x8000_0000_0000_0000];
    for seed in seeds {
        let mut selector = Selector::from_seed(seed);
        for _ in 0..500 {
            assert!(selector.next_index().get() < ANSWER_COUNT);
        }
    }
}

#[test]
fn same_seed_gives_the_same_sequence() {
    for seed in [0u64, 42, DEFAULT_SEED, u64::MAX] {
        let mut a = Selector::from_seed(seed);
        let mut b = Selector::from_seed(seed);
        for _ in 0..200 {
            assert_eq!(a.next_index(), b.next_index());
        }
    }
}

#[test]
fn selector_reaches_every_answer() {
    let mut seen = [false; 20];
    let mut selector = Selector::from_seed(DEFAULT_SEED);
    for _ in 0..2000 {
        seen[selector.next_index().position()] = true;
    }
    assert!(seen.iter().all(|s| *s));
}

// The generator of `rand` 0.8 on a 64-bit target; a 32-bit target runs
// another algorithm and has another baseline.
#[test]
fn fixed_seed_baseline() {
    let mut selector = Selector::from_seed(0x0101030308080909);
    assert_eq!(selector.next_index().get(), 18);
    let drawn: Vec<u8> = (0..7).map(|_| selector.next_index().get()).collect();
    assert_eq!(drawn, vec![6, 13, 3, 19, 16, 12, 19]);
}

#[test]
fn boot_without_readings_uses_the_default_seed() {
    assert_eq!(choose_seed(None), DEFAULT_SEED);
    let mut booted = Selector::at_boot(None);
    let mut fixed = Selector::from_seed(DEFAULT_SEED);
    for _ in 0..50 {
        assert_eq!(booted.next_index(), fixed.next_index());
    }
}

#[test]
fn boot_with_readings_uses_their_seed() {
    assert_eq!(choose_seed(Some((2, 3))), 6);
    let mut booted = Selector::at_boot(Some((25, 3300)));
    let mut fixed = Selector::from_seed(16964);
    for _ in 0..50 {
        assert_eq!(booted.next_index(), fixed.next_index());
    }
}

#[test]
fn seed_is_the_wrapped_product_of_the_readings() {
    assert_eq!(seed_from_readings(2, 3), 6);
    assert_eq!(seed_from_readings(0, 1234), 0);
    assert_eq!(seed_from_readings(25, 3300), 16964);
    assert_eq!(seed_from_readings(100, 40000), 2304);
    assert_eq!(seed_from_readings(-1, 1), u64::MAX);
    assert_eq!(seed_from_readings(-3, 7), 0xffff_ffff_ffff_ffeb);
    assert_eq!(seed_from_readings(i16::MIN, 1), 0xffff_ffff_ffff_8000);
    assert_eq!(seed_from_readings(i16::MIN, u16::MAX), 0xffff_ffff_ffff_8000);
}
