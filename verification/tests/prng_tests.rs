use nes_utils::models::Util;
use nes_utils::prng::{random, NesPrng};

#[test]
fn one_round_from_a_fixed_seed() {
    assert_eq!(random(13, None), 21);
}

#[test]
fn many_rounds_from_a_fixed_seed() {
    assert_eq!(random(2, Some(14)), 128);
    assert_eq!(random(0xbeef, Some(5)), 111);
}

#[test]
fn zero_rounds_leave_the_accumulator_untouched() {
    assert_eq!(random(13, Some(0)), 0);
}

#[test]
fn generator_state_carries_between_draws() {
    let mut prng = NesPrng::new(2, None);
    assert_eq!(prng.get_number(), 0);
    // fourteen single rounds land where one fourteen-round draw does
    let mut last = 0;
    for _ in 0..14 {
        last = prng.random();
    }
    assert_eq!(last, 128);
    assert_eq!(prng.get_number(), 128);
}

#[test]
fn iteration_count_can_be_set_later() {
    let mut prng = NesPrng::new(2, None);
    prng.set_it(14);
    assert_eq!(prng.random(), 128);
}

#[test]
fn run_draws_like_random() {
    let mut a = NesPrng::new(13, None);
    let mut b = NesPrng::new(13, None);
    a.run();
    b.random();
    assert_eq!(a.get_number(), b.get_number());
    assert_eq!(a.get_number(), 21);
}

#[test]
fn same_seed_same_stream() {
    let mut a = NesPrng::new(0x1234, Some(7));
    let mut b = NesPrng::new(0x1234, Some(7));
    assert_eq!(a.random(), b.random());
    assert_eq!(a.random(), b.random());
}
