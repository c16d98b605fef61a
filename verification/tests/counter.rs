use doubling_counter::counter::CounterState;
use doubling_counter::counter::Msg;
use num_bigint::BigUint;

fn big(n: u64) -> BigUint {
    BigUint::from(n)
}

fn two_to(k: u32) -> BigUint {
    BigUint::from(2u32).pow(k)
}

#[test]
fn starts_at_one() {
    let c = CounterState::new();
    assert_eq!(c.value(), &big(1));
    assert_eq!(c.power(), &big(1));
    assert_eq!(c.modulus(), 1);
    assert_eq!(c.value_digits(), vec![1u32]);
}

#[test]
fn first_tick_gives_two() {
    for m in 1u32..=5 {
        let mut c = CounterState::new();
        c.set_modulus(m);
        let worthy = c.tick();
        assert_eq!(c.value(), &big(2));
        assert_eq!(c.power(), &big(2));
        assert_eq!(c.modulus(), m);
        assert_eq!(worthy, 2 % m == 0);
    }
}

#[test]
fn first_tick_under_modulus_one_and_two_refreshes() {
    let mut c = CounterState::new();
    assert!(c.tick());
    let mut d = CounterState::new();
    d.set_modulus(2);
    assert!(d.tick());
    let mut e = CounterState::new();
    e.set_modulus(3);
    assert!(!e.tick());
}

#[test]
fn k_ticks_give_power_k_plus_one() {
    let mut c = CounterState::new();
    for k in 1u32..=200 {
        c.tick();
        assert_eq!(c.power(), &big(u64::from(k) + 1));
        assert_eq!(c.value(), &two_to(k));
    }
}

#[test]
fn value_is_two_to_power_minus_one_throughout() {
    let mut c = CounterState::new();
    c.set_modulus(7);
    assert_eq!(c.value(), &two_to(0));
    for _ in 0..150 {
        c.tick();
        let p = c.power().to_u32_digits()[0];
        assert_eq!(c.value(), &two_to(p - 1));
    }
}

#[test]
fn grows_past_sixty_four_bits() {
    let mut c = CounterState::new();
    for _ in 0..64 {
        c.tick();
    }
    assert_eq!(c.power(), &big(65));
    assert_eq!(c.value(), &(big(u64::MAX) + big(1)));
    assert_eq!(c.value_digits(), vec![0u32, 0, 1]);
    c.tick();
    assert_eq!(c.value_digits(), vec![0u32, 0, 2]);
}

#[test]
fn digits_are_least_significant_first() {
    let mut c = CounterState::new();
    for _ in 0..31 {
        c.tick();
    }
    assert_eq!(c.value_digits(), vec![2147483648u32]);
    c.tick();
    assert_eq!(c.value_digits(), vec![0u32, 1]);
}

#[test]
fn set_modulus_keeps_value_and_power() {
    let mut c = CounterState::new();
    for _ in 0..10 {
        c.tick();
    }
    c.set_modulus(37);
    assert_eq!(c.value(), &big(1024));
    assert_eq!(c.power(), &big(11));
    assert_eq!(c.modulus(), 37);
    c.set_modulus(500);
    assert_eq!(c.value(), &big(1024));
    assert_eq!(c.power(), &big(11));
    assert_eq!(c.modulus(), 500);
    c.set_modulus(u32::MAX);
    assert_eq!(c.modulus(), u32::MAX);
    assert_eq!(c.power(), &big(11));
}

#[test]
fn zero_modulus_is_raised_to_one() {
    let mut c = CounterState::new();
    c.set_modulus(9);
    c.set_modulus(0);
    assert_eq!(c.modulus(), 1);
    assert_eq!(c.value(), &big(1));
    assert_eq!(c.power(), &big(1));
    assert!(c.tick());
    assert_eq!(c.power(), &big(2));
    assert!(c.tick());
}

#[test]
fn modulus_three_gates_every_third_power() {
    let mut c = CounterState::new();
    c.set_modulus(3);
    let mut seen = Vec::new();
    let mut powers = Vec::new();
    for _ in 0..5 {
        seen.push(c.tick());
        powers.push(c.power().clone());
    }
    assert_eq!(powers, vec![big(2), big(3), big(4), big(5), big(6)]);
    assert_eq!(seen, vec![false, true, false, false, true]);
}

#[test]
fn gate_agrees_with_remainder() {
    for m in 1u32..=12 {
        let mut c = CounterState::new();
        c.set_modulus(m);
        for p in 2u32..=40 {
            let worthy = c.tick();
            assert_eq!(worthy, p % m == 0);
            assert_eq!(c.display_worthy(), p % m == 0);
        }
    }
}

#[test]
fn display_worthy_in_initial_state() {
    let mut c = CounterState::new();
    assert!(c.display_worthy());
    c.set_modulus(2);
    assert!(!c.display_worthy());
}

#[test]
fn missing_product_restarts_from_one() {
    let mut c = CounterState::new();
    c.set_modulus(4);
    for _ in 0..20 {
        c.tick();
    }
    let worthy = c.advance(None);
    assert_eq!(c.value(), &big(1));
    assert_eq!(c.power(), &big(1));
    assert_eq!(c.modulus(), 4);
    assert!(!worthy);
    c.set_modulus(1);
    assert!(c.advance(None));
    assert_eq!(c.power(), &big(1));
    c.tick();
    assert_eq!(c.value(), &big(2));
    assert_eq!(c.power(), &big(2));
}

#[test]
fn advance_takes_the_product() {
    let mut c = CounterState::new();
    c.set_modulus(2);
    assert!(c.advance(Some(big(2))));
    assert_eq!(c.value(), &big(2));
    assert_eq!(c.power(), &big(2));
    assert!(!c.advance(Some(big(4))));
    assert_eq!(c.value(), &big(4));
    assert_eq!(c.power(), &big(3));
}

#[test]
fn update_on_a_tick_advances() {
    let mut c = CounterState::new();
    assert!(!c.update(Msg::ModulusChange(3)));
    assert!(!c.update(Msg::UpdateTime));
    assert_eq!(c.power(), &big(2));
    assert_eq!(c.value(), &big(2));
    assert!(c.update(Msg::UpdateTime));
    assert_eq!(c.power(), &big(3));
    assert_eq!(c.value(), &big(4));
}

#[test]
fn update_on_a_pause_changes_nothing_and_redraws() {
    let mut c = CounterState::new();
    c.update(Msg::ModulusChange(5));
    c.update(Msg::UpdateTime);
    assert!(c.update(Msg::PauseTime));
    assert_eq!(c.power(), &big(2));
    assert_eq!(c.value(), &big(2));
    assert_eq!(c.modulus(), 5);
}

#[test]
fn update_on_a_modulus_change_stores_it_without_redraw() {
    let mut c = CounterState::new();
    c.update(Msg::UpdateTime);
    assert!(!c.update(Msg::ModulusChange(250)));
    assert_eq!(c.modulus(), 250);
    assert_eq!(c.power(), &big(2));
    assert!(!c.update(Msg::ModulusChange(0)));
    assert_eq!(c.modulus(), 1);
    assert_eq!(c.value(), &big(2));
}

#[test]
fn large_modulus_is_reached_exactly() {
    let mut c = CounterState::new();
    c.set_modulus(500);
    for p in 2u32..500 {
        assert!(!c.tick(), "power {}", p);
    }
    assert!(c.tick());
    assert_eq!(c.power(), &big(500));
    assert_eq!(c.value(), &two_to(499));
}
