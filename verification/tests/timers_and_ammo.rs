use roundhead::ammo::Ammunition;
use roundhead::cooldown::Cooldown;

#[test]
fn cooldown_ready_starts_elapsed() {
    let c = Cooldown::ready(500);
    assert!(c.is_ready());
    assert_eq!(c.remaining_ms, 0);
    assert_eq!(c.percent_milli(), 1000);
}

#[test]
fn cooldown_waiting_starts_armed() {
    let c = Cooldown::waiting(500);
    assert!(!c.is_ready());
    assert_eq!(c.remaining_ms, 500);
    assert_eq!(c.percent_milli(), 0);
}

#[test]
fn cooldown_waiting_zero_is_ready() {
    let c = Cooldown::waiting(0);
    assert!(c.is_ready());
    assert_eq!(c.percent_milli(), 1000);
}

#[test]
fn cooldown_subtract_never_goes_negative() {
    let mut c = Cooldown::waiting(100);
    c.subtract(1_000_000);
    assert_eq!(c.remaining_ms, 0);
    assert!(c.is_ready());
    // a second subtraction is a no-op
    c.subtract(50);
    assert_eq!(c.remaining_ms, 0);
    assert!(c.is_ready());
}

#[test]
fn cooldown_percent_stays_in_range() {
    let mut c = Cooldown::waiting(1000);
    let mut elapsed = 0u64;
    while elapsed < 1500 {
        let p = c.percent_milli();
        assert!(p <= 1000);
        assert!(c.is_ready() == (c.remaining_ms == 0));
        c.subtract(100);
        elapsed += 100;
    }
    assert!(c.is_ready());
    assert_eq!(c.percent_milli(), 1000);
}

#[test]
fn cooldown_reset_rearms() {
    let mut c = Cooldown::ready(300);
    assert!(c.is_ready());
    c.reset();
    assert!(!c.is_ready());
    assert_eq!(c.remaining_ms, 300);
    c.subtract(299);
    assert!(!c.is_ready());
    c.subtract(1);
    assert!(c.is_ready());
}

#[test]
fn ammo_infinite_is_never_empty() {
    let mut a = Ammunition::Infinite;
    assert!(a.is_infinte());
    assert!(!a.is_empty());
    a.decrement();
    assert!(!a.is_empty());
    a.reload();
    assert!(!a.is_empty());
}

#[test]
fn ammo_decrement_stops_at_zero() {
    let mut a = Ammunition::Limited { capacity: 2, rounds: 2 };
    a.decrement();
    assert_eq!(a, Ammunition::Limited { capacity: 2, rounds: 1 });
    a.decrement();
    assert_eq!(a, Ammunition::Limited { capacity: 2, rounds: 0 });
    assert!(a.is_empty());
    a.decrement();
    assert_eq!(a, Ammunition::Limited { capacity: 2, rounds: 0 });
}

#[test]
fn ammo_reload_fills_to_capacity() {
    let mut a = Ammunition::Limited { capacity: 30, rounds: 3 };
    a.reload();
    assert_eq!(a, Ammunition::Limited { capacity: 30, rounds: 30 });
}

#[test]
fn ammo_invariant_over_mixed_sequence() {
    let mut a = Ammunition::Limited { capacity: 10, rounds: 0 };
    let check = |a: &Ammunition| match a {
        Ammunition::Limited { capacity, rounds } => assert!(rounds <= capacity),
        Ammunition::Infinite => {}
    };
    a.reload();
    check(&a);
    a.decrement();
    check(&a);
    a.scale_magazine(2000);
    check(&a);
    assert_eq!(a, Ammunition::Limited { capacity: 20, rounds: 9 });
    a.scale_magazine(250);
    check(&a);
    // a quarter of twenty, rounded: five; the nine rounds clip to five
    assert_eq!(a, Ammunition::Limited { capacity: 5, rounds: 5 });
    a.decrement();
    check(&a);
    a.reload();
    check(&a);
    assert_eq!(a, Ammunition::Limited { capacity: 5, rounds: 5 });
}

#[test]
fn ammo_scale_magazine_rounds_to_nearest() {
    let mut a = Ammunition::Limited { capacity: 3, rounds: 0 };
    a.scale_magazine(500);
    // one and a half rounds to two
    assert_eq!(a, Ammunition::Limited { capacity: 2, rounds: 0 });
}
