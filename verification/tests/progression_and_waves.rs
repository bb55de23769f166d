use roundhead::geom::Vec2;
use roundhead::progression::{drain_ready_upgrades, Multiplier, Upgrade, UpgradeKind};
use roundhead::wave::{allowed_boxes, excluded_box, wave_things, WAVE_SPAWN_AREA};
use roundhead::cooldown::Cooldown;

#[test]
fn multiplier_decays_exactly_when_its_period_elapses() {
    let mut m = Multiplier::new();
    // climb to five: the decay period is 2000 - 66 * 5 = 1670 ms
    for _ in 0..4 {
        m.increment();
    }
    assert_eq!(m.current, 5);
    assert_eq!(m.cooldown.total_ms, 1670);
    m.subtract(1669);
    assert_eq!(m.current, 5);
    m.subtract(1);
    assert_eq!(m.current, 4);
    // and the timer rearms in full for the new value
    assert_eq!(m.cooldown.total_ms, 2000 - 66 * 4);
    assert_eq!(m.cooldown.remaining_ms, 2000 - 66 * 4);
}

#[test]
fn multiplier_never_leaves_its_band() {
    let mut m = Multiplier::new();
    m.decrement();
    assert_eq!(m.current, 1);
    for _ in 0..40 {
        m.increment();
    }
    assert_eq!(m.current, 30);
    for _ in 0..40 {
        m.subtract(10_000);
    }
    assert_eq!(m.current, 1);
}

#[test]
fn upgrade_list_is_sorted_and_complete() {
    let list = Upgrade::upgrade_list();
    assert_eq!(list.len(), 11);
    for w in list.windows(2) {
        assert!(w[0].score <= w[1].score);
    }
    assert_eq!(list[0].score, 300);
    assert_eq!(list[0].kind, UpgradeKind::PistolFast);
    assert_eq!(list[10].score, 250_000);
    assert_eq!(list[10].kind, UpgradeKind::WallUnlock);
}

#[test]
fn drain_takes_exactly_the_reached_rungs_in_order() {
    let mut q = Upgrade::upgrade_list();
    let todo = drain_ready_upgrades(&mut q, 1700);
    assert_eq!(todo.len(), 3);
    assert_eq!(todo[0].kind, UpgradeKind::PistolFast);
    assert_eq!(todo[1].kind, UpgradeKind::UziUnlock);
    assert_eq!(todo[2].kind, UpgradeKind::PistolDouble);
    assert_eq!(q.len(), 8);
    assert!(q[0].score > 1700);
    // a second drain at the same score takes nothing: no rung twice
    let again = drain_ready_upgrades(&mut q, 1700);
    assert_eq!(again.len(), 0);
    assert_eq!(q.len(), 8);
}

#[test]
fn drain_below_first_threshold_takes_nothing() {
    let mut q = Upgrade::upgrade_list();
    let todo = drain_ready_upgrades(&mut q, 299);
    assert_eq!(todo.len(), 0);
    assert_eq!(q.len(), 11);
}

#[test]
fn excluded_box_follows_the_player_quadrant() {
    // center of the room: the center box is excluded
    assert_eq!(excluded_box(Vec2 { x: 0, y: 0 }), 4);
    // the four quadrants, outside the inner region
    assert_eq!(excluded_box(Vec2 { x: 10_000, y: 10_000 }), 0);
    assert_eq!(excluded_box(Vec2 { x: 10_000, y: -10_000 }), 1);
    assert_eq!(excluded_box(Vec2 { x: -10_000, y: -10_000 }), 2);
    assert_eq!(excluded_box(Vec2 { x: -10_000, y: 10_000 }), 3);
}

#[test]
fn allowed_boxes_leave_out_the_player_box() {
    let boxes = allowed_boxes(Vec2 { x: 10_000, y: 10_000 });
    assert_eq!(boxes.len(), 4);
    for b in &boxes {
        assert_ne!(*b, Vec2 { x: 17_500, y: 17_500 });
    }
}

#[test]
fn wave_spawns_inside_permitted_boxes() {
    let player = Vec2 { x: 10_000, y: 10_000 };
    let mut timer = Cooldown::ready(10_000);
    let mut enemies = Vec::new();
    let mut wave_count: usize = 3;
    wave_things(&mut timer, &mut enemies, &mut wave_count, player, 2, 16);
    // base three plus the multiplier floor of two
    assert_eq!(enemies.len(), 5);
    assert_eq!(wave_count, 4);
    // the ten-second timer rearmed in full
    assert!(!timer.is_ready());
    assert_eq!(timer.remaining_ms, 10_000);
    let corners = [
        Vec2 { x: 17_500, y: -17_500 },
        Vec2 { x: -17_500, y: -17_500 },
        Vec2 { x: -17_500, y: 17_500 },
        Vec2 { x: -2_500, y: -2_500 },
    ];
    for e in &enemies {
        assert_eq!(e.health, 2500);
        let inside = corners.iter().any(|c| {
            c.x <= e.position.x
                && e.position.x < c.x + WAVE_SPAWN_AREA
                && c.y <= e.position.y
                && e.position.y < c.y + WAVE_SPAWN_AREA
        });
        assert!(inside, "enemy spawned outside every permitted box");
        // in particular never in the excluded top-right box
        assert!(!(e.position.x >= 17_500 && e.position.y >= 17_500));
    }
}

#[test]
fn wave_timer_holds_between_triggers() {
    let player = Vec2 { x: 0, y: 0 };
    let mut timer = Cooldown::waiting(10_000);
    let mut enemies = Vec::new();
    let mut wave_count: usize = 0;
    wave_things(&mut timer, &mut enemies, &mut wave_count, player, 1, 9_999);
    assert_eq!(enemies.len(), 0);
    assert_eq!(wave_count, 0);
    wave_things(&mut timer, &mut enemies, &mut wave_count, player, 1, 1);
    assert_eq!(enemies.len(), 4);
    assert_eq!(wave_count, 1);
}
