use roundhead::ammo::Ammunition;
use roundhead::geom::Vec2;
use roundhead::player::{AmmoPickup, Player};
use roundhead::weapon::Weapon;

#[test]
fn pistol_fired_straight_up_without_jitter() {
    let w = Weapon::pistol();
    let facing = Vec2 { x: 0, y: 1 };
    let jitters = vec![0i64];
    let out = w.bullets_with_jitter(facing, &jitters, Vec2 { x: 0, y: 0 }, 0);
    assert_eq!(out.len(), 1);
    // velocity is exactly straight up at bullet speed: magnitude 40 units/s
    assert_eq!(out[0].velocity, Vec2 { x: 0, y: 40_000 });
    assert_eq!(out[0].damage, 750);
    assert_eq!(out[0].position, Vec2 { x: 0, y: 0 });
}

#[test]
fn pistol_jitter_at_five_degrees_stays_near_facing() {
    let w = Weapon::pistol();
    let facing = Vec2 { x: 0, y: 1000 };
    let jitters = vec![5000i64];
    let out = w.bullets_with_jitter(facing, &jitters, Vec2 { x: 0, y: 0 }, 0);
    // sin(5 degrees) is about 0.0872: the sideways component is small
    assert!(out[0].velocity.x.abs() <= 3600);
    assert!(out[0].velocity.y >= 39_000);
}

#[test]
fn shotgun_produces_three_pellets() {
    let w = Weapon::shotgun();
    let facing = Vec2 { x: 1000, y: 0 };
    let jitters = vec![-1500i64, 5750, -10_000];
    let out = w.bullets_with_jitter(facing, &jitters, Vec2 { x: 500, y: 500 }, 7);
    assert_eq!(out.len(), 3);
    for b in &out {
        assert_eq!(b.birth_ms, 7);
        assert_eq!(b.damage, 1500);
        assert_eq!(b.position, Vec2 { x: 500, y: 500 });
    }
}

#[test]
fn drawn_jitter_stays_inside_the_cone() {
    // runs the real generator; fails if the sampler strays out of range
    let w = Weapon::pistol();
    let facing = Vec2 { x: 0, y: 1000 };
    for _ in 0..50 {
        let out = w.bullets(facing, Vec2 { x: 0, y: 0 }, 0);
        assert_eq!(out.len(), 1);
        // five degrees of jitter moves the sideways speed by at most
        // sin(5deg) * 40000, about 3500; leave room for rounding
        assert!(out[0].velocity.x.abs() <= 3600);
        assert!(out[0].velocity.y >= 39_000);
    }
}

#[test]
fn placer_weapons_make_no_bullets() {
    let w = Weapon::wall_placer();
    let out = w.bullets(Vec2 { x: 0, y: 1000 }, Vec2 { x: 0, y: 0 }, 0);
    assert_eq!(out.len(), 0);
    let w = Weapon::barrel_placer();
    let out = w.bullets(Vec2 { x: 0, y: 1000 }, Vec2 { x: 0, y: 0 }, 0);
    assert_eq!(out.len(), 0);
}

#[test]
fn can_fire_needs_ready_timer_and_ammo() {
    let mut w = Weapon::uzi();
    // timer elapsed but the magazine starts empty
    assert!(!w.can_fire());
    w.ammo.reload();
    assert!(w.can_fire());
    w.cooldown.reset();
    assert!(!w.can_fire());
}

#[test]
fn empty_uzi_cannot_be_selected_until_reloaded() {
    let mut p = Player::new();
    // the uzi's thirty-round magazine starts empty
    assert!(!p.select_weapon(1));
    assert_eq!(p.selected_weapon, 0);
    p.pickedup(AmmoPickup::Uzi);
    assert_eq!(p.weapons[1].ammo, Ammunition::Limited { capacity: 30, rounds: 30 });
    assert!(p.select_weapon(1));
    assert_eq!(p.selected_weapon, 1);
}

#[test]
fn selection_rejects_out_of_range_index() {
    let mut p = Player::new();
    assert!(!p.select_weapon(5));
    assert_eq!(p.selected_weapon, 0);
}

#[test]
fn weapon_stepping_skips_empty_magazines() {
    let mut p = Player::new();
    // everything but the pistol starts empty: stepping up goes nowhere
    assert!(!p.increment_weapon());
    assert_eq!(p.selected_weapon, 0);
    // load the shotgun; stepping up should land on it, skipping the uzi
    p.pickedup(AmmoPickup::Shotgun);
    assert!(p.increment_weapon());
    assert_eq!(p.selected_weapon, 2);
    // stepping down lands back on the pistol, skipping the empty uzi
    assert!(p.decrement_weapon());
    assert_eq!(p.selected_weapon, 0);
}

#[test]
fn object_weapons_are_the_last_two_slots() {
    let mut p = Player::new();
    assert!(!p.weapon_is_object());
    p.pickedup(AmmoPickup::Barrel);
    assert!(p.select_weapon(3));
    assert!(p.weapon_is_object());
    p.pickedup(AmmoPickup::Wall);
    assert!(p.select_weapon(4));
    assert!(p.weapon_is_object());
}
