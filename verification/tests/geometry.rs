use roundhead::geom::{clamp_coord, isqrt, round_coord, Vec2, POS_LIMIT};
use roundhead::movement::{resolve_push, separate_from};
use roundhead::entity::{BoundingCircle, Enemy};
use roundhead::trig::{cos_milli, rotate, sin_milli};
use roundhead::color::Color;
use roundhead::cooldown::Cooldown;

#[test]
fn isqrt_exact_squares_and_neighbours() {
    assert_eq!(isqrt(0), 0);
    assert_eq!(isqrt(1), 1);
    assert_eq!(isqrt(3), 1);
    assert_eq!(isqrt(4), 2);
    assert_eq!(isqrt(999_999), 999);
    assert_eq!(isqrt(1_000_000), 1000);
    assert_eq!(isqrt(1_000_000_000_000), 1_000_000);
}

#[test]
fn distance_and_length() {
    let a = Vec2 { x: 0, y: 0 };
    let b = Vec2 { x: 3000, y: 4000 };
    assert_eq!(a.dist_milli(&b), 5000);
    assert_eq!(b.length(), 5000);
}

#[test]
fn normalize_is_zero_safe() {
    let z = Vec2 { x: 0, y: 0 };
    assert_eq!(z.normalize(), Vec2 { x: 0, y: 0 });
    let v = Vec2 { x: 0, y: 250 };
    assert_eq!(v.normalize(), Vec2 { x: 0, y: 1000 });
    let d = Vec2 { x: -3000, y: 4000 };
    assert_eq!(d.normalize(), Vec2 { x: -600, y: 800 });
}

#[test]
fn rounding_snaps_half_away_from_zero() {
    assert_eq!(round_coord(499), 0);
    assert_eq!(round_coord(500), 1000);
    assert_eq!(round_coord(-499), 0);
    assert_eq!(round_coord(-500), -1000);
    assert_eq!(round_coord(1499), 1000);
    let v = Vec2 { x: 1500, y: -2501 };
    assert_eq!(v.round_unit(), Vec2 { x: 2000, y: -3000 });
}

#[test]
fn coordinates_clamp_at_the_world_band() {
    assert_eq!(clamp_coord((POS_LIMIT as i128) + 5), POS_LIMIT);
    assert_eq!(clamp_coord(-(POS_LIMIT as i128) - 5), -POS_LIMIT);
    assert_eq!(clamp_coord(42), 42);
}

#[test]
fn rotation_by_zero_is_identity() {
    let v = Vec2 { x: 123, y: -456 };
    assert_eq!(rotate(&v, 0), v);
}

#[test]
fn rotation_turns_the_right_way() {
    // a positive angle turns the up vector toward negative x? No: the
    // rotation is counterclockwise, so up tips toward negative x only for
    // a clockwise (negative) angle
    let up = Vec2 { x: 0, y: 1000 };
    let ccw = rotate(&up, 5000);
    assert!(ccw.x < 0);
    let cw = rotate(&up, -5000);
    assert!(cw.x > 0);
}

#[test]
fn small_angle_tables() {
    assert_eq!(sin_milli(0), 0);
    assert_eq!(cos_milli(0), 1000);
    // five degrees: sine near 87, cosine near 996
    let s = sin_milli(5000);
    assert!((85..=89).contains(&s));
    let c = cos_milli(5000);
    assert!((994..=998).contains(&c));
    assert_eq!(sin_milli(-5000), -s);
}

#[test]
fn pushout_moves_the_mover_out() {
    let obstacle = BoundingCircle { center: Vec2 { x: 0, y: 0 }, radius: 1000 };
    // mover half a unit to the right, inside the radius: pushed right
    let (np, pushed) = resolve_push(&obstacle, Vec2 { x: 500, y: 0 });
    assert!(pushed);
    assert_eq!(np, Vec2 { x: 1000, y: 0 });
    // outside: untouched
    let (np, pushed) = resolve_push(&obstacle, Vec2 { x: 1500, y: 0 });
    assert!(!pushed);
    assert_eq!(np, Vec2 { x: 1500, y: 0 });
}

#[test]
fn separation_nudges_overlapping_enemies_apart() {
    let mk = |x: i64| Enemy {
        position: Vec2 { x, y: 0 },
        color: Color::yellow(),
        health: 2500,
        speed_milli: 750,
        cooldown: Cooldown::ready(2000),
        should_move_next_frame: true,
    };
    let others = vec![mk(0)];
    // overlapping at 500 of the 750 radius: pushed out to 750
    let p = separate_from(Vec2 { x: 500, y: 0 }, &others);
    assert_eq!(p, Vec2 { x: 750, y: 0 });
    // clear of the radius: untouched
    let p = separate_from(Vec2 { x: 800, y: 0 }, &others);
    assert_eq!(p, Vec2 { x: 800, y: 0 });
}
