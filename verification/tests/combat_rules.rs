use roundhead::combat::{burry_dead, do_bullet_hits};
use roundhead::entity::{Barrel, Bullet, Enemy, Wall};
use roundhead::color::Color;
use roundhead::cooldown::Cooldown;
use roundhead::game::Game;
use roundhead::geom::Vec2;

fn enemy_at(x: i64, y: i64, health: i64) -> Enemy {
    Enemy {
        position: Vec2 { x, y },
        color: Color::yellow(),
        health,
        speed_milli: 750,
        cooldown: Cooldown::ready(2000),
        should_move_next_frame: true,
    }
}

fn bullet_at(x: i64, y: i64, damage: i64) -> Bullet {
    Bullet {
        position: Vec2 { x, y },
        velocity: Vec2 { x: 0, y: 0 },
        birth_ms: 0,
        damage,
    }
}

#[test]
fn bullet_lifespan_window() {
    let b = bullet_at(0, 0, 100);
    assert!(b.live_at(990));
    assert!(!b.live_at(1010));
}

#[test]
fn target_with_many_bullets_takes_one_hit() {
    // three overlapping bullets on one enemy: exactly one is consumed,
    // exactly one bullet's damage lands
    let mut enemies = vec![enemy_at(0, 0, 2500)];
    let mut bullets = vec![bullet_at(0, 0, 750), bullet_at(10, 0, 750), bullet_at(0, 10, 750)];
    do_bullet_hits(&mut enemies, &mut bullets, None);
    assert_eq!(enemies.len(), 1);
    assert_eq!(enemies[0].health, 2500 - 750);
    assert_eq!(bullets.len(), 2);
}

#[test]
fn bullet_damages_at_most_one_target() {
    // two enemies in the same spot, one bullet: only the first takes damage
    let mut enemies = vec![enemy_at(0, 0, 2500), enemy_at(0, 0, 2500)];
    let mut bullets = vec![bullet_at(0, 0, 750)];
    do_bullet_hits(&mut enemies, &mut bullets, None);
    assert_eq!(enemies[0].health, 2500 - 750);
    assert_eq!(enemies[1].health, 2500);
    assert_eq!(bullets.len(), 0);
}

#[test]
fn bullet_outside_hit_window_misses() {
    // the hit window is half the bounding radius (375 of 750)
    let mut enemies = vec![enemy_at(0, 0, 2500)];
    let mut bullets = vec![bullet_at(400, 0, 750)];
    do_bullet_hits(&mut enemies, &mut bullets, None);
    assert_eq!(enemies[0].health, 2500);
    assert_eq!(bullets.len(), 1);
}

#[test]
fn knockback_moves_enemy_away_from_player() {
    // player below the enemy: the hit shoves the enemy up, half its radius
    let mut enemies = vec![enemy_at(0, 1000, 2500)];
    let mut bullets = vec![bullet_at(0, 1000, 750)];
    do_bullet_hits(&mut enemies, &mut bullets, Some(Vec2 { x: 0, y: 0 }));
    assert_eq!(enemies[0].health, 2500 - 750);
    assert_eq!(enemies[0].position, Vec2 { x: 0, y: 1375 });
}

#[test]
fn burial_partitions_dead_from_alive() {
    let mut walls = vec![
        Wall { position: Vec2 { x: 0, y: 0 }, health: 100 },
        Wall { position: Vec2 { x: 1000, y: 0 }, health: 0 },
        Wall { position: Vec2 { x: 2000, y: 0 }, health: -50 },
        Wall { position: Vec2 { x: 3000, y: 0 }, health: 10_000 },
    ];
    let dead = burry_dead(&mut walls);
    assert_eq!(walls.len(), 2);
    assert_eq!(walls[0].position, Vec2 { x: 0, y: 0 });
    assert_eq!(walls[1].position, Vec2 { x: 3000, y: 0 });
    assert_eq!(dead.len(), 2);
    assert_eq!(dead[0].position, Vec2 { x: 1000, y: 0 });
    assert_eq!(dead[1].position, Vec2 { x: 2000, y: 0 });
    // survivors are unchanged in every field
    assert_eq!(walls[0].health, 100);
    assert_eq!(walls[1].health, 10_000);
}

#[test]
fn barrel_survives_three_hits_and_dies_on_the_fourth() {
    // a barrel with a hundred points of health, bullets of twenty-five
    let mut barrels = vec![Barrel { position: Vec2 { x: 0, y: 0 }, health: 10_000 }];
    for _ in 0..3 {
        let mut bullets = vec![bullet_at(0, 0, 2500)];
        do_bullet_hits(&mut barrels, &mut bullets, None);
    }
    assert_eq!(barrels[0].health, 2500);
    let none_dead = burry_dead(&mut barrels);
    assert_eq!(none_dead.len(), 0);
    assert_eq!(barrels.len(), 1);

    let mut bullets = vec![bullet_at(0, 0, 2500)];
    do_bullet_hits(&mut barrels, &mut bullets, None);
    assert_eq!(barrels[0].health, 0);
    let dead = burry_dead(&mut barrels);
    assert_eq!(barrels.len(), 0);
    assert_eq!(dead.len(), 1);

    // the dead barrel detonates: an explosion record appears at its site
    let mut game = Game::new();
    let site = dead[0].position;
    game.explode(dead);
    assert_eq!(game.explosions.len(), 1);
    assert_eq!(game.explosions[0].position, site);
}

#[test]
fn explosion_damage_scales_with_inverse_distance() {
    // an enemy one unit from the blast takes the full 25 points
    let mut game = Game::new();
    game.enemies.clear();
    game.enemies.push(enemy_at(16_000, 0, 2500));
    game.player.position = Vec2 { x: -10_000, y: 0 };
    let dead = vec![Barrel { position: Vec2 { x: 15_000, y: 0 }, health: 0 }];
    game.explode(dead);
    // distance one unit: damage 2500 * 1000 / 1000 == 2500
    assert_eq!(game.enemies[0].health, 0);
    // knockback pushed the enemy further away
    assert!(game.enemies[0].position.x > 16_000);
}
