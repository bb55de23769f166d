use roundhead::alerts::{push_alert, Alert};
use roundhead::color::{color_lerp, Color};
use roundhead::entity::{Barrel, Wall};
use roundhead::game::Game;
use roundhead::geom::Vec2;
use roundhead::movement::clamp_to_room;
use roundhead::pickups::pickup_locations;
use std::collections::VecDeque;

#[test]
fn fresh_game_shape() {
    let g = Game::new();
    assert_eq!(g.now_ms, 0);
    assert_eq!(g.score, 0);
    assert_eq!(g.enemies.len(), 1);
    assert_eq!(g.enemies[0].position, Vec2 { x: 0, y: 5000 });
    assert_eq!(g.pickups.len(), 16);
    assert_eq!(g.upgrades.len(), 11);
    assert!(!g.paused);
}

#[test]
fn tick_advances_the_clock() {
    let mut g = Game::new();
    g.tick(16);
    assert_eq!(g.now_ms, 16);
    g.tick(16);
    assert_eq!(g.now_ms, 32);
}

#[test]
fn paused_game_only_keeps_time() {
    let mut g = Game::new();
    g.paused = true;
    let enemies_before = g.enemies.clone();
    let score_before = g.score;
    g.tick(1000);
    assert_eq!(g.now_ms, 1000);
    assert_eq!(g.enemies, enemies_before);
    assert_eq!(g.score, score_before);
}

#[test]
fn dead_player_freezes_the_simulation() {
    let mut g = Game::new();
    g.player.health = 0;
    let enemies_before = g.enemies.clone();
    g.tick(1000);
    assert_eq!(g.now_ms, 1000);
    assert_eq!(g.enemies, enemies_before);
}

#[test]
fn shoot_spawns_a_bullet_and_respects_the_cooldown() {
    let mut g = Game::new();
    g.shoot();
    assert_eq!(g.bullets.len(), 1);
    // the pistol's half-second timer blocks an immediate second shot
    g.shoot();
    assert_eq!(g.bullets.len(), 1);
    // after the timer elapses the next shot lands
    g.tick(500);
    g.shoot();
    assert_eq!(g.bullets.len(), 2);
}

#[test]
fn bullets_expire_after_one_second() {
    let mut g = Game::new();
    g.shoot();
    assert_eq!(g.bullets.len(), 1);
    g.tick(990);
    assert_eq!(g.bullets.len(), 1);
    g.tick(20);
    assert_eq!(g.bullets.len(), 0);
}

#[test]
fn placing_walls_and_duplicate_placement_fails() {
    let mut g = Game::new();
    // wall placer in slot four; hand it a magazine first
    g.player.weapons[4].ammo.reload();
    assert!(g.player.select_weapon(4));
    assert!(g.place_object());
    assert_eq!(g.walls.len(), 1);
    // the same cell is occupied now: placement is refused
    assert!(!g.place_object());
    assert_eq!(g.walls.len(), 1);
}

#[test]
fn placing_a_barrel_in_front_of_the_player() {
    let mut g = Game::new();
    g.player.weapons[3].ammo.reload();
    assert!(g.player.select_weapon(3));
    // facing starts at (0, 1): the cell one unit up
    assert!(g.place_object());
    assert_eq!(g.barrels.len(), 1);
    assert_eq!(g.barrels[0].position, Vec2 { x: 0, y: 1000 });
}

#[test]
fn shoot_with_placer_spends_ammo_only_on_success() {
    let mut g = Game::new();
    g.player.weapons[4].ammo.reload();
    assert!(g.player.select_weapon(4));
    g.shoot();
    assert_eq!(g.walls.len(), 1);
    match g.player.weapons[4].ammo {
        roundhead::ammo::Ammunition::Limited { rounds, .. } => assert_eq!(rounds, 4),
        _ => panic!("wall placer has a magazine"),
    }
    // cell occupied: the second attempt places nothing and spends nothing
    g.tick(250);
    g.shoot();
    assert_eq!(g.walls.len(), 1);
    match g.player.weapons[4].ammo {
        roundhead::ammo::Ammunition::Limited { rounds, .. } => assert_eq!(rounds, 4),
        _ => panic!("wall placer has a magazine"),
    }
}

#[test]
fn kill_scores_a_hundred_times_the_multiplier() {
    let mut g = Game::new();
    let e = roundhead::entity::Enemy {
        position: Vec2 { x: 0, y: 0 },
        color: Color::yellow(),
        health: 0,
        speed_milli: 750,
        cooldown: roundhead::cooldown::Cooldown::ready(2000),
        should_move_next_frame: true,
    };
    g.enemy_killed_with_roll(e, 50);
    assert_eq!(g.score, 100);
    assert_eq!(g.score_multiplier.current, 2);
}

#[test]
fn elite_kill_pays_the_bonus() {
    let mut g = Game::new();
    let e = roundhead::entity::Enemy {
        position: Vec2 { x: 0, y: 0 },
        color: Color::purple(),
        health: 0,
        speed_milli: 100,
        cooldown: roundhead::cooldown::Cooldown::ready(2000),
        should_move_next_frame: true,
    };
    g.enemy_killed_with_roll(e, 50);
    assert_eq!(g.score, 100 + 1_000_000);
    // crossing the whole ladder at once: every rung applies, once each
    assert_eq!(g.upgrades.len(), 0);
    // the four unlocks joined the pickup-drop pool
    assert_eq!(g.possible_pickups.len(), 4);
    // the pistol got both its rungs: half the cooldown, double the damage
    assert_eq!(g.player.weapons[0].cooldown.total_ms, 250);
    assert_eq!(g.player.weapons[0].damage, 1500);
    // the uzi was unlocked (a full magazine) and its capacity doubled
    assert_eq!(
        g.player.weapons[1].ammo,
        roundhead::ammo::Ammunition::Limited { capacity: 60, rounds: 30 }
    );
}

#[test]
fn rare_roll_drops_a_pickup_at_the_corpse() {
    let mut g = Game::new();
    let before = g.pickups.len();
    let e = roundhead::entity::Enemy {
        position: Vec2 { x: 1234, y: 567 },
        color: Color::yellow(),
        health: 0,
        speed_milli: 750,
        cooldown: roundhead::cooldown::Cooldown::ready(2000),
        should_move_next_frame: true,
    };
    g.enemy_killed_with_roll(e, 0);
    assert_eq!(g.pickups.len(), before + 1);
    assert_eq!(g.pickups[before].position, Vec2 { x: 1234, y: 567 });
}

#[test]
fn room_clamp_pulls_entities_back_inside() {
    // past the right edge
    let p = clamp_to_room(Vec2 { x: 25_000, y: 0 }, 750);
    assert_eq!(p, Vec2 { x: 19_250, y: 0 });
    // past the top-left corner: both axes clamp
    let p = clamp_to_room(Vec2 { x: -30_000, y: 30_000 }, 750);
    assert_eq!(p, Vec2 { x: -19_250, y: 19_250 });
    // inside: untouched
    let p = clamp_to_room(Vec2 { x: 100, y: -200 }, 750);
    assert_eq!(p, Vec2 { x: 100, y: -200 });
}

#[test]
fn pickup_grid_is_the_centered_lattice() {
    let locs = pickup_locations();
    assert_eq!(locs.len(), 16);
    assert_eq!(locs[0], Vec2 { x: -7500, y: -7500 });
    assert_eq!(locs[15], Vec2 { x: 7500, y: 7500 });
}

#[test]
fn alert_queue_is_bounded_at_ten() {
    let mut q: VecDeque<Alert> = VecDeque::new();
    for i in 0..12 {
        push_alert(&mut q, Alert::new(format!("alert {}", i)));
    }
    assert_eq!(q.len(), 10);
    // the two oldest fell off the front
    assert_eq!(q[0].message, "alert 2");
    assert_eq!(q[9].message, "alert 11");
}

#[test]
fn alert_color_fades_only_in_the_last_third() {
    let mut a = Alert::with_color(String::from("hi"), Color::green());
    // young alert: full alpha
    assert_eq!(a.color().a, 1000);
    // past two thirds of its three-second life, the alpha has dropped
    a.lifetime.subtract(2500);
    assert!(a.color().a < 1000);
}

#[test]
fn damage_tint_runs_white_to_black() {
    let w = Wall { position: Vec2 { x: 0, y: 0 }, health: 10_000 };
    assert_eq!(w.damage_color(), Color::white());
    let w = Wall { position: Vec2 { x: 0, y: 0 }, health: 0 };
    assert_eq!(w.damage_color(), Color::black());
}

#[test]
fn color_lerp_endpoints() {
    let a = Color::white();
    let b = Color::black();
    // the blend parameter is inverted: the full value gives the first color
    assert_eq!(color_lerp(a, b, 1000), a);
    assert_eq!(color_lerp(a, b, 0), b);
}

#[test]
fn enemy_contact_chips_the_player() {
    let mut g = Game::new();
    // park an enemy on top of the player with an elapsed contact timer
    g.enemies.clear();
    g.enemies.push(roundhead::entity::Enemy {
        position: Vec2 { x: 0, y: 0 },
        color: Color::yellow(),
        health: 2500,
        speed_milli: 0,
        cooldown: roundhead::cooldown::Cooldown::ready(2000),
        should_move_next_frame: true,
    });
    let before = g.player.health;
    g.tick(16);
    // one contact tick: 6.66 points
    assert_eq!(g.player.health, before - 666);
}

#[test]
fn respawn_timer_adds_a_pickup_on_a_free_slot() {
    let mut g = Game::new();
    // the fresh game covers every grid slot, so a respawn adds nothing
    g.pickups.clear();
    let mut respawn = roundhead::cooldown::Cooldown::waiting(5000);
    roundhead::pickups::do_pickup_respawn(&mut respawn, &mut g.pickups, 5000);
    assert_eq!(g.pickups.len(), 1);
    let locs = pickup_locations();
    assert!(locs.contains(&g.pickups[0].position));
}

#[test]
fn barrel_blast_reaches_the_player() {
    let mut g = Game::new();
    g.player.position = Vec2 { x: 1000, y: 0 };
    let before = g.player.health;
    let dead = vec![Barrel { position: Vec2 { x: 0, y: 0 }, health: 0 }];
    g.explode(dead);
    // one unit away: the full 25 points, and a shove away from the blast
    assert_eq!(g.player.health, before - 2500);
    assert!(g.player.position.x > 1000);
}

#[test]
fn weapon_running_dry_reverts_to_the_pistol() {
    let mut g = Game::new();
    // one round in the uzi: the shot spends it and the hand falls back
    g.player.weapons[1].ammo = roundhead::ammo::Ammunition::Limited { capacity: 30, rounds: 1 };
    assert!(g.player.select_weapon(1));
    g.shoot();
    assert_eq!(g.bullets.len(), 1);
    assert!(g.player.weapons[1].ammo.is_empty());
    assert_eq!(g.player.selected_weapon, 0);
}

#[test]
fn one_shotgun_shot_costs_one_shell_for_three_pellets() {
    let mut g = Game::new();
    g.player.weapons[2].ammo.reload();
    assert!(g.player.select_weapon(2));
    g.shoot();
    assert_eq!(g.bullets.len(), 3);
    assert_eq!(
        g.player.weapons[2].ammo,
        roundhead::ammo::Ammunition::Limited { capacity: 10, rounds: 9 }
    );
    // still the shotgun in hand: nine shells left
    assert_eq!(g.player.selected_weapon, 2);
}

#[test]
fn respawn_never_doubles_up_a_slot() {
    let mut g = Game::new();
    // the fresh game already covers all sixteen grid slots
    assert_eq!(g.pickups.len(), 16);
    let mut respawn = roundhead::cooldown::Cooldown::waiting(5000);
    roundhead::pickups::do_pickup_respawn(&mut respawn, &mut g.pickups, 5000);
    assert_eq!(g.pickups.len(), 16);
}
