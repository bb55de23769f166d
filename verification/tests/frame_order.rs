use roundhead::alerts::{tick_alerts, Alert};
use roundhead::color::Color;
use roundhead::cooldown::Cooldown;
use roundhead::entity::{Enemy, Wall};
use roundhead::geom::Vec2;
use roundhead::movement::tick_enemies;
use roundhead::player::Player;
use roundhead::progression::Multiplier;
use std::collections::VecDeque;

fn enemy_at(x: i64, y: i64) -> Enemy {
    Enemy {
        position: Vec2 { x, y },
        color: Color::yellow(),
        health: 2500,
        speed_milli: 750,
        cooldown: Cooldown::waiting(2000),
        should_move_next_frame: true,
    }
}

#[test]
fn enemies_keep_health_color_speed_through_a_movement_frame() {
    let mut enemies = vec![enemy_at(10_000, 0), enemy_at(-10_000, 0)];
    let mut walls: Vec<Wall> = Vec::new();
    let barrels = Vec::new();
    let mut player_health: i64 = 3000;
    tick_enemies(
        &mut enemies,
        &mut walls,
        &barrels,
        Vec2 { x: 0, y: 0 },
        &mut player_health,
        16,
    );
    assert_eq!(enemies.len(), 2);
    for e in &enemies {
        assert_eq!(e.health, 2500);
        assert_eq!(e.speed_milli, 750);
        assert_eq!(e.color, Color::yellow());
    }
    // nobody touched the player
    assert_eq!(player_health, 3000);
}

#[test]
fn enemies_step_toward_the_player() {
    let mut enemies = vec![enemy_at(10_000, 0)];
    let mut walls: Vec<Wall> = Vec::new();
    let barrels = Vec::new();
    let mut player_health: i64 = 3000;
    // one second at speed 0.75: the enemy closes 750 milli-units
    tick_enemies(
        &mut enemies,
        &mut walls,
        &barrels,
        Vec2 { x: 0, y: 0 },
        &mut player_health,
        1000,
    );
    assert_eq!(enemies[0].position, Vec2 { x: 10_000 - 750, y: 0 });
}

#[test]
fn contact_damage_is_gated_by_the_enemy_timer() {
    let mut enemies = vec![Enemy {
        position: Vec2 { x: 0, y: 0 },
        color: Color::yellow(),
        health: 2500,
        speed_milli: 0,
        cooldown: Cooldown::ready(2000),
        should_move_next_frame: true,
    }];
    let mut walls: Vec<Wall> = Vec::new();
    let barrels = Vec::new();
    let mut player_health: i64 = 3000;
    let player_pos = Vec2 { x: 0, y: 0 };
    tick_enemies(&mut enemies, &mut walls, &barrels, player_pos, &mut player_health, 16);
    assert_eq!(player_health, 3000 - 666);
    // the timer just rearmed for two seconds: the next frames cost nothing
    let pos = enemies[0].position;
    tick_enemies(&mut enemies, &mut walls, &barrels, pos, &mut player_health, 16);
    assert_eq!(player_health, 3000 - 666);
}

#[test]
fn enemy_in_contact_with_wall_chips_it() {
    let mut enemies = vec![Enemy {
        position: Vec2 { x: 0, y: 0 },
        color: Color::yellow(),
        health: 2500,
        speed_milli: 0,
        cooldown: Cooldown::ready(2000),
        should_move_next_frame: true,
    }];
    let mut walls = vec![Wall { position: Vec2 { x: 500, y: 0 }, health: 10_000 }];
    let barrels = Vec::new();
    let mut player_health: i64 = 3000;
    tick_enemies(
        &mut enemies,
        &mut walls,
        &barrels,
        Vec2 { x: 15_000, y: 0 },
        &mut player_health,
        16,
    );
    assert_eq!(walls[0].health, 10_000 - 666);
    assert_eq!(player_health, 3000);
}

#[test]
fn alerts_expire_after_their_lifetime() {
    let mut q: VecDeque<Alert> = VecDeque::new();
    q.push_back(Alert::new(String::from("young")));
    let mut old_alert = Alert::new(String::from("old"));
    old_alert.lifetime.subtract(2990);
    q.push_back(old_alert);
    tick_alerts(&mut q, 20);
    assert_eq!(q.len(), 1);
    assert_eq!(q[0].message, "young");
}

#[test]
fn multiplier_percent_is_zero_at_the_floor() {
    let mut m = Multiplier::new();
    assert_eq!(m.percent_milli(), 0);
    m.increment();
    m.subtract(934);
    // half of the 1868 ms period at a multiplier of two
    assert_eq!(m.percent_milli(), 500);
}

#[test]
fn multiplier_at_ceiling_rearms_on_increment() {
    let mut m = Multiplier::new();
    for _ in 0..29 {
        m.increment();
    }
    assert_eq!(m.current, 30);
    m.subtract(10);
    let before = m.cooldown.remaining_ms;
    m.increment();
    assert_eq!(m.current, 30);
    assert!(m.cooldown.remaining_ms >= before);
    assert_eq!(m.cooldown.remaining_ms, m.cooldown.total_ms);
}

#[test]
fn default_player_layout() {
    let p = Player::default();
    assert_eq!(p.selected_weapon, 0);
    assert_eq!(p.health, 3000);
    assert_eq!(p.weapons.len(), 5);
    assert_eq!(p.facing, Vec2 { x: 0, y: 1000 });
    assert_eq!(p.weapon().name(), "Pistol");
    assert!(!p.weapons[1].ammo.is_infinte());
    assert!(p.weapons[0].ammo.is_infinte());
}

#[test]
fn weapon_names() {
    let p = Player::new();
    let names: Vec<&str> = p.weapons.iter().map(|w| w.name()).collect();
    assert_eq!(names, vec!["Pistol", "Uzi", "Shotgun", "Barrels", "Walls"]);
}
