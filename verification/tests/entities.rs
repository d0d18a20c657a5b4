use space_shooter::Hitbox;
use space_shooter::Rng;
use space_shooter::enemy::Enemy;
use space_shooter::enemy::EnemyStrategy;
use space_shooter::enemy::EnemyType;
use space_shooter::input::InputState;
use space_shooter::player::Notification;
use space_shooter::player::Player;
use space_shooter::power_up::Powerup;
use space_shooter::power_up::PowerupEffect;
use space_shooter::power_up::PowerupMovement;
use space_shooter::projectile::Projectile;
use space_shooter::projectile::ProjectileOwner;
use space_shooter::projectile::ProjectileType;
use space_shooter::rand_with_seed;

fn test_player() -> Player {
    Player::new(256, 256)
}

#[test]
fn tank_blueprint() {
    let mut rng = Rng::new(11);
    let draw = rand_with_seed(11);
    let e = Enemy::new(EnemyType::Tank, 256, &mut rng);
    assert_eq!(e.hp, 10);
    assert_eq!(e.points, 50);
    assert_eq!(e.strategy, EnemyStrategy::TargetPlayer(1, 2500, 8));
    assert_eq!(e.hitbox.w, 32);
    assert_eq!(e.hitbox.h, 32);
    assert_eq!(e.hitbox.y, -32_000);
    assert_eq!(e.hitbox.x, ((draw % 256).saturating_sub(32) as i64) * 1000);
    assert!(!e.destroyed);
    assert_eq!(e.speed, 250);
}

#[test]
fn zipper_reflects_at_the_left_edge() {
    let mut rng = Rng::new(3);
    let mut e = Enemy::new(EnemyType::Zipper, 256, &mut rng);
    // heading straight left, one drift step away from the edge: the
    // drift lands the hitbox exactly on 0
    e.hitbox.x = 500;
    e.angle = 180;
    let rng_before = rng.state;
    let mut player = test_player();
    let mut projectiles: Vec<Projectile> = Vec::new();
    e.update(&mut player, &mut projectiles, 256, 256, &mut rng);
    assert_eq!(e.hitbox.x, 0);
    // exactly at the edge, the heading is replaced by the half-turn
    // reflection, 180 - angle, and by no other rule
    assert_eq!(e.angle, 0);
    // the reflection path draws no randomness at all
    assert_eq!(rng.state, rng_before);
}

#[test]
fn meteor_descends_at_its_speed() {
    let mut rng = Rng::new(5);
    let mut e = Enemy::new(EnemyType::Meteor, 256, &mut rng);
    let y0 = e.hitbox.y;
    let mut player = test_player();
    let mut projectiles: Vec<Projectile> = Vec::new();
    e.update(&mut player, &mut projectiles, 256, 256, &mut rng);
    assert_eq!(e.hitbox.y, y0 + 1000);
    assert!(projectiles.is_empty());
}

#[test]
fn enemy_below_the_screen_despawns() {
    let mut rng = Rng::new(5);
    let mut e = Enemy::new(EnemyType::Meteor, 256, &mut rng);
    e.hitbox.y = 300_000;
    let mut player = test_player();
    let mut projectiles: Vec<Projectile> = Vec::new();
    e.update(&mut player, &mut projectiles, 256, 256, &mut rng);
    assert!(e.destroyed);
}

#[test]
fn turret_fires_straight_down_when_the_roll_lands() {
    // find a seed whose first draw satisfies the one-in-125 attack roll
    let mut seed = 0u32;
    while rand_with_seed(seed) % 125 != 0 {
        seed += 1;
        assert!(seed < 1_000_000);
    }
    let mut e = Enemy::new(EnemyType::Turret, 256, &mut Rng::new(1));
    let mut player = test_player();
    let mut projectiles: Vec<Projectile> = Vec::new();
    let mut rng = Rng::new(seed);
    e.update(&mut player, &mut projectiles, 256, 256, &mut rng);
    assert_eq!(projectiles.len(), 1);
    let p = &projectiles[0];
    assert_eq!(p.projectile_owner, ProjectileOwner::Enemy);
    assert_eq!(p.projectile_type, ProjectileType::Laser);
    // 90 degrees: straight down at the strategy's projectile speed
    assert_eq!(p.vx, 0);
    assert_eq!(p.vy, 2500);
}

#[test]
fn enemy_killed_by_damage_credits_points() {
    let mut rng = Rng::new(1);
    let mut e = Enemy::new(EnemyType::Meteor, 256, &mut rng);
    let mut player = test_player();
    e.take_damage(&mut player, 2);
    assert_eq!(e.hp, 1);
    assert!(!e.destroyed);
    assert_eq!(player.score, 0);
    e.take_damage(&mut player, 5);
    assert_eq!(e.hp, 0);
    assert!(e.destroyed);
    assert_eq!(player.score, 20);
    // a further hit on the already-dead enemy credits nothing again
    e.take_damage(&mut player, 5);
    assert_eq!(player.score, 20);
}

#[test]
fn player_projectile_damages_only_the_first_overlapping_enemy() {
    let mut rng = Rng::new(1);
    let mut player = test_player();
    let mut a = Enemy::new(EnemyType::Meteor, 256, &mut rng);
    let mut b = Enemy::new(EnemyType::Meteor, 256, &mut rng);
    a.hitbox = Hitbox { x: 10_000, y: 10_000, w: 8, h: 8 };
    b.hitbox = Hitbox { x: 10_000, y: 10_000, w: 8, h: 8 };
    let mut enemies = vec![a, b];
    // a stationary projectile sitting on both enemies
    let mut p = Projectile::new(
        11_000,
        11_000,
        0,
        0,
        ProjectileType::Basic,
        ProjectileOwner::Player,
        1,
    );
    p.update(&mut player, &mut enemies, 256, 256, false);
    assert!(p.collided);
    assert_eq!(enemies[0].hp, 2);
    assert_eq!(enemies[1].hp, 3);
}

#[test]
fn enemy_projectile_respects_the_invincibility_window() {
    let mut player = test_player();
    player.hit_timer = 5;
    let px = player.hitbox.x;
    let py = player.hitbox.y;
    let mut enemies: Vec<Enemy> = Vec::new();
    let mut p = Projectile::new(
        px + 1_000,
        py + 1_000,
        0,
        0,
        ProjectileType::Laser,
        ProjectileOwner::Enemy,
        1,
    );
    p.update(&mut player, &mut enemies, 256, 256, false);
    assert_eq!(player.hp, 3);
    assert!(!p.collided);
}

#[test]
fn enemy_projectile_connects_outside_the_window() {
    let mut player = test_player();
    assert_eq!(player.hit_timer, 0);
    let px = player.hitbox.x;
    let py = player.hitbox.y;
    let mut enemies: Vec<Enemy> = Vec::new();
    let mut p = Projectile::new(
        px + 1_000,
        py + 1_000,
        0,
        0,
        ProjectileType::Laser,
        ProjectileOwner::Enemy,
        1,
    );
    p.update(&mut player, &mut enemies, 256, 256, false);
    assert_eq!(player.hp, 2);
    assert_eq!(player.hit_timer, 20);
    assert!(p.collided);
}

#[test]
fn collided_projectile_waits_for_its_animation() {
    let mut player = test_player();
    let mut enemies: Vec<Enemy> = Vec::new();
    let mut p = Projectile::new(0, 0, 5000, -90, ProjectileType::Basic, ProjectileOwner::Player, 1);
    p.collided = true;
    let before = p.hitbox;
    p.update(&mut player, &mut enemies, 256, 256, false);
    assert!(!p.destroyed);
    assert_eq!(p.hitbox, before);
    p.update(&mut player, &mut enemies, 256, 256, true);
    assert!(p.destroyed);
}

#[test]
fn projectile_moves_by_its_velocity() {
    let mut player = test_player();
    let mut enemies: Vec<Enemy> = Vec::new();
    let mut p = Projectile::new(
        100_000,
        100_000,
        5000,
        -90,
        ProjectileType::Basic,
        ProjectileOwner::Player,
        1,
    );
    p.update(&mut player, &mut enemies, 256, 256, false);
    assert_eq!(p.hitbox.x, 100_000);
    assert_eq!(p.hitbox.y, 95_000);
    // the literal all-four-edges despawn test never fires
    assert!(!p.destroyed);
}

#[test]
fn powerup_heal_caps_at_max_health() {
    let mut player = test_player();
    player.hp = 3;
    let pu = Powerup::new(0, 0, PowerupEffect::Heal, PowerupMovement::Static);
    player.collect_powerup(&pu);
    assert_eq!(player.hp, 3);
    player.hp = 1;
    player.collect_powerup(&pu);
    assert_eq!(player.hp, 2);
    assert_eq!(
        player.notifications.last(),
        Some(&Notification::Heal)
    );
    // hit points above the cap are pulled back down to it
    player.hp = 12;
    player.collect_powerup(&pu);
    assert_eq!(player.hp, 3);
}

#[test]
fn damage_stat_never_exceeds_its_cap() {
    let mut player = test_player();
    let pu = Powerup::new(0, 0, PowerupEffect::DamageBoost, PowerupMovement::Static);
    player.collect_powerup(&pu);
    assert_eq!(player.stats.damage, 2);
    player.collect_powerup(&pu);
    assert_eq!(player.stats.damage, 2);
}

#[test]
fn max_hp_never_exceeds_its_cap() {
    let mut player = test_player();
    let pu = Powerup::new(0, 0, PowerupEffect::MaxHealthUp, PowerupMovement::Static);
    for _ in 0..12 {
        player.collect_powerup(&pu);
    }
    assert_eq!(player.stats.max_hp, 10);
}

#[test]
fn rate_of_fire_stops_at_its_floor() {
    let mut player = test_player();
    let pu = Powerup::new(0, 0, PowerupEffect::RateOfFireBoost, PowerupMovement::Static);
    for _ in 0..20 {
        player.collect_powerup(&pu);
    }
    assert_eq!(player.stats.rate_of_fire, 5);
}

#[test]
fn projectile_speed_stops_at_its_cap() {
    let mut player = test_player();
    let pu = Powerup::new(0, 0, PowerupEffect::ProjectileSpeedBoost, PowerupMovement::Static);
    for _ in 0..8 {
        player.collect_powerup(&pu);
    }
    assert_eq!(player.stats.projectile_speed, 10);
}

#[test]
fn speed_boost_multiplies_by_eleven_tenths() {
    let mut player = test_player();
    let pu = Powerup::new(0, 0, PowerupEffect::SpeedBoost, PowerupMovement::Static);
    player.collect_powerup(&pu);
    assert_eq!(player.stats.speed, 2200);
}

#[test]
fn damage_boost_eligibility_follows_score_and_damage() {
    // score 1600 with the damage stat at 1: the boost must be reachable
    let mut player = test_player();
    player.score = 1600;
    player.stats.damage = 1;
    let mut seen = false;
    for seed in 0..400u32 {
        let mut rng = Rng::new(seed);
        let pu = Powerup::new_random(0, 0, &player, &mut rng);
        if pu.effect == PowerupEffect::DamageBoost {
            seen = true;
            break;
        }
    }
    assert!(seen);
    // score 1600 with the damage stat at 3: never
    player.stats.damage = 3;
    for seed in 0..400u32 {
        let mut rng = Rng::new(seed);
        let pu = Powerup::new_random(0, 0, &player, &mut rng);
        assert_ne!(pu.effect, PowerupEffect::DamageBoost);
    }
}

#[test]
fn floating_powerup_reverses_at_the_edge() {
    let mut pu = Powerup::new(500, 0, PowerupEffect::Heal, PowerupMovement::FloatHorizontal(-750));
    pu.update(256, 256);
    // moved to -250, clamped check is on the coordinate: at or past 0 reverses
    assert_eq!(pu.hitbox.x, -250);
    assert_eq!(pu.movement, PowerupMovement::FloatHorizontal(750));
}

#[test]
fn static_powerup_never_moves() {
    let mut pu = Powerup::new(1234, 5678, PowerupEffect::Heal, PowerupMovement::Static);
    pu.update(256, 256);
    assert_eq!(pu.hitbox.x, 1234);
    assert_eq!(pu.hitbox.y, 5678);
}

#[test]
fn contact_costs_one_hit_point_and_kills_the_enemy() {
    let mut player = test_player();
    player.hit_timer = 7;  // invincibility does not gate contact damage
    let mut e = Enemy::new(EnemyType::Tank, 256, &mut Rng::new(1));
    e.hitbox.x = player.hitbox.x;
    e.hitbox.y = player.hitbox.y;
    let mut enemies = vec![e];
    let mut projectiles: Vec<Projectile> = Vec::new();
    let mut powerups: Vec<Powerup> = Vec::new();
    let mut rng = Rng::new(2);
    let input = InputState::idle();
    player.update(
        &mut projectiles,
        &mut powerups,
        &mut enemies,
        &input,
        256,
        256,
        &mut rng,
    );
    assert_eq!(player.hp, 2);
    assert_eq!(enemies[0].hp, 0);
    assert!(enemies[0].destroyed);
    assert_eq!(player.score, 50);
    // take_damage set the window to 20; the end-of-frame step took one
    assert_eq!(player.hit_timer, 19);
}

#[test]
fn player_moves_right_at_the_speed_stat() {
    let mut player = test_player();
    let x0 = player.hitbox.x;
    let mut input = InputState::idle();
    input.right = true;
    let mut projectiles: Vec<Projectile> = Vec::new();
    let mut powerups: Vec<Powerup> = Vec::new();
    let mut enemies: Vec<Enemy> = Vec::new();
    let mut rng = Rng::new(2);
    player.update(
        &mut projectiles,
        &mut powerups,
        &mut enemies,
        &input,
        256,
        256,
        &mut rng,
    );
    assert_eq!(player.hitbox.x, x0 + 2000);
}

#[test]
fn diagonal_movement_is_normalized() {
    let mut player = test_player();
    let x0 = player.hitbox.x;
    let y0 = player.hitbox.y;
    let mut input = InputState::idle();
    input.right = true;
    input.up = true;
    let mut projectiles: Vec<Projectile> = Vec::new();
    let mut powerups: Vec<Powerup> = Vec::new();
    let mut enemies: Vec<Enemy> = Vec::new();
    let mut rng = Rng::new(2);
    player.update(
        &mut projectiles,
        &mut powerups,
        &mut enemies,
        &input,
        256,
        256,
        &mut rng,
    );
    // 2000 * 1000 / isqrt(2_000_000) = 2000000 / 1414
    assert_eq!(player.hitbox.x, x0 + 1414);
    assert_eq!(player.hitbox.y, y0 - 1414);
}

#[test]
fn firing_spawns_a_pair_of_upward_projectiles() {
    let mut player = test_player();
    let mut input = InputState::idle();
    input.a_pressed = true;
    let mut projectiles: Vec<Projectile> = Vec::new();
    let mut powerups: Vec<Powerup> = Vec::new();
    let mut enemies: Vec<Enemy> = Vec::new();
    let mut rng = Rng::new(2);
    player.update(
        &mut projectiles,
        &mut powerups,
        &mut enemies,
        &input,
        256,
        256,
        &mut rng,
    );
    assert_eq!(projectiles.len(), 2);
    assert_eq!(projectiles[1].hitbox.x, projectiles[0].hitbox.x + 6_000);
    assert_eq!(projectiles[0].vy, -5000);
    assert_eq!(projectiles[0].vx, 0);
    assert_eq!(projectiles[0].projectile_owner, ProjectileOwner::Player);
    // cooldown restarted at the rate-of-fire stat, then ran one step
    assert_eq!(player.shoot_timer, 14);
    assert!(player.shooting);
}

#[test]
fn dead_player_neither_moves_nor_fires() {
    let mut player = test_player();
    player.hp = 0;
    let x0 = player.hitbox.x;
    let mut input = InputState::idle();
    input.a_pressed = true;
    input.right = true;
    let mut projectiles: Vec<Projectile> = Vec::new();
    let mut powerups: Vec<Powerup> = Vec::new();
    let mut enemies: Vec<Enemy> = Vec::new();
    let mut rng = Rng::new(2);
    player.update(
        &mut projectiles,
        &mut powerups,
        &mut enemies,
        &input,
        256,
        256,
        &mut rng,
    );
    assert_eq!(player.hitbox.x, x0);
    assert!(projectiles.is_empty());
}

#[test]
fn dead_player_neither_collects_nor_contacts() {
    let mut player = test_player();
    player.hp = 0;
    let pu = Powerup::new(
        player.hitbox.x,
        player.hitbox.y,
        PowerupEffect::Heal,
        PowerupMovement::Static,
    );
    let mut e = Enemy::new(EnemyType::Tank, 256, &mut Rng::new(1));
    e.hitbox.x = player.hitbox.x;
    e.hitbox.y = player.hitbox.y;
    let mut powerups = vec![pu];
    let mut enemies = vec![e];
    let mut projectiles: Vec<Projectile> = Vec::new();
    let mut rng = Rng::new(2);
    let input = InputState::idle();
    player.update(
        &mut projectiles,
        &mut powerups,
        &mut enemies,
        &input,
        256,
        256,
        &mut rng,
    );
    // death halts pickup and contact resolution entirely
    assert_eq!(powerups.len(), 1);
    assert_eq!(player.hp, 0);
    assert_eq!(enemies[0].hp, 10);
    assert!(!enemies[0].destroyed);
    assert_eq!(player.score, 0);
}

#[test]
fn overlapping_powerup_is_collected_and_removed() {
    let mut player = test_player();
    player.hp = 1;
    let pu = Powerup::new(
        player.hitbox.x,
        player.hitbox.y,
        PowerupEffect::Heal,
        PowerupMovement::Static,
    );
    let mut powerups = vec![pu];
    let mut projectiles: Vec<Projectile> = Vec::new();
    let mut enemies: Vec<Enemy> = Vec::new();
    let mut rng = Rng::new(2);
    let input = InputState::idle();
    player.update(
        &mut projectiles,
        &mut powerups,
        &mut enemies,
        &input,
        256,
        256,
        &mut rng,
    );
    assert!(powerups.is_empty());
    assert_eq!(player.hp, 2);
}
