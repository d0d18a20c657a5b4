use space_shooter::Rng;
use space_shooter::game::GameState;
use space_shooter::game::Scene;
use space_shooter::hud::HUD;
use space_shooter::input::InputState;
use space_shooter::player::Notification;
use space_shooter::power_up::PowerupEffect;
use space_shooter::power_up::PowerupMovement;

fn no_anims() -> Vec<bool> {
    Vec::new()
}

#[test]
fn fresh_state_starts_in_the_menu() {
    let state = GameState::new(256, 256, 42);
    assert_eq!(state.scene, Scene::Menu);
    assert_eq!(state.tick, 0);
    assert_eq!(state.player.hp, 3);
    assert_eq!(state.player.notifications.len(), 4);
    assert!(state.enemies.is_empty());
    assert!(state.projectiles.is_empty());
    assert!(state.powerups.is_empty());
}

#[test]
fn confirm_in_the_menu_starts_a_session() {
    let mut state = GameState::new(256, 256, 42);
    let mut input = InputState::idle();
    state.update(&input, 256, 256, &no_anims());
    assert_eq!(state.scene, Scene::Menu);
    assert_eq!(state.tick, 1);
    input.start_just_pressed = true;
    state.update(&input, 256, 256, &no_anims());
    assert_eq!(state.scene, Scene::Game);
    assert_eq!(state.tick, 1);
}

#[test]
fn heal_spawns_exactly_on_the_schedule() {
    // at a 900-tick boundary with missing health: one heal spawns
    let mut state = GameState::new(256, 256, 9);
    state.tick = 900;
    state.player.hp = 1;
    state.spawn_powerups(256, 256);
    assert_eq!(state.powerups.len(), 1);
    assert_eq!(state.powerups[0].effect, PowerupEffect::Heal);
    assert_eq!(state.powerups[0].movement, PowerupMovement::FloatHorizontal(750));

    // at the boundary with full health: nothing
    let mut state = GameState::new(256, 256, 9);
    state.tick = 900;
    state.spawn_powerups(256, 256);
    assert!(state.powerups.is_empty());

    // off the boundary with missing health: nothing
    let mut state = GameState::new(256, 256, 9);
    state.tick = 901;
    state.player.hp = 1;
    state.spawn_powerups(256, 256);
    assert!(state.powerups.is_empty());
}

#[test]
fn enemy_spawner_waits_out_the_onboarding_gate() {
    let mut state = GameState::new(256, 256, 9);
    // spawning waits until the tick exceeds (notifications + 1) * 240 = 1200
    state.tick = 1200;
    state.spawn_enemies(256);
    assert!(state.enemies.is_empty());
    // 1260 is past the onboarding delay and a multiple of its interval of 90
    state.tick = 1260;
    state.spawn_enemies(256);
    assert_eq!(state.enemies.len(), 1);
}

#[test]
fn enemy_spawner_honors_the_population_cap() {
    let mut state = GameState::new(256, 256, 9);
    state.tick = 10_000;
    for _ in 0..40 {
        state.spawn_enemies(256);
    }
    assert_eq!(state.enemies.len(), 24);
}

#[test]
fn notifications_pace_one_at_a_time() {
    let mut hud = HUD::new();
    let mut player = space_shooter::player::Player::new(256, 256);
    assert_eq!(player.notifications[0], Notification::HintMove);
    // 118 frames pass without popping, the 119th pops the oldest
    for _ in 0..118 {
        hud.update(&mut player);
    }
    assert_eq!(player.notifications.len(), 4);
    hud.update(&mut player);
    assert_eq!(player.notifications.len(), 3);
    assert_eq!(player.notifications[0], Notification::HintShoot);
    assert_eq!(hud.notification_timer, 0);
}

#[test]
fn death_shows_game_over_and_a_confirm_restarts() {
    let mut state = GameState::new(256, 256, 77);
    state.scene = Scene::Game;
    state.player.hp = 0;
    state.player.hit_timer = 1;
    state.player.score = 500;
    let input = InputState::idle();
    state.update(&input, 256, 256, &no_anims());
    assert_eq!(state.scene, Scene::GameOver);
    assert_eq!(state.player.score, 500);
    // the hit window has elapsed; a confirm press rebuilds a fresh
    // session directly in the game scene
    let mut confirm = InputState::idle();
    confirm.a_just_pressed = true;
    state.update(&confirm, 256, 256, &no_anims());
    assert_eq!(state.scene, Scene::Game);
    assert_eq!(state.player.hp, 3);
    assert_eq!(state.player.score, 0);
    assert_eq!(state.tick, 1);
    assert!(state.enemies.is_empty());
}

#[test]
fn session_frames_run_without_panic() {
    let mut state = GameState::new(256, 256, 2024);
    let mut input = InputState::idle();
    input.start_just_pressed = true;
    state.update(&input, 256, 256, &no_anims());
    assert_eq!(state.scene, Scene::Game);
    let mut fire = InputState::idle();
    fire.a_pressed = true;
    let mut fired_any = false;
    for frame in 0..2000u32 {
        let anims = vec![false; state.projectiles.len()];
        state.update(&fire, 256, 256, &anims);
        if !state.projectiles.is_empty() {
            fired_any = true;
        }
        if frame == 0 {
            // first fire frame spawns the projectile pair
            assert_eq!(state.projectiles.len(), 2);
        }
    }
    assert!(fired_any);
    assert!(state.enemies.len() <= 24);
}

#[test]
fn world_pass_drops_destroyed_enemies() {
    let mut state = GameState::new(256, 256, 5);
    state.scene = Scene::Game;
    let mut rng = Rng::new(8);
    let mut e = space_shooter::enemy::Enemy::new(space_shooter::enemy::EnemyType::Meteor, 256, &mut rng);
    e.hitbox.y = 300_000;  // beyond the bottom edge: despawns on update
    state.enemies.push(e);
    state.run_enemies(256, 256);
    assert!(state.enemies.is_empty());
}
