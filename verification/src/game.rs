//! The orchestrator: scene state machine, tick counter, spawn
//! scheduling with difficulty ramping, and the end-of-frame retention
//! passes that remove destroyed entities.

use vstd::prelude::*;

use crate::enemy::Enemy;
use crate::enemy::EnemyType;
use crate::enemy::enemy_blueprint;
use crate::enemy::enemy_step_spec;
use crate::hud::HUD;
use crate::input::InputState;
use crate::player::Player;
use crate::player::PlayerStats;
use crate::player::contact_pass;
use crate::player::frame_fired;
use crate::player::frame_shots;
use crate::player::intent_dx_spec;
use crate::player::intent_dy_spec;
use crate::player::moved_x_spec;
use crate::player::moved_y_spec;
use crate::player::pickup_pass;
use crate::power_up::Powerup;
use crate::power_up::PowerupEffect;
use crate::power_up::PowerupMovement;
use crate::power_up::powerup_step_spec;
use crate::power_up::random_powerup_rng_end;
use crate::power_up::random_powerup_spec;
use crate::enemy::damaged_enemy_spec;
use crate::enemy::score_after_damage;
use crate::player::HIT_WINDOW;
use crate::projectile::Projectile;
use crate::projectile::ProjectileOwner;
use crate::projectile::first_hit;
use crate::projectile::moved_projectile;
use crate::projectile::offscreen_all;
use crate::utils::Hitbox;
use crate::utils::overlaps;
use crate::utils::MAX_DIM;
use crate::utils::Rng;
use crate::utils::SCALE;
use crate::utils::lcg;
use crate::utils::sat_sub_u32;

verus! {

/// Which subsystems run this frame.
#[derive(Clone, Copy, PartialEq, Eq, Structural, Debug)]
pub enum Scene {
    Menu,
    Game,
    GameOver,
}

/// The whole simulation: the scene machine, the tick counter, and the
/// entity collections the frame pipeline walks.
#[derive(Clone, Debug)]
pub struct GameState {
    pub scene: Scene,
    pub tick: u32,
    pub hud: HUD,
    pub player: Player,
    pub enemies: Vec<Enemy>,
    pub projectiles: Vec<Projectile>,
    pub powerups: Vec<Powerup>,
    pub rng: Rng,
}

/// Which enemy kind an eight-way weighted roll picks: the three heavy
/// kinds twice as likely as the two light ones.
pub open spec fn chosen_enemy_type(d: u32) -> EnemyType {
    if d % 8 == 0 || d % 8 == 1 {
        EnemyType::Tank
    } else if d % 8 == 2 || d % 8 == 3 {
        EnemyType::Shooter
    } else if d % 8 == 4 {
        EnemyType::Meteor
    } else if d % 8 == 5 {
        EnemyType::Zipper
    } else {
        EnemyType::Turret
    }
}

/// The enemy spawn interval at a given tick: it starts at 100 frames
/// and tightens by one frame per 120 ticks elapsed, down to 25.
pub open spec fn spawn_interval(tick: u32) -> u32 {
    let dec = tick as int / 120;
    if 100 - dec >= 25 {
        (100 - dec) as u32
    } else {
        25u32
    }
}


/// The enemy retention pass over the collection in order: each enemy
/// takes its strategy step (possibly firing), enemies flagged destroyed
/// leave the collection after a one-in-ten roll for a death-drop at
/// their last position, and the survivors stay in order.  Returns
/// (kept enemies, fired projectiles, dropped powerups, generator
/// state).
pub open spec fn enemies_pass_spec(
    s: Seq<Enemy>,
    px: i64,
    py: i64,
    max_hp: u32,
    score: u32,
    damage: u32,
    screen_w: u32,
    screen_h: u32,
    seed: u32,
) -> (Seq<Enemy>, Seq<Projectile>, Seq<Powerup>, u32)
    decreases s.len(),
{
    if s.len() == 0 {
        (Seq::<Enemy>::empty(), Seq::<Projectile>::empty(), Seq::<Powerup>::empty(), seed)
    } else {
        let step = enemy_step_spec(s[0], px, py, screen_w, screen_h, seed);
        let e2 = step.0;
        let shots_head = if step.1 is Some {
            seq![step.1->0]
        } else {
            Seq::<Projectile>::empty()
        };
        let drop = if e2.destroyed {
            let d = lcg(step.2);
            if d % 10 == 0 {
                (
                    seq![random_powerup_spec(e2.hitbox.x, e2.hitbox.y, max_hp, score, damage, d)],
                    random_powerup_rng_end(d),
                )
            } else {
                (Seq::<Powerup>::empty(), d)
            }
        } else {
            (Seq::<Powerup>::empty(), step.2)
        };
        let kept_head = if e2.destroyed {
            Seq::<Enemy>::empty()
        } else {
            seq![e2]
        };
        let tail = enemies_pass_spec(
            s.subrange(1, s.len() as int),
            px,
            py,
            max_hp,
            score,
            damage,
            screen_w,
            screen_h,
            drop.1,
        );
        (kept_head + tail.0, shots_head + tail.1, drop.0 + tail.2, tail.3)
    }
}

/// One projectile's frame against the player scalars and the enemy
/// collection: the projectile after the step, then hit points, hit
/// timer, score, and the enemies after.
pub open spec fn projectile_step_spec(
    p: Projectile,
    hp: u32,
    hit_timer: u32,
    score: u32,
    phb: Hitbox,
    enemies: Seq<Enemy>,
    screen_w: u32,
    screen_h: u32,
    anim: bool,
) -> (Projectile, u32, u32, u32, Seq<Enemy>) {
    if p.collided {
        (Projectile { destroyed: p.destroyed || anim, ..p }, hp, hit_timer, score, enemies)
    } else {
        let m = moved_projectile(p);
        let gone = m.destroyed || offscreen_all(m.hitbox, screen_w, screen_h);
        match p.projectile_owner {
            ProjectileOwner::Enemy => {
                if overlaps(m.hitbox, phb) && hp > 0 && hit_timer == 0 {
                    (
                        Projectile { collided: true, destroyed: gone, ..m },
                        crate::utils::sat_sub_u32(hp, p.damage),
                        HIT_WINDOW,
                        score,
                        enemies,
                    )
                } else {
                    (Projectile { destroyed: gone, ..m }, hp, hit_timer, score, enemies)
                }
            },
            ProjectileOwner::Player => {
                let j = first_hit(m.hitbox, enemies);
                if j < enemies.len() {
                    (
                        Projectile { collided: true, destroyed: gone, ..m },
                        hp,
                        hit_timer,
                        score_after_damage(score, enemies[j], p.damage),
                        enemies.update(j, damaged_enemy_spec(enemies[j], p.damage)),
                    )
                } else {
                    (Projectile { destroyed: gone, ..m }, hp, hit_timer, score, enemies)
                }
            },
        }
    }
}

/// The projectile retention pass from index `i` on: each projectile
/// takes its step against the running player scalars and enemy
/// collection (`anims` holds each one's hit-animation-finished flag),
/// and those flagged destroyed leave.  Returns (kept projectiles, hit
/// points, hit timer, score, enemies after).
pub open spec fn projectiles_pass_from(
    s: Seq<Projectile>,
    i: int,
    hp: u32,
    hit_timer: u32,
    score: u32,
    phb: Hitbox,
    enemies: Seq<Enemy>,
    screen_w: u32,
    screen_h: u32,
    anims: Seq<bool>,
) -> (Seq<Projectile>, u32, u32, u32, Seq<Enemy>)
    decreases s.len() - i,
{
    if i < 0 || i >= s.len() {
        (Seq::<Projectile>::empty(), hp, hit_timer, score, enemies)
    } else {
        let anim = if i < anims.len() {
            anims[i]
        } else {
            false
        };
        let st = projectile_step_spec(
            s[i],
            hp,
            hit_timer,
            score,
            phb,
            enemies,
            screen_w,
            screen_h,
            anim,
        );
        let kept_head = if st.0.destroyed {
            Seq::<Projectile>::empty()
        } else {
            seq![st.0]
        };
        let tail = projectiles_pass_from(
            s,
            i + 1,
            st.1,
            st.2,
            st.3,
            phb,
            st.4,
            screen_w,
            screen_h,
            anims,
        );
        (kept_head + tail.0, tail.1, tail.2, tail.3, tail.4)
    }
}


/// The world phases of one game frame, as one function: the HUD
/// notification step, the enemy spawner, the enemy pass, the projectile
/// pass, the powerup spawner, and the powerup drift.  The player only
/// changes in hit points, hit timer, score and notifications here.
/// Returns (hud timer, hit points, hit timer, score, notifications,
/// enemies, projectiles, powerups, generator state).
#[verifier::opaque]
pub open spec fn world_spec(
    tick: u32,
    hud_timer: u32,
    hp: u32,
    hit_timer: u32,
    score: u32,
    stats: PlayerStats,
    phb: Hitbox,
    notes: Seq<crate::player::Notification>,
    enemies: Seq<Enemy>,
    projectiles: Seq<Projectile>,
    powerups: Seq<Powerup>,
    seed: u32,
    screen_w: u32,
    screen_h: u32,
    anims: Seq<bool>,
) -> (
    u32,
    u32,
    u32,
    u32,
    Seq<crate::player::Notification>,
    Seq<Enemy>,
    Seq<Projectile>,
    Seq<Powerup>,
    u32,
) {
    let popping = notes.len() > 0 && hud_timer + 1 >= crate::hud::NOTIFICATION_FRAMES - 1;
    let ht1 = if notes.len() > 0 {
        if popping {
            0u32
        } else {
            (hud_timer + 1) as u32
        }
    } else {
        hud_timer
    };
    let notes1 = if popping {
        notes.subrange(1, notes.len() as int)
    } else {
        notes
    };
    let gate = tick > (notes1.len() + 1) * 240;
    let sfire = gate && tick % spawn_interval(tick) == 0 && enemies.len() < 24;
    let d = lcg(seed);
    let ene1 = if sfire {
        enemies.push(enemy_blueprint(chosen_enemy_type(d), screen_w, d))
    } else {
        enemies
    };
    let r1 = if sfire {
        lcg(d)
    } else {
        seed
    };
    let ep = enemies_pass_spec(
        ene1,
        phb.x,
        phb.y,
        stats.max_hp,
        score,
        stats.damage,
        screen_w,
        screen_h,
        r1,
    );
    let qq = projectiles_pass_from(
        projectiles + ep.1,
        0,
        hp,
        hit_timer,
        score,
        phb,
        ep.0,
        screen_w,
        screen_h,
        anims,
    );
    let pfire = tick % 900 == 0 && qq.1 < stats.max_hp;
    let d1 = lcg(ep.3);
    let d2 = lcg(d1);
    let pow1 = powerups + ep.2;
    let pow2 = if pfire {
        pow1.push(
            Powerup {
                hitbox: Hitbox {
                    x: ((d1 as int % screen_w as int) * SCALE) as i64,
                    y: ((24 + (d2 as int % screen_h as int) / 2) * SCALE) as i64,
                    w: 8,
                    h: 8,
                },
                effect: PowerupEffect::Heal,
                movement: PowerupMovement::FloatHorizontal(750),
            },
        )
    } else {
        pow1
    };
    let r2 = if pfire {
        d2
    } else {
        ep.3
    };
    let pow3 = pow2.map_values(|pu: Powerup| powerup_step_spec(pu, screen_w, screen_h));
    (ht1, qq.1, qq.2, qq.3, notes1, qq.4, qq.0, pow3, r2)
}

impl GameState {
    /// Every entity well-formed.
    pub open spec fn wf(self) -> bool {
        &&& self.player.wf()
        &&& self.hud.wf()
        &&& forall|i: int| 0 <= i < self.enemies@.len() ==> (#[trigger] self.enemies@[i]).wf()
        &&& forall|i: int|
            0 <= i < self.projectiles@.len() ==> (#[trigger] self.projectiles@[i]).wf()
        &&& forall|i: int| 0 <= i < self.powerups@.len() ==> (#[trigger] self.powerups@[i]).wf()
    }

    /// A fresh session: the menu scene, tick zero, a new player, empty
    /// collections, and the random stream at `seed`.
    pub fn new(screen_w: u32, screen_h: u32, seed: u32) -> (r: GameState)
        requires
            16 <= screen_w <= MAX_DIM,
            64 <= screen_h <= MAX_DIM,
        ensures
            r.scene == Scene::Menu,
            r.tick == 0,
            r.hud.notification_timer == 0,
            r.player.hitbox == (Hitbox {
                x: ((screen_w / 2 - 8) * 1000) as i64,
                y: ((screen_h - 64) * 1000) as i64,
                w: 16,
                h: 16,
            }),
            r.player.hp == 3,
            r.player.score == 0,
            r.player.hit_timer == 0,
            r.player.shoot_timer == 0,
            r.player.shooting == false,
            r.player.dx == 0 && r.player.dy == 0,
            r.player.stats == (PlayerStats {
                max_hp: 3,
                speed: 2000,
                damage: 1,
                rate_of_fire: 15,
                projectile_speed: 5,
            }),
            r.player.projectile_type == crate::projectile::ProjectileType::Basic,
            r.player.notifications@ == seq![
                crate::player::Notification::HintMove,
                crate::player::Notification::HintShoot,
                crate::player::Notification::HintPowerups,
                crate::player::Notification::HintLuck,
            ],
            r.enemies@ == Seq::<Enemy>::empty(),
            r.projectiles@ == Seq::<Projectile>::empty(),
            r.powerups@ == Seq::<Powerup>::empty(),
            r.rng.state == seed,
            r.wf(),
    {
        GameState {
            scene: Scene::Menu,
            tick: 0,
            hud: HUD::new(),
            player: Player::new(screen_w, screen_h),
            enemies: Vec::new(),
            projectiles: Vec::new(),
            powerups: Vec::new(),
            rng: Rng::new(seed),
        }
    }

    /// Every 900 ticks, while the player is missing hit points, spawn a
    /// heal drifting horizontally at a random on-screen position.
    pub fn spawn_powerups(&mut self, screen_w: u32, screen_h: u32)
        requires
            1 <= screen_w <= MAX_DIM,
            1 <= screen_h <= MAX_DIM,
        ensures
            ({
                let fire = old(self).tick % 900 == 0
                    && old(self).player.hp < old(self).player.stats.max_hp;
                if fire {
                    let d1 = lcg(old(self).rng.state);
                    let d2 = lcg(d1);
                    &&& final(self).powerups@ == old(self).powerups@.push(
                        Powerup {
                            hitbox: Hitbox {
                                x: ((d1 as int % screen_w as int) * SCALE) as i64,
                                y: ((24 + (d2 as int % screen_h as int) / 2) * SCALE) as i64,
                                w: 8,
                                h: 8,
                            },
                            effect: PowerupEffect::Heal,
                            movement: PowerupMovement::FloatHorizontal(750),
                        },
                    )
                    &&& final(self).rng.state == d2
                } else {
                    &&& final(self).powerups@ == old(self).powerups@
                    &&& final(self).rng.state == old(self).rng.state
                }
            }),
            *final(self) == (GameState {
                powerups: final(self).powerups,
                rng: final(self).rng,
                ..*old(self)
            }),
    {
        if self.tick % 900 == 0 && self.player.hp < self.player.stats.max_hp {
            let d1 = self.rng.next_draw();
            let x = (d1 % screen_w) as i64 * SCALE;
            let d2 = self.rng.next_draw();
            let y = (24 + (d2 % screen_h) / 2) as i64 * SCALE;
            self.powerups.push(
                Powerup::new(x, y, PowerupEffect::Heal, PowerupMovement::FloatHorizontal(750)),
            );
        }
    }

    /// Once past the onboarding gate, spawn an enemy of a weighted
    /// random kind whenever the tick is a multiple of the ramping
    /// interval and fewer than 24 enemies live.
    pub fn spawn_enemies(&mut self, screen_w: u32)
        requires
            1 <= screen_w <= MAX_DIM,
        ensures
            ({
                let gate = old(self).tick > (old(self).player.notifications@.len() + 1) * 240;
                let fire = gate && old(self).tick % spawn_interval(old(self).tick) == 0
                    && old(self).enemies@.len() < 24;
                if fire {
                    let d = lcg(old(self).rng.state);
                    &&& final(self).enemies@ == old(self).enemies@.push(
                        enemy_blueprint(chosen_enemy_type(d), screen_w, d),
                    )
                    &&& final(self).rng.state == lcg(d)
                } else {
                    &&& final(self).enemies@ == old(self).enemies@
                    &&& final(self).rng.state == old(self).rng.state
                }
            }),
            *final(self) == (GameState {
                enemies: final(self).enemies,
                rng: final(self).rng,
                ..*old(self)
            }),
            forall|i: int|
                0 <= i < final(self).enemies@.len() && i < old(self).enemies@.len()
                    ==> final(self).enemies@[i] == old(self).enemies@[i],
            final(self).enemies@.len() >= old(self).enemies@.len(),
            ({
                forall|i: int|
                    old(self).enemies@.len() <= i < final(self).enemies@.len()
                        ==> (#[trigger] final(self).enemies@[i]).wf()
            }),
    {
        let gate: u128 = (self.player.notifications.len() as u128 + 1) * 240;
        if self.tick as u128 > gate {
            let dec = self.tick / 120;
            let interval: u32 = if dec <= 75 {
                100 - dec
            } else {
                25
            };
            if self.tick % interval == 0 && self.enemies.len() < 24 {
                let d = self.rng.next_draw();
                let kind = match d % 8 {
                    0 => EnemyType::Tank,
                    1 => EnemyType::Tank,
                    2 => EnemyType::Shooter,
                    3 => EnemyType::Shooter,
                    4 => EnemyType::Meteor,
                    5 => EnemyType::Zipper,
                    6 => EnemyType::Turret,
                    _ => EnemyType::Turret,
                };
                let e = Enemy::new(kind, screen_w, &mut self.rng);
                self.enemies.push(e);
            }
        }
    }

    /// Advance every powerup one frame of drift.
    pub fn run_powerups(&mut self, screen_w: u32, screen_h: u32)
        requires
            forall|i: int|
                0 <= i < old(self).powerups@.len() ==> (#[trigger] old(self).powerups@[i]).wf(),
            screen_w <= MAX_DIM,
            screen_h <= MAX_DIM,
        ensures
            final(self).powerups@.len() == old(self).powerups@.len(),
            forall|i: int|
                0 <= i < old(self).powerups@.len() ==> final(self).powerups@[i]
                    == powerup_step_spec(#[trigger] old(self).powerups@[i], screen_w, screen_h),
            forall|i: int|
                0 <= i < final(self).powerups@.len() ==> (#[trigger] final(self).powerups@[i]).wf(),
            *final(self) == (GameState { powerups: final(self).powerups, ..*old(self) }),
    {
        let ghost s0 = self.powerups@;
        let mut moved: Vec<Powerup> = Vec::new();
        let mut i: usize = 0;
        while i < self.powerups.len()
            invariant
                i <= s0.len(),
                self.powerups@ == s0,
                forall|k: int| 0 <= k < s0.len() ==> (#[trigger] s0[k]).wf(),
                screen_w <= MAX_DIM,
                screen_h <= MAX_DIM,
                moved@.len() == i,
                forall|k: int|
                    0 <= k < i ==> moved@[k] == powerup_step_spec(
                        #[trigger] s0[k],
                        screen_w,
                        screen_h,
                    ),
                forall|k: int| 0 <= k < moved@.len() ==> (#[trigger] moved@[k]).wf(),
                *self == (GameState { powerups: self.powerups, ..*old(self) }),
            decreases s0.len() - i,
        {
            let mut pu = self.powerups[i];
            pu.update(screen_w, screen_h);
            moved.push(pu);
            i = i + 1;
        }
        self.powerups = moved;
    }

    /// The enemy retention pass: update every enemy (each may fire and
    /// may despawn), roll death-drops for the destroyed, keep the rest.
    pub fn run_enemies(&mut self, screen_w: u32, screen_h: u32)
        requires
            old(self).player.hitbox.wf(),
            forall|i: int| 0 <= i < old(self).enemies@.len() ==> (#[trigger] old(self).enemies@[i]).wf(),
            1 <= screen_w <= MAX_DIM,
            1 <= screen_h <= MAX_DIM,
        ensures
            ({
                let ep = enemies_pass_spec(
                    old(self).enemies@,
                    old(self).player.hitbox.x,
                    old(self).player.hitbox.y,
                    old(self).player.stats.max_hp,
                    old(self).player.score,
                    old(self).player.stats.damage,
                    screen_w,
                    screen_h,
                    old(self).rng.state,
                );
                &&& final(self).enemies@ == ep.0
                &&& final(self).projectiles@ == old(self).projectiles@ + ep.1
                &&& final(self).powerups@ == old(self).powerups@ + ep.2
                &&& final(self).rng.state == ep.3
            }),
            *final(self) == (GameState {
                enemies: final(self).enemies,
                projectiles: final(self).projectiles,
                powerups: final(self).powerups,
                rng: final(self).rng,
                ..*old(self)
            }),
            forall|i: int|
                0 <= i < final(self).enemies@.len() ==> (#[trigger] final(self).enemies@[i]).wf(),
            forall|i: int|
                old(self).projectiles@.len() <= i < final(self).projectiles@.len()
                    ==> (#[trigger] final(self).projectiles@[i]).wf(),
            forall|i: int|
                old(self).powerups@.len() <= i < final(self).powerups@.len()
                    ==> (#[trigger] final(self).powerups@[i]).wf(),
    {
        let ghost s0 = self.enemies@;
        let ghost p0 = self.projectiles@;
        let ghost px = self.player.hitbox.x;
        let ghost py = self.player.hitbox.y;
        let ghost full = enemies_pass_spec(
            s0,
            px,
            py,
            self.player.stats.max_hp,
            self.player.score,
            self.player.stats.damage,
            screen_w,
            screen_h,
            self.rng.state,
        );
        let mut kept: Vec<Enemy> = Vec::new();
        let mut drops: Vec<Powerup> = Vec::new();
        proof {
            assert(s0.subrange(0, s0.len() as int) =~= s0);
            assert(kept@ + full.0 =~= full.0);
            assert(drops@ + full.2 =~= full.2);
        }
        let mut i: usize = 0;
        while i < self.enemies.len()
            invariant
                i <= s0.len(),
                self.enemies@ == s0,
                self.player == old(self).player,
                px == old(self).player.hitbox.x,
                py == old(self).player.hitbox.y,
                self.player.hitbox.wf(),
                forall|k: int| 0 <= k < s0.len() ==> (#[trigger] s0[k]).wf(),
                1 <= screen_w <= MAX_DIM,
                1 <= screen_h <= MAX_DIM,
                p0.len() <= self.projectiles@.len(),
                self.projectiles@.subrange(0, p0.len() as int) == p0,
                forall|k: int| 0 <= k < kept@.len() ==> (#[trigger] kept@[k]).wf(),
                forall|k: int|
                    p0.len() <= k < self.projectiles@.len() ==> (#[trigger] self.projectiles@[k]).wf(),
                forall|k: int| 0 <= k < drops@.len() ==> (#[trigger] drops@[k]).wf(),
                ({
                    let rest = enemies_pass_spec(
                        s0.subrange(i as int, s0.len() as int),
                        px,
                        py,
                        self.player.stats.max_hp,
                        self.player.score,
                        self.player.stats.damage,
                        screen_w,
                        screen_h,
                        self.rng.state,
                    );
                    full == (
                        kept@ + rest.0,
                        self.projectiles@.subrange(p0.len() as int, self.projectiles@.len() as int)
                            + rest.1,
                        drops@ + rest.2,
                        rest.3,
                    )
                }),
                *self == (GameState {
                    projectiles: self.projectiles,
                    rng: self.rng,
                    ..*old(self)
                }),
            decreases s0.len() - i,
        {
            let ghost suffix = s0.subrange(i as int, s0.len() as int);
            let ghost rest_next_seq = s0.subrange(i as int + 1, s0.len() as int);
            proof {
                assert(suffix.subrange(1, suffix.len() as int) =~= rest_next_seq);
                assert(suffix[0] == s0[i as int]);
            }
            let ghost shots_before = self.projectiles@;
            let ghost seed_iter = self.rng.state;
            let mut e = self.enemies[i];
            let ghost e_pre = e;
            e.update(&mut self.player, &mut self.projectiles, screen_w, screen_h, &mut self.rng);
            proof {
                assert(self.projectiles@.subrange(0, p0.len() as int) =~= p0);
                assert(e_pre == s0[i as int]);
                assert(px == self.player.hitbox.x && py == self.player.hitbox.y);
                let step = enemy_step_spec(s0[i as int], px, py, screen_w, screen_h, seed_iter);
                assert(e == step.0);
                assert(self.rng.state == step.2);
                if step.1 is Some {
                    assert(self.projectiles@.subrange(
                        shots_before.len() as int,
                        self.projectiles@.len() as int,
                    ) =~= seq![step.1->0]);
                } else {
                    assert(self.projectiles@.subrange(
                        shots_before.len() as int,
                        self.projectiles@.len() as int,
                    ) =~= Seq::<Projectile>::empty());
                }
                assert(shots_before.subrange(p0.len() as int, shots_before.len() as int)
                    =~= self.projectiles@.subrange(p0.len() as int, shots_before.len() as int));
            }
            if e.destroyed {
                let d = self.rng.next_draw();
                if d % 10 == 0 {
                    let pu = Powerup::new_random(e.hitbox.x, e.hitbox.y, &self.player, &mut self.rng);
                    proof {
                        assert(pu.wf());
                    }
                    drops.push(pu);
                    proof {
                        assert(drops@.drop_last() + (seq![pu] + enemies_pass_spec(
                            rest_next_seq,
                            px,
                            py,
                            self.player.stats.max_hp,
                            self.player.score,
                            self.player.stats.damage,
                            screen_w,
                            screen_h,
                            self.rng.state,
                        ).2) =~= drops@ + enemies_pass_spec(
                            rest_next_seq,
                            px,
                            py,
                            self.player.stats.max_hp,
                            self.player.score,
                            self.player.stats.damage,
                            screen_w,
                            screen_h,
                            self.rng.state,
                        ).2);
                    }
                    proof {
                        let rest = enemies_pass_spec(
                            rest_next_seq,
                            px,
                            py,
                            self.player.stats.max_hp,
                            self.player.score,
                            self.player.stats.damage,
                            screen_w,
                            screen_h,
                            self.rng.state,
                        );
                        assert(kept@ + (Seq::<Enemy>::empty() + rest.0) =~= kept@ + rest.0);
                    }
                } else {
                    proof {
                        let rest = enemies_pass_spec(
                            rest_next_seq,
                            px,
                            py,
                            self.player.stats.max_hp,
                            self.player.score,
                            self.player.stats.damage,
                            screen_w,
                            screen_h,
                            self.rng.state,
                        );
                        assert(kept@ + (Seq::<Enemy>::empty() + rest.0) =~= kept@ + rest.0);
                        assert(drops@ + (Seq::<Powerup>::empty() + rest.2) =~= drops@ + rest.2);
                    }
                }
            } else {
                kept.push(e);
                proof {
                    assert(kept@.drop_last() + (seq![e] + enemies_pass_spec(
                        rest_next_seq,
                        px,
                        py,
                        self.player.stats.max_hp,
                        self.player.score,
                        self.player.stats.damage,
                        screen_w,
                        screen_h,
                        self.rng.state,
                    ).0) =~= kept@ + enemies_pass_spec(
                        rest_next_seq,
                        px,
                        py,
                        self.player.stats.max_hp,
                        self.player.score,
                        self.player.stats.damage,
                        screen_w,
                        screen_h,
                        self.rng.state,
                    ).0);
                    let rest = enemies_pass_spec(
                        rest_next_seq,
                        px,
                        py,
                        self.player.stats.max_hp,
                        self.player.score,
                        self.player.stats.damage,
                        screen_w,
                        screen_h,
                        self.rng.state,
                    );
                    assert(drops@ + (Seq::<Powerup>::empty() + rest.2) =~= drops@ + rest.2);
                }
            }
            proof {
                let rest = enemies_pass_spec(
                    rest_next_seq,
                    px,
                    py,
                    self.player.stats.max_hp,
                    self.player.score,
                    self.player.stats.damage,
                    screen_w,
                    screen_h,
                    self.rng.state,
                );
                assert(shots_before.subrange(p0.len() as int, shots_before.len() as int)
                    + (self.projectiles@.subrange(
                    shots_before.len() as int,
                    self.projectiles@.len() as int,
                ) + rest.1) =~= self.projectiles@.subrange(
                    p0.len() as int,
                    self.projectiles@.len() as int,
                ) + rest.1);
            }
            proof {
                let rest = enemies_pass_spec(
                    rest_next_seq,
                    px,
                    py,
                    self.player.stats.max_hp,
                    self.player.score,
                    self.player.stats.damage,
                    screen_w,
                    screen_h,
                    self.rng.state,
                );
                assert(full.0 == kept@ + rest.0);
                assert(full.2 == drops@ + rest.2);
                assert(full.3 == rest.3);
                assert(full.1 == self.projectiles@.subrange(
                    p0.len() as int,
                    self.projectiles@.len() as int,
                ) + rest.1);
            }
            i = i + 1;
        }
        proof {
            assert(s0.subrange(s0.len() as int, s0.len() as int) =~= Seq::<Enemy>::empty());
            assert(full.0 =~= kept@);
            assert(full.2 =~= drops@);
            assert(full.1 =~= self.projectiles@.subrange(
                p0.len() as int,
                self.projectiles@.len() as int,
            ));
            assert(p0 + full.1 =~= self.projectiles@);
        }
        self.enemies = kept;
        self.powerups.append(&mut drops);
    }

    /// The projectile retention pass: move each projectile and resolve
    /// its collision against the opposing faction (`anim_done` carries
    /// each one's hit-animation-finished flag, by index); those flagged
    /// destroyed leave.
    pub fn run_projectiles(&mut self, screen_w: u32, screen_h: u32, anim_done: &Vec<bool>)
        requires
            old(self).player.hitbox.wf(),
            forall|i: int| 0 <= i < old(self).enemies@.len() ==> (#[trigger] old(self).enemies@[i]).wf(),
            forall|i: int| 0 <= i < old(self).projectiles@.len() ==> (#[trigger] old(self).projectiles@[i]).wf(),
        ensures
            ({
                let pp = projectiles_pass_from(
                    old(self).projectiles@,
                    0,
                    old(self).player.hp,
                    old(self).player.hit_timer,
                    old(self).player.score,
                    old(self).player.hitbox,
                    old(self).enemies@,
                    screen_w,
                    screen_h,
                    anim_done@,
                );
                &&& final(self).projectiles@ == pp.0
                &&& final(self).player.hp == pp.1
                &&& final(self).player.hit_timer == pp.2
                &&& final(self).player.score == pp.3
                &&& final(self).enemies@ == pp.4
            }),
            final(self).player == (Player {
                hp: final(self).player.hp,
                hit_timer: final(self).player.hit_timer,
                score: final(self).player.score,
                ..old(self).player
            }),
            *final(self) == (GameState {
                projectiles: final(self).projectiles,
                player: final(self).player,
                enemies: final(self).enemies,
                ..*old(self)
            }),
            forall|i: int|
                0 <= i < final(self).projectiles@.len() ==> (#[trigger] final(self).projectiles@[i]).wf(),
            forall|i: int|
                0 <= i < final(self).enemies@.len() ==> (#[trigger] final(self).enemies@[i]).hitbox == old(self).enemies@[i].hitbox,
            forall|i: int|
                0 <= i < final(self).enemies@.len() ==> (#[trigger] final(self).enemies@[i]).wf(),
            final(self).enemies@.len() == old(self).enemies@.len(),
    {
        let ghost s0 = self.projectiles@;
        let ghost e0 = self.enemies@;
        let ghost phb = self.player.hitbox;
        let ghost full = projectiles_pass_from(
            s0,
            0,
            self.player.hp,
            self.player.hit_timer,
            self.player.score,
            phb,
            self.enemies@,
            screen_w,
            screen_h,
            anim_done@,
        );
        let mut kept: Vec<Projectile> = Vec::new();
        proof {
            assert(kept@ + full.0 =~= full.0);
        }
        let mut i: usize = 0;
        while i < self.projectiles.len()
            invariant
                i <= s0.len(),
                self.projectiles@ == s0,
                self.player.hitbox == phb,
                phb.wf(),
                self.enemies@.len() == e0.len(),
                forall|k: int|
                    0 <= k < e0.len() ==> (#[trigger] self.enemies@[k]).hitbox == e0[k].hitbox,
                forall|k: int| 0 <= k < e0.len() ==> (#[trigger] self.enemies@[k]).wf(),
                forall|k: int| 0 <= k < e0.len() ==> (#[trigger] e0[k]).wf(),
                forall|k: int| 0 <= k < s0.len() ==> (#[trigger] s0[k]).wf(),
                forall|k: int| 0 <= k < kept@.len() ==> (#[trigger] kept@[k]).wf(),
                ({
                    let rest = projectiles_pass_from(
                        s0,
                        i as int,
                        self.player.hp,
                        self.player.hit_timer,
                        self.player.score,
                        phb,
                        self.enemies@,
                        screen_w,
                        screen_h,
                        anim_done@,
                    );
                    full == (kept@ + rest.0, rest.1, rest.2, rest.3, rest.4)
                }),
                self.player == (Player {
                    hp: self.player.hp,
                    hit_timer: self.player.hit_timer,
                    score: self.player.score,
                    ..old(self).player
                }),
                *self == (GameState {
                    projectiles: self.projectiles,
                    player: self.player,
                    enemies: self.enemies,
                    ..*old(self)
                }),
            decreases s0.len() - i,
        {
            let anim = if i < anim_done.len() {
                anim_done[i]
            } else {
                false
            };
            let ghost pre_hp = self.player.hp;
            let ghost pre_timer = self.player.hit_timer;
            let ghost pre_score = self.player.score;
            let ghost pre_enemies = self.enemies@;
            let mut p = self.projectiles[i];
            proof {
                assert forall|k: int| 0 <= k < self.enemies@.len() implies (#[trigger] self.enemies@[k]).hitbox.wf() by {
                    assert(self.enemies@[k].hitbox == e0[k].hitbox);
                }
            }
            p.update(&mut self.player, &mut self.enemies, screen_w, screen_h, anim);
            proof {
                let st = projectile_step_spec(
                    s0[i as int],
                    pre_hp,
                    pre_timer,
                    pre_score,
                    phb,
                    pre_enemies,
                    screen_w,
                    screen_h,
                    anim,
                );
                assert(p == st.0);
                assert(self.player.hp == st.1);
                assert(self.player.hit_timer == st.2);
                assert(self.player.score == st.3);
                assert(self.enemies@ == st.4);
                let pv = s0[i as int];
                crate::projectile::lemma_first_hit_bounds(
                    moved_projectile(pv).hitbox,
                    pre_enemies,
                    0,
                );
                let j = first_hit(moved_projectile(pv).hitbox, pre_enemies);
                if !pv.collided && pv.projectile_owner is Player && j < pre_enemies.len() {
                    assert(st.4 == pre_enemies.update(
                        j,
                        damaged_enemy_spec(pre_enemies[j], pv.damage),
                    ));
                    assert(st.4.len() == pre_enemies.len());
                } else {
                    assert(st.4 == pre_enemies);
                }
                assert(self.enemies@.len() == pre_enemies.len());
                assert forall|k: int|
                    0 <= k < e0.len() implies (#[trigger] self.enemies@[k]).hitbox
                    == e0[k].hitbox by {
                    assert(pre_enemies[k].hitbox == e0[k].hitbox);
                }
                assert forall|k: int|
                    0 <= k < e0.len() implies (#[trigger] self.enemies@[k]).wf() by {
                    assert(pre_enemies[k].wf());
                }
            }
            if !p.destroyed {
                kept.push(p);
                proof {
                    let rest = projectiles_pass_from(
                        s0,
                        i as int + 1,
                        self.player.hp,
                        self.player.hit_timer,
                        self.player.score,
                        phb,
                        self.enemies@,
                        screen_w,
                        screen_h,
                        anim_done@,
                    );
                    assert(kept@.drop_last() + (seq![p] + rest.0) =~= kept@ + rest.0);
                }
            } else {
                proof {
                    let rest = projectiles_pass_from(
                        s0,
                        i as int + 1,
                        self.player.hp,
                        self.player.hit_timer,
                        self.player.score,
                        phb,
                        self.enemies@,
                        screen_w,
                        screen_h,
                        anim_done@,
                    );
                    assert(kept@ + (Seq::<Projectile>::empty() + rest.0) =~= kept@ + rest.0);
                }
            }
            i = i + 1;
        }
        proof {
            assert(full.0 =~= kept@);
        }
        self.projectiles = kept;
    }

    /// The world phases of one game frame, in order: HUD notification
    /// pacing, enemy spawning, the enemy pass, the projectile pass,
    /// powerup spawning, and powerup drift.
    pub fn run_world(&mut self, screen_w: u32, screen_h: u32, anim_done: &Vec<bool>)
        requires
            old(self).wf(),
            16 <= screen_w <= MAX_DIM,
            64 <= screen_h <= MAX_DIM,
        ensures
            ({
                let w = world_spec(
                    old(self).tick,
                    old(self).hud.notification_timer,
                    old(self).player.hp,
                    old(self).player.hit_timer,
                    old(self).player.score,
                    old(self).player.stats,
                    old(self).player.hitbox,
                    old(self).player.notifications@,
                    old(self).enemies@,
                    old(self).projectiles@,
                    old(self).powerups@,
                    old(self).rng.state,
                    screen_w,
                    screen_h,
                    anim_done@,
                );
                &&& final(self).hud.notification_timer == w.0
                &&& final(self).player.hp == w.1
                &&& final(self).player.hit_timer == w.2
                &&& final(self).player.score == w.3
                &&& final(self).player.notifications@ == w.4
                &&& final(self).enemies@ == w.5
                &&& final(self).projectiles@ == w.6
                &&& final(self).powerups@ == w.7
                &&& final(self).rng.state == w.8
            }),
            final(self).player == (Player {
                hp: final(self).player.hp,
                hit_timer: final(self).player.hit_timer,
                score: final(self).player.score,
                notifications: final(self).player.notifications,
                ..old(self).player
            }),
            *final(self) == (GameState {
                hud: final(self).hud,
                player: final(self).player,
                enemies: final(self).enemies,
                projectiles: final(self).projectiles,
                powerups: final(self).powerups,
                rng: final(self).rng,
                ..*old(self)
            }),
            final(self).wf(),
    {
        proof {
            reveal(world_spec);
        }
        self.hud.update(&mut self.player);
        self.spawn_enemies(screen_w);
        self.run_enemies(screen_w, screen_h);
        self.run_projectiles(screen_w, screen_h, anim_done);
        let ghost pow_before = self.powerups@;
        self.spawn_powerups(screen_w, screen_h);
        proof {
            assert forall|k: int|
                0 <= k < self.powerups@.len() implies (#[trigger] self.powerups@[k]).wf() by {
                if k < pow_before.len() {
                    assert(pow_before[k].wf());
                }
            }
        }
        let ghost pow_spawned = self.powerups@;
        self.run_powerups(screen_w, screen_h);
        proof {
            assert(self.powerups@ =~= pow_spawned.map_values(
                |pu: Powerup| powerup_step_spec(pu, screen_w, screen_h),
            ));
        }
    }


    /// The session frame of a live player: the player frame, then the
    /// world phases, then the tick.
    #[verifier::rlimit(100)]
    fn session_frame_alive(
        &mut self,
        input: &InputState,
        screen_w: u32,
        screen_h: u32,
        anim_done: &Vec<bool>,
    )
        requires
            old(self).wf(),
            old(self).player.hp != 0,
            16 <= screen_w <= MAX_DIM,
            64 <= screen_h <= MAX_DIM,
        ensures
            ({
                let p0 = old(self).player;
                    let mx = moved_x_spec(p0, *input, screen_w);
                    let my = moved_y_spec(p0, *input, screen_h);
                    let hb = Hitbox { x: mx, y: my, ..p0.hitbox };
                    let fired = frame_fired(p0, *input);
                    let pp = pickup_pass(p0.stats, p0.hp, hb, old(self).powerups@);
                    let cp = contact_pass(pp.1, p0.score, hb, old(self).enemies@);
                    let r1 = if fired {
                        lcg(lcg(old(self).rng.state))
                    } else {
                        old(self).rng.state
                    };
                    let w = world_spec(
                        old(self).tick,
                        old(self).hud.notification_timer,
                        cp.0,
                        crate::utils::sat_sub_u32(
                            if cp.2 > 0 {
                                HIT_WINDOW
                            } else {
                                p0.hit_timer
                            },
                            1,
                        ),
                        cp.1,
                        pp.0,
                        hb,
                        p0.notifications@ + pp.2,
                        cp.3,
                        old(self).projectiles@ + frame_shots(
                            p0,
                            *input,
                            screen_w,
                            screen_h,
                            old(self).rng.state,
                        ),
                        pp.3,
                        r1,
                        screen_w,
                        screen_h,
                        anim_done@,
                    );
                    &&& final(self).scene == old(self).scene
                    &&& final(self).tick == ((old(self).tick + 1) % 0x1_0000_0000) as u32
                    &&& final(self).hud.notification_timer == w.0
                    &&& final(self).player.hp == w.1
                    &&& final(self).player.hit_timer == w.2
                    &&& final(self).player.score == w.3
                    &&& final(self).player.notifications@ == w.4
                    &&& final(self).player.hitbox == hb
                    &&& final(self).player.stats == pp.0
                    &&& final(self).player.dx == intent_dx_spec(p0, *input)
                    &&& final(self).player.dy == intent_dy_spec(p0, *input)
                    &&& final(self).player.shooting == input.fire_held()
                    &&& final(self).player.shoot_timer == crate::utils::sat_sub_u32(
                        if fired {
                            p0.stats.rate_of_fire
                        } else {
                            p0.shoot_timer
                        },
                        1,
                    )
                    &&& final(self).enemies@ == w.5
                    &&& final(self).projectiles@ == w.6
                    &&& final(self).powerups@ == w.7
                    &&& final(self).rng.state == w.8
            }),
            final(self).wf(),
    {
        self.player.update(
            &mut self.projectiles,
            &mut self.powerups,
            &mut self.enemies,
            input,
            screen_w,
            screen_h,
            &mut self.rng,
        );
        self.run_world(screen_w, screen_h, anim_done);
        self.tick = self.tick.wrapping_add(1);
    }

    /// The session frame of a dead player: the game-over gate runs the
    /// hit window down and, once it has elapsed, a confirm press
    /// rebuilds a fresh session in the game scene; either way the world
    /// phases and the tick follow.
    #[verifier::rlimit(100)]
    fn session_frame_dead(
        &mut self,
        input: &InputState,
        screen_w: u32,
        screen_h: u32,
        anim_done: &Vec<bool>,
    )
        requires
            old(self).wf(),
            old(self).player.hp == 0,
            16 <= screen_w <= MAX_DIM,
            64 <= screen_h <= MAX_DIM,
        ensures
            ({
                let p0 = old(self).player;
                let t1 = crate::utils::sat_sub_u32(p0.hit_timer, 1);
                let dead = true;
                let restart = t1 == 0 && input.confirm_pressed();
                &&& (dead && !restart) ==> ({
                    let w = world_spec(
                        old(self).tick,
                        old(self).hud.notification_timer,
                        0u32,
                        t1,
                        p0.score,
                        p0.stats,
                        p0.hitbox,
                        p0.notifications@,
                        old(self).enemies@,
                        old(self).projectiles@,
                        old(self).powerups@,
                        old(self).rng.state,
                        screen_w,
                        screen_h,
                        anim_done@,
                    );
                    &&& final(self).scene == Scene::GameOver
                    &&& final(self).tick == ((old(self).tick + 1) % 0x1_0000_0000) as u32
                    &&& final(self).hud.notification_timer == w.0
                    &&& final(self).player.hp == w.1
                    &&& final(self).player.hit_timer == w.2
                    &&& final(self).player.score == w.3
                    &&& final(self).player.notifications@ == w.4
                    &&& final(self).enemies@ == w.5
                    &&& final(self).projectiles@ == w.6
                    &&& final(self).powerups@ == w.7
                    &&& final(self).rng.state == w.8
                })
                &&& restart ==> ({
                    &&& final(self).scene == Scene::Game
                    &&& final(self).tick == 1
                    &&& final(self).hud.notification_timer == 1
                    &&& final(self).player.hp == 3
                    &&& final(self).player.score == 0
                    &&& final(self).player.hit_timer == 0
                    &&& final(self).player.notifications@ == seq![
                        crate::player::Notification::HintMove,
                        crate::player::Notification::HintShoot,
                        crate::player::Notification::HintPowerups,
                        crate::player::Notification::HintLuck,
                    ]
                    &&& final(self).enemies@ == Seq::<Enemy>::empty()
                    &&& final(self).projectiles@ == Seq::<Projectile>::empty()
                    &&& final(self).powerups@ == Seq::<Powerup>::empty()
                    &&& final(self).rng.state == old(self).rng.state
                })
            }),
            final(self).wf(),
    {
        proof {
            reveal(world_spec);
        }
        self.scene = Scene::GameOver;
        let restart = self.player.reset(input);
        if restart {
            let seed = self.rng.state;
            *self = GameState::new(screen_w, screen_h, seed);
            self.scene = Scene::Game;
        }
        self.run_world(screen_w, screen_h, anim_done);
        self.tick = self.tick.wrapping_add(1);
    }

    /// One frame of the whole game.  In the menu, a confirm press
    /// starts a session (resetting the tick); in a session, the player
    /// frame (or, when dead, the game-over gate, where a confirm press
    /// after the hit window rebuilds a fresh session directly in the
    /// game scene) is followed by the world phases; the tick advances
    /// every frame.
    #[verifier::rlimit(100)]
    pub fn update(&mut self, input: &InputState, screen_w: u32, screen_h: u32, anim_done: &Vec<bool>)
        requires
            old(self).wf(),
            16 <= screen_w <= MAX_DIM,
            64 <= screen_h <= MAX_DIM,
        ensures
            old(self).scene is Menu ==> ({
                let started = input.confirm_pressed();
                &&& final(self).scene == if started {
                    Scene::Game
                } else {
                    Scene::Menu
                }
                &&& final(self).tick == if started {
                    1u32
                } else {
                    ((old(self).tick + 1) % 0x1_0000_0000) as u32
                }
                &&& *final(self) == (GameState {
                    scene: final(self).scene,
                    tick: final(self).tick,
                    ..*old(self)
                })
            }),
            !(old(self).scene is Menu) ==> ({
                let p0 = old(self).player;
                let dead = p0.hp == 0;
                let t1 = crate::utils::sat_sub_u32(p0.hit_timer, 1);
                let restart = dead && t1 == 0 && input.confirm_pressed();
                &&& !dead ==> ({
                    let mx = moved_x_spec(p0, *input, screen_w);
                    let my = moved_y_spec(p0, *input, screen_h);
                    let hb = Hitbox { x: mx, y: my, ..p0.hitbox };
                    let fired = frame_fired(p0, *input);
                    let pp = pickup_pass(p0.stats, p0.hp, hb, old(self).powerups@);
                    let cp = contact_pass(pp.1, p0.score, hb, old(self).enemies@);
                    let r1 = if fired {
                        lcg(lcg(old(self).rng.state))
                    } else {
                        old(self).rng.state
                    };
                    let w = world_spec(
                        old(self).tick,
                        old(self).hud.notification_timer,
                        cp.0,
                        crate::utils::sat_sub_u32(
                            if cp.2 > 0 {
                                HIT_WINDOW
                            } else {
                                p0.hit_timer
                            },
                            1,
                        ),
                        cp.1,
                        pp.0,
                        hb,
                        p0.notifications@ + pp.2,
                        cp.3,
                        old(self).projectiles@ + frame_shots(
                            p0,
                            *input,
                            screen_w,
                            screen_h,
                            old(self).rng.state,
                        ),
                        pp.3,
                        r1,
                        screen_w,
                        screen_h,
                        anim_done@,
                    );
                    &&& final(self).scene == old(self).scene
                    &&& final(self).tick == ((old(self).tick + 1) % 0x1_0000_0000) as u32
                    &&& final(self).hud.notification_timer == w.0
                    &&& final(self).player.hp == w.1
                    &&& final(self).player.hit_timer == w.2
                    &&& final(self).player.score == w.3
                    &&& final(self).player.notifications@ == w.4
                    &&& final(self).player.hitbox == hb
                    &&& final(self).player.stats == pp.0
                    &&& final(self).player.dx == intent_dx_spec(p0, *input)
                    &&& final(self).player.dy == intent_dy_spec(p0, *input)
                    &&& final(self).player.shooting == input.fire_held()
                    &&& final(self).player.shoot_timer == crate::utils::sat_sub_u32(
                        if fired {
                            p0.stats.rate_of_fire
                        } else {
                            p0.shoot_timer
                        },
                        1,
                    )
                    &&& final(self).enemies@ == w.5
                    &&& final(self).projectiles@ == w.6
                    &&& final(self).powerups@ == w.7
                    &&& final(self).rng.state == w.8
                })
                &&& (dead && !restart) ==> ({
                    let w = world_spec(
                        old(self).tick,
                        old(self).hud.notification_timer,
                        0u32,
                        t1,
                        p0.score,
                        p0.stats,
                        p0.hitbox,
                        p0.notifications@,
                        old(self).enemies@,
                        old(self).projectiles@,
                        old(self).powerups@,
                        old(self).rng.state,
                        screen_w,
                        screen_h,
                        anim_done@,
                    );
                    &&& final(self).scene == Scene::GameOver
                    &&& final(self).tick == ((old(self).tick + 1) % 0x1_0000_0000) as u32
                    &&& final(self).hud.notification_timer == w.0
                    &&& final(self).player.hp == w.1
                    &&& final(self).player.hit_timer == w.2
                    &&& final(self).player.score == w.3
                    &&& final(self).player.notifications@ == w.4
                    &&& final(self).enemies@ == w.5
                    &&& final(self).projectiles@ == w.6
                    &&& final(self).powerups@ == w.7
                    &&& final(self).rng.state == w.8
                })
                &&& restart ==> ({
                    &&& final(self).scene == Scene::Game
                    &&& final(self).tick == 1
                    &&& final(self).hud.notification_timer == 1
                    &&& final(self).player.hp == 3
                    &&& final(self).player.score == 0
                    &&& final(self).player.hit_timer == 0
                    &&& final(self).player.notifications@ == seq![
                        crate::player::Notification::HintMove,
                        crate::player::Notification::HintShoot,
                        crate::player::Notification::HintPowerups,
                        crate::player::Notification::HintLuck,
                    ]
                    &&& final(self).enemies@ == Seq::<Enemy>::empty()
                    &&& final(self).projectiles@ == Seq::<Projectile>::empty()
                    &&& final(self).powerups@ == Seq::<Powerup>::empty()
                    &&& final(self).rng.state == old(self).rng.state
                })
            }),
            final(self).wf(),
    {
        match self.scene {
            Scene::Menu => {
                if input.start_just_pressed || input.a_just_pressed {
                    self.scene = Scene::Game;
                    self.tick = 0;
                }
                self.tick = self.tick.wrapping_add(1);
            },
            Scene::Game | Scene::GameOver => {
                if self.player.hp > 0 {
                    self.session_frame_alive(input, screen_w, screen_h, anim_done);
                } else {
                    self.session_frame_dead(input, screen_w, screen_h, anim_done);
                }
            },
        }
    }
}

} // verus!
