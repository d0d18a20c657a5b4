//! Enemies: per-type spawn parameters, strategy-driven movement and
//! attack, and damage and death bookkeeping.

use vstd::prelude::*;

use crate::player::Player;
use crate::projectile::Projectile;
use crate::projectile::ProjectileOwner;
use crate::projectile::ProjectileType;
use crate::projectile::aimed_projectile_spec;
use crate::projectile::projectile_spec;
use crate::trig::cos_mil;
use crate::trig::cos_mil_spec;
use crate::trig::norm_deg;
use crate::trig::scaled_ratio;
use crate::trig::scaled_ratio_spec;
use crate::utils::Hitbox;
use crate::utils::MAX_DIM;
use crate::utils::Rng;
use crate::utils::SCALE;
use crate::utils::add_coord;
use crate::utils::clamp_coord_spec;
use crate::utils::lcg;
use crate::utils::sat_add_u32;
use crate::utils::sat_sub_u32;

verus! {

/// Behavior chosen once at construction and fixed for the enemy's
/// lifetime.  The attacking variants carry (intensity, projectile speed
/// in milli-pixels per frame, projectile spawn width in pixels); the
/// zig-zag variant carries its turn rate.
#[derive(Clone, Copy, PartialEq, Eq, Structural, Debug)]
pub enum EnemyStrategy {
    TargetPlayer(u32, u32, u32),
    ShootDown(u32, u32, u32),
    MoveDown,
    RandomZigZag(u32),
}

/// The five enemy kinds, each with a fixed parameter table.
#[derive(Clone, Copy, PartialEq, Eq, Structural, Debug)]
pub enum EnemyType {
    Tank,
    Shooter,
    Turret,
    Zipper,
    Meteor,
}

#[derive(Clone, Copy, PartialEq, Eq, Structural, Debug)]
pub struct Enemy {
    pub enemy_type: EnemyType,
    pub strategy: EnemyStrategy,
    pub hitbox: Hitbox,
    pub hp: u32,
    pub points: u32,
    /// Descent speed in milli-pixels per frame.
    pub speed: u32,
    /// Zig-zag heading in whole degrees, kept in `[0, 360)`.
    pub angle: i32,
    pub hit_timer: u32,
    pub destroyed: bool,
}

/// Frames the hit flash shows after the enemy takes damage.
pub const ENEMY_HIT_FLASH: u32 = 5;

/// The fixed parameter table: what spawning each enemy kind yields,
/// with the horizontal position drawn from `seed`'s first draw.
pub open spec fn enemy_blueprint(enemy_type: EnemyType, screen_w: u32, seed: u32) -> Enemy {
    match enemy_type {
        EnemyType::Tank => Enemy {
            enemy_type,
            strategy: EnemyStrategy::TargetPlayer(1, 2500, 8),
            hitbox: Hitbox { x: spawn_x(seed, screen_w, 32), y: (-32 * SCALE) as i64, w: 32, h: 32 },
            hp: 10,
            points: 50,
            speed: 250,
            angle: 0,
            hit_timer: 0,
            destroyed: false,
        },
        EnemyType::Shooter => Enemy {
            enemy_type,
            strategy: EnemyStrategy::TargetPlayer(3, 2000, 4),
            hitbox: Hitbox { x: spawn_x(seed, screen_w, 16), y: (-16 * SCALE) as i64, w: 16, h: 16 },
            hp: 5,
            points: 30,
            speed: 1000,
            angle: 0,
            hit_timer: 0,
            destroyed: false,
        },
        EnemyType::Turret => Enemy {
            enemy_type,
            strategy: EnemyStrategy::ShootDown(2, 2500, 2),
            hitbox: Hitbox { x: spawn_x(seed, screen_w, 16), y: (-8 * SCALE) as i64, w: 16, h: 16 },
            hp: 8,
            points: 30,
            speed: 500,
            angle: 0,
            hit_timer: 0,
            destroyed: false,
        },
        EnemyType::Zipper => Enemy {
            enemy_type,
            strategy: EnemyStrategy::RandomZigZag(1),
            hitbox: Hitbox { x: spawn_x(seed, screen_w, 16), y: (-16 * SCALE) as i64, w: 16, h: 16 },
            hp: 4,
            points: 20,
            speed: 500,
            angle: 0,
            hit_timer: 0,
            destroyed: false,
        },
        EnemyType::Meteor => Enemy {
            enemy_type,
            strategy: EnemyStrategy::MoveDown,
            hitbox: Hitbox { x: spawn_x(seed, screen_w, 8), y: (-8 * SCALE) as i64, w: 8, h: 8 },
            hp: 3,
            points: 20,
            speed: 1000,
            angle: 0,
            hit_timer: 0,
            destroyed: false,
        },
    }
}

/// Spawn abscissa in milli-pixels: a random column, pulled left by the
/// sprite width and saturating at the left edge.
pub open spec fn spawn_x(seed: u32, screen_w: u32, off: u32) -> i64 {
    let c = (lcg(seed) as int) % (screen_w as int);
    (if c >= off {
        (c - off) * SCALE
    } else {
        0
    }) as i64
}

/// An enemy after taking a hit: hit points fall saturating at zero, the
/// hit flash restarts, and reaching zero marks it destroyed.
pub open spec fn damaged_enemy_spec(e: Enemy, damage: u32) -> Enemy {
    let hp = sat_sub_u32(e.hp, damage);
    Enemy {
        hp,
        hit_timer: ENEMY_HIT_FLASH,
        destroyed: e.destroyed || hp == 0,
        ..e
    }
}

/// The score after a hit: the enemy's point value is credited exactly
/// on the transition to zero hit points — the hit lands on a live
/// enemy and leaves it at zero.  An enemy already at zero credits
/// nothing again.
pub open spec fn score_after_damage(score: u32, e: Enemy, damage: u32) -> u32 {
    if e.hp > 0 && sat_sub_u32(e.hp, damage) == 0 {
        sat_add_u32(score, e.points)
    } else {
        score
    }
}

/// The strategy part of one enemy frame: the enemy after moving, the
/// projectile it fired (if any), and the generator state left behind.
pub open spec fn enemy_strategy_step_spec(
    e: Enemy,
    px: i64,
    py: i64,
    screen_w: u32,
    seed: u32,
) -> (Enemy, Option<Projectile>, u32) {
    match e.strategy {
        EnemyStrategy::TargetPlayer(intensity, psp, size) => {
            let y2 = clamp_coord_spec(e.hitbox.y + e.speed) as i64;
            let d = lcg(seed);
            if d as int % (250int / intensity as int) == 0 {
                let key = lcg(d);
                let sx = clamp_coord_spec(e.hitbox.x + e.hitbox.w * 500 - size * 500) as i64;
                let sy = clamp_coord_spec(y2 + e.hitbox.h * SCALE) as i64;
                (
                    Enemy { hitbox: Hitbox { y: y2, ..e.hitbox }, ..e },
                    Some(
                        aimed_projectile_spec(
                            sx as int,
                            sy as int,
                            psp,
                            px - e.hitbox.x,
                            py - y2,
                            ProjectileType::Laser,
                            ProjectileOwner::Enemy,
                            key,
                        ),
                    ),
                    key,
                )
            } else {
                (Enemy { hitbox: Hitbox { y: y2, ..e.hitbox }, ..e }, None::<Projectile>, d)
            }
        },
        EnemyStrategy::ShootDown(intensity, psp, size) => {
            let y2 = clamp_coord_spec(e.hitbox.y + e.speed) as i64;
            let d = lcg(seed);
            if d as int % (250int / intensity as int) == 0 {
                let key = lcg(d);
                let sx = clamp_coord_spec(e.hitbox.x + e.hitbox.w * 500 - size * 500) as i64;
                let sy = clamp_coord_spec(y2 + e.hitbox.h * SCALE) as i64;
                (
                    Enemy { hitbox: Hitbox { y: y2, ..e.hitbox }, ..e },
                    Some(
                        projectile_spec(
                            sx as int,
                            sy as int,
                            psp,
                            90,
                            ProjectileType::Laser,
                            ProjectileOwner::Enemy,
                            key,
                        ),
                    ),
                    key,
                )
            } else {
                (Enemy { hitbox: Hitbox { y: y2, ..e.hitbox }, ..e }, None::<Projectile>, d)
            }
        },
        EnemyStrategy::MoveDown => {
            let y2 = clamp_coord_spec(e.hitbox.y + e.speed) as i64;
            (Enemy { hitbox: Hitbox { y: y2, ..e.hitbox }, ..e }, None::<Projectile>, seed)
        },
        EnemyStrategy::RandomZigZag(turn_rate) => {
            let x2 = clamp_coord_spec(
                e.hitbox.x + scaled_ratio_spec(e.speed as int, cos_mil_spec(e.angle as int), 1000),
            ) as i64;
            let y2 = clamp_coord_spec(e.hitbox.y + e.speed) as i64;
            let moved = Enemy { hitbox: Hitbox { x: x2, y: y2, ..e.hitbox }, ..e };
            if x2 <= 0 || x2 >= screen_w * SCALE {
                (Enemy { angle: ((180 - e.angle) % 360) as i32, ..moved }, None::<Projectile>, seed)
            } else {
                let d = lcg(seed);
                if d % 20 == 0 {
                    (
                        Enemy {
                            angle: ((e.angle + 180int / turn_rate as int) % 360) as i32,
                            ..moved
                        },
                        None::<Projectile>,
                        d,
                    )
                } else {
                    (moved, None::<Projectile>, d)
                }
            }
        },
    }
}

/// One full enemy frame: the strategy step, then the below-the-screen
/// despawn test and the hit-flash countdown.
pub open spec fn enemy_step_spec(
    e: Enemy,
    px: i64,
    py: i64,
    screen_w: u32,
    screen_h: u32,
    seed: u32,
) -> (Enemy, Option<Projectile>, u32) {
    let stepped = enemy_strategy_step_spec(e, px, py, screen_w, seed);
    let e1 = stepped.0;
    let dead = e1.destroyed || e1.hitbox.y > (screen_h + e1.hitbox.h) * SCALE;
    (
        Enemy { destroyed: dead, hit_timer: sat_sub_u32(e1.hit_timer, 1), ..e1 },
        stepped.1,
        stepped.2,
    )
}

impl Enemy {
    /// Geometry in range, the heading normalized, and strategy
    /// parameters within the ranges the update arithmetic needs.
    pub open spec fn wf(self) -> bool {
        &&& self.hitbox.wf()
        &&& 0 <= self.angle < 360
        &&& self.speed <= 1_000_000
        &&& match self.strategy {
            EnemyStrategy::TargetPlayer(intensity, _psp, size) => 1 <= intensity <= 250 && size
                <= 1000,
            EnemyStrategy::ShootDown(intensity, _psp, size) => 1 <= intensity <= 250 && size
                <= 1000,
            EnemyStrategy::MoveDown => true,
            EnemyStrategy::RandomZigZag(turn_rate) => 1 <= turn_rate,
        }
    }

    /// Spawn an enemy of the given kind just above the top edge, at a
    /// random horizontal position, with its type's parameter table.
    pub fn new(enemy_type: EnemyType, screen_w: u32, rng: &mut Rng) -> (r: Enemy)
        requires
            1 <= screen_w <= MAX_DIM,
        ensures
            r == enemy_blueprint(enemy_type, screen_w, old(rng).state),
            final(rng).state == lcg(old(rng).state),
            r.wf(),
    {
        let d = rng.next_draw();
        match enemy_type {
            EnemyType::Tank => Enemy {
                enemy_type,
                strategy: EnemyStrategy::TargetPlayer(1, 2500, 8),
                hitbox: Hitbox {
                    x: ((d % screen_w).saturating_sub(32)) as i64 * SCALE,
                    y: (-32 * SCALE) as i64,
                    w: 32,
                    h: 32,
                },
                hp: 10,
                points: 50,
                speed: 250,
                angle: 0,
                hit_timer: 0,
                destroyed: false,
            },
            EnemyType::Shooter => Enemy {
                enemy_type,
                strategy: EnemyStrategy::TargetPlayer(3, 2000, 4),
                hitbox: Hitbox {
                    x: ((d % screen_w).saturating_sub(16)) as i64 * SCALE,
                    y: (-16 * SCALE) as i64,
                    w: 16,
                    h: 16,
                },
                hp: 5,
                points: 30,
                speed: 1000,
                angle: 0,
                hit_timer: 0,
                destroyed: false,
            },
            EnemyType::Turret => Enemy {
                enemy_type,
                strategy: EnemyStrategy::ShootDown(2, 2500, 2),
                hitbox: Hitbox {
                    x: ((d % screen_w).saturating_sub(16)) as i64 * SCALE,
                    y: (-8 * SCALE) as i64,
                    w: 16,
                    h: 16,
                },
                hp: 8,
                points: 30,
                speed: 500,
                angle: 0,
                hit_timer: 0,
                destroyed: false,
            },
            EnemyType::Zipper => Enemy {
                enemy_type,
                strategy: EnemyStrategy::RandomZigZag(1),
                hitbox: Hitbox {
                    x: ((d % screen_w).saturating_sub(16)) as i64 * SCALE,
                    y: (-16 * SCALE) as i64,
                    w: 16,
                    h: 16,
                },
                hp: 4,
                points: 20,
                speed: 500,
                angle: 0,
                hit_timer: 0,
                destroyed: false,
            },
            EnemyType::Meteor => Enemy {
                enemy_type,
                strategy: EnemyStrategy::MoveDown,
                hitbox: Hitbox {
                    x: ((d % screen_w).saturating_sub(8)) as i64 * SCALE,
                    y: (-8 * SCALE) as i64,
                    w: 8,
                    h: 8,
                },
                hp: 3,
                points: 20,
                speed: 1000,
                angle: 0,
                hit_timer: 0,
                destroyed: false,
            },
        }
    }

    /// Take a hit: hit points fall saturating, the hit flash restarts,
    /// and on the transition to zero the enemy is destroyed and its
    /// point value is credited to the player's score, once.
    pub fn take_damage(&mut self, player: &mut Player, damage: u32)
        ensures
            *final(self) == damaged_enemy_spec(*old(self), damage),
            final(player).score == score_after_damage(old(player).score, *old(self), damage),
            *final(player) == (Player { score: final(player).score, ..*old(player) }),
    {
        let was_alive = self.hp > 0;
        self.hp = self.hp.saturating_sub(damage);
        self.hit_timer = ENEMY_HIT_FLASH;
        if self.hp == 0 {
            self.destroyed = true;
            if was_alive {
                player.score = player.score.saturating_add(self.points);
            }
        }
    }

    /// The targeting variants' shared frame: descend, roll the attack,
    /// and on success fire a projectile at the player (aimed) or
    /// straight down, per the strategy.
    #[verifier::rlimit(100)]
    fn step_attacker(
        &mut self,
        intensity: u32,
        psp: u32,
        size: u32,
        aimed: bool,
        player: &Player,
        projectiles: &mut Vec<Projectile>,
        screen_w: u32,
        rng: &mut Rng,
    )
        requires
            old(self).wf(),
            player.hitbox.wf(),
            1 <= screen_w <= MAX_DIM,
            old(self).strategy == if aimed {
                EnemyStrategy::TargetPlayer(intensity, psp, size)
            } else {
                EnemyStrategy::ShootDown(intensity, psp, size)
            },
        ensures
            ({
                let (e2, shot, rng_end) = enemy_strategy_step_spec(
                    *old(self),
                    player.hitbox.x,
                    player.hitbox.y,
                    screen_w,
                    old(rng).state,
                );
                &&& *final(self) == e2
                &&& final(rng).state == rng_end
                &&& final(projectiles)@ == if shot is Some {
                    old(projectiles)@.push(shot->0)
                } else {
                    old(projectiles)@
                }
            }),
            forall|j: int|
                old(projectiles)@.len() <= j < final(projectiles)@.len()
                    ==> (#[trigger] final(projectiles)@[j]).wf(),
            final(self).wf(),
    {
        proof {
            if aimed {
                assert(old(self).strategy == EnemyStrategy::TargetPlayer(intensity, psp, size));
            } else {
                assert(old(self).strategy == EnemyStrategy::ShootDown(intensity, psp, size));
            }
            assert(1 <= intensity <= 250 && size <= 1000);
            vstd::arithmetic::div_mod::lemma_div_non_zero(250, intensity as int);
        }
        self.hitbox.y = add_coord(self.hitbox.y, self.speed as i64);
        let d = rng.next_draw();
        if d % (250 / intensity) == 0 {
            let key = rng.next_draw();
            let sx = add_coord(self.hitbox.x, self.hitbox.w as i64 * 500 - size as i64 * 500);
            let sy = add_coord(self.hitbox.y, self.hitbox.h as i64 * SCALE);
            let shot = if aimed {
                Projectile::new_aimed(
                    sx,
                    sy,
                    psp,
                    player.hitbox.x - self.hitbox.x,
                    player.hitbox.y - self.hitbox.y,
                    ProjectileType::Laser,
                    ProjectileOwner::Enemy,
                    key,
                )
            } else {
                Projectile::new(sx, sy, psp, 90, ProjectileType::Laser, ProjectileOwner::Enemy, key)
            };
            projectiles.push(shot);
        }
    }

    /// The zig-zag variant's frame: drift by the heading's cosine while
    /// descending, reflect the heading on reaching either horizontal
    /// edge (the edge itself counts), otherwise perturb it on a
    /// one-in-twenty roll.
    #[verifier::rlimit(100)]
    fn step_zigzag(
        &mut self,
        turn_rate: u32,
        player: &Player,
        projectiles: &mut Vec<Projectile>,
        screen_w: u32,
        rng: &mut Rng,
    )
        requires
            old(self).wf(),
            player.hitbox.wf(),
            1 <= screen_w <= MAX_DIM,
            old(self).strategy == EnemyStrategy::RandomZigZag(turn_rate),
        ensures
            ({
                let (e2, shot, rng_end) = enemy_strategy_step_spec(
                    *old(self),
                    player.hitbox.x,
                    player.hitbox.y,
                    screen_w,
                    old(rng).state,
                );
                &&& *final(self) == e2
                &&& final(rng).state == rng_end
                &&& final(projectiles)@ == if shot is Some {
                    old(projectiles)@.push(shot->0)
                } else {
                    old(projectiles)@
                }
            }),
            forall|j: int|
                old(projectiles)@.len() <= j < final(projectiles)@.len()
                    ==> (#[trigger] final(projectiles)@[j]).wf(),
            final(self).wf(),
    {
        let c = cos_mil(self.angle);
        let dx = scaled_ratio(self.speed, c as i64, 1000);
        self.hitbox.x = add_coord(self.hitbox.x, dx);
        self.hitbox.y = add_coord(self.hitbox.y, self.speed as i64);
        if self.hitbox.x <= 0 || self.hitbox.x >= screen_w as i64 * SCALE {
            self.angle = norm_deg(180 - self.angle);
        } else {
            let d = rng.next_draw();
            if d % 20 == 0 {
                self.angle = norm_deg(self.angle + (180 / turn_rate) as i32);
            }
        }
    }

    /// The strategy dispatch of one frame.
    fn step_strategy(
        &mut self,
        player: &Player,
        projectiles: &mut Vec<Projectile>,
        screen_w: u32,
        rng: &mut Rng,
    )
        requires
            old(self).wf(),
            player.hitbox.wf(),
            1 <= screen_w <= MAX_DIM,
        ensures
            ({
                let (e2, shot, rng_end) = enemy_strategy_step_spec(
                    *old(self),
                    player.hitbox.x,
                    player.hitbox.y,
                    screen_w,
                    old(rng).state,
                );
                &&& *final(self) == e2
                &&& final(rng).state == rng_end
                &&& final(projectiles)@ == if shot is Some {
                    old(projectiles)@.push(shot->0)
                } else {
                    old(projectiles)@
                }
            }),
            forall|j: int|
                old(projectiles)@.len() <= j < final(projectiles)@.len()
                    ==> (#[trigger] final(projectiles)@[j]).wf(),
            final(self).wf(),
    {
        match self.strategy {
            EnemyStrategy::TargetPlayer(intensity, psp, size) => {
                self.step_attacker(intensity, psp, size, true, player, projectiles, screen_w, rng);
            },
            EnemyStrategy::ShootDown(intensity, psp, size) => {
                self.step_attacker(intensity, psp, size, false, player, projectiles, screen_w, rng);
            },
            EnemyStrategy::MoveDown => {
                self.hitbox.y = add_coord(self.hitbox.y, self.speed as i64);
            },
            EnemyStrategy::RandomZigZag(turn_rate) => {
                self.step_zigzag(turn_rate, player, projectiles, screen_w, rng);
            },
        }
    }

    /// One frame: the strategy step, then the below-the-screen despawn
    /// test and the hit-flash countdown.
    pub fn update(
        &mut self,
        player: &mut Player,
        projectiles: &mut Vec<Projectile>,
        screen_w: u32,
        screen_h: u32,
        rng: &mut Rng,
    )
        requires
            old(self).wf(),
            old(player).hitbox.wf(),
            1 <= screen_w <= MAX_DIM,
            1 <= screen_h <= MAX_DIM,
        ensures
            ({
                let (e2, shot, rng_end) = enemy_step_spec(
                    *old(self),
                    old(player).hitbox.x,
                    old(player).hitbox.y,
                    screen_w,
                    screen_h,
                    old(rng).state,
                );
                &&& *final(self) == e2
                &&& final(rng).state == rng_end
                &&& final(projectiles)@ == if shot is Some {
                    old(projectiles)@.push(shot->0)
                } else {
                    old(projectiles)@
                }
            }),
            forall|j: int|
                old(projectiles)@.len() <= j < final(projectiles)@.len()
                    ==> (#[trigger] final(projectiles)@[j]).wf(),
            *final(player) == *old(player),
            final(self).wf(),
    {
        self.step_strategy(player, projectiles, screen_w, rng);
        if self.hitbox.y > (screen_h as i64 + self.hitbox.h as i64) * SCALE {
            self.destroyed = true;
        }
        self.hit_timer = self.hit_timer.saturating_sub(1);
    }
}

} // verus!
