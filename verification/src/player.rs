//! The player: movement intent, shooting cadence, damage intake, stat
//! progression through powerups, and the notification queue the HUD
//! drains.

use vstd::prelude::*;

use crate::enemy::Enemy;
use crate::enemy::damaged_enemy_spec;
use crate::enemy::score_after_damage;
use crate::input::InputState;
use crate::power_up::Powerup;
use crate::power_up::PowerupEffect;
use crate::projectile::Projectile;
use crate::projectile::ProjectileOwner;
use crate::projectile::ProjectileType;
use crate::projectile::projectile_spec;
use crate::trig::floor_sqrt;
use crate::trig::is_floor_sqrt;
use crate::trig::isqrt;
use crate::trig::scaled_ratio;
use crate::trig::scaled_ratio_spec;
use crate::utils::Hitbox;
use crate::utils::MAX_DIM;
use crate::utils::Rng;
use crate::utils::SCALE;
use crate::utils::add_coord;
use crate::utils::check_collision;
use crate::utils::clamp_between_spec;
use crate::utils::clamp_coord_spec;
use crate::utils::lcg;
use crate::utils::overlaps;
use crate::utils::sat_sub_u32;

verus! {

/// Ceiling of the max-health stat.
pub const MAX_HP_CAP: u32 = 10;

/// Ceiling of the damage stat.
pub const DAMAGE_CAP: u32 = 2;

/// Floor of the rate-of-fire stat (smaller is faster).
pub const ROF_FLOOR: u32 = 5;

/// Ceiling of the projectile-speed stat.
pub const PROJECTILE_SPEED_CAP: u32 = 10;

/// Invincibility window (in frames) granted on taking damage.
pub const HIT_WINDOW: u32 = 20;

/// The player's mutable stat bundle.  `speed` is in milli-pixels per
/// frame; the other stats are plain counts.
#[derive(Clone, Copy, PartialEq, Eq, Structural, Debug)]
pub struct PlayerStats {
    pub max_hp: u32,
    pub speed: u32,
    pub damage: u32,
    pub rate_of_fire: u32,
    pub projectile_speed: u32,
}

/// A queued HUD message.  The four hints are the onboarding queue a new
/// player starts with; the rest announce a collected powerup.
#[derive(Clone, Copy, PartialEq, Eq, Structural, Debug)]
pub enum Notification {
    HintMove,
    HintShoot,
    HintPowerups,
    HintLuck,
    Heal,
    MaxHealthUp,
    SpeedBoost,
    DamageBoost,
    RateOfFireBoost,
    ProjectileSpeedBoost,
}

#[derive(Clone, Debug)]
pub struct Player {
    pub hitbox: Hitbox,
    pub dx: i32,
    pub dy: i32,
    pub hp: u32,
    pub hit_timer: u32,
    pub shoot_timer: u32,
    pub shooting: bool,
    pub stats: PlayerStats,
    pub projectile_type: ProjectileType,
    pub score: u32,
    pub notifications: Vec<Notification>,
}

/// Every stat within its documented bound.
pub open spec fn stats_wf(s: PlayerStats) -> bool {
    &&& 1 <= s.max_hp <= MAX_HP_CAP
    &&& s.damage <= DAMAGE_CAP
    &&& s.rate_of_fire >= ROF_FLOOR
    &&& s.projectile_speed <= PROJECTILE_SPEED_CAP
}

/// What collecting an effect does to the stat bundle: each mutation
/// saturates at its documented ceiling or floor.
pub open spec fn apply_effect_stats(s: PlayerStats, e: PowerupEffect) -> PlayerStats {
    match e {
        PowerupEffect::Heal => s,
        PowerupEffect::MaxHealthUp => PlayerStats {
            max_hp: if s.max_hp + 1 <= MAX_HP_CAP {
                (s.max_hp + 1) as u32
            } else {
                MAX_HP_CAP
            },
            ..s
        },
        PowerupEffect::SpeedBoost => PlayerStats { speed: boosted_speed(s.speed), ..s },
        PowerupEffect::DamageBoost => PlayerStats {
            damage: if s.damage + 1 <= DAMAGE_CAP {
                (s.damage + 1) as u32
            } else {
                DAMAGE_CAP
            },
            ..s
        },
        PowerupEffect::RateOfFireBoost => PlayerStats {
            rate_of_fire: if s.rate_of_fire > ROF_FLOOR {
                (s.rate_of_fire - 1) as u32
            } else {
                ROF_FLOOR
            },
            ..s
        },
        PowerupEffect::ProjectileSpeedBoost => PlayerStats {
            projectile_speed: if s.projectile_speed + 1 <= PROJECTILE_SPEED_CAP {
                (s.projectile_speed + 1) as u32
            } else {
                PROJECTILE_SPEED_CAP
            },
            ..s
        },
    }
}

/// A speed boost multiplies by 1.1 in milli-pixel units, saturating at
/// the largest representable speed.
pub open spec fn boosted_speed(v: u32) -> u32 {
    if v <= 390451572 {
        (v * 11 / 10) as u32
    } else {
        429496729u32
    }
}

/// What collecting an effect does to the hit points, given the stat
/// bundle before the pickup.  A heal is one hit point capped at the
/// max-health stat; hit points above the cap are pulled back to it.
pub open spec fn apply_effect_hp(hp: u32, s: PlayerStats, e: PowerupEffect) -> u32 {
    match e {
        PowerupEffect::Heal => if hp + 1 <= s.max_hp {
            (hp + 1) as u32
        } else {
            s.max_hp
        },
        PowerupEffect::MaxHealthUp => if hp + 1 <= 0xffff_ffffu32 {
            (hp + 1) as u32
        } else {
            0xffff_ffffu32
        },
        _ => hp,
    }
}

/// The message announcing a collected effect.
pub open spec fn effect_note_spec(e: PowerupEffect) -> Notification {
    match e {
        PowerupEffect::Heal => Notification::Heal,
        PowerupEffect::MaxHealthUp => Notification::MaxHealthUp,
        PowerupEffect::SpeedBoost => Notification::SpeedBoost,
        PowerupEffect::DamageBoost => Notification::DamageBoost,
        PowerupEffect::RateOfFireBoost => Notification::RateOfFireBoost,
        PowerupEffect::ProjectileSpeedBoost => Notification::ProjectileSpeedBoost,
    }
}

/// Saturating stat mutations keep every stat within its bound.
pub proof fn lemma_effects_preserve_stat_caps(s: PlayerStats, e: PowerupEffect)
    requires
        stats_wf(s),
    ensures
        stats_wf(apply_effect_stats(s, e)),
{
}


/// The pointer's horizontal nudge: one step toward the pointer when it
/// sits clear of the hitbox centre by half the speed stat.
pub open spec fn pointer_dx_spec(p: Player, input: InputState) -> int {
    if input.pointer_pressed {
        if input.pointer_x * SCALE < p.hitbox.x + 8 * SCALE - p.stats.speed / 2 {
            -1
        } else if input.pointer_x * SCALE >= p.hitbox.x + 8 * SCALE + p.stats.speed / 2 {
            1
        } else {
            0
        }
    } else {
        0
    }
}

/// The pointer's vertical nudge: one step toward the pointer when it
/// sits above or below the hitbox.
pub open spec fn pointer_dy_spec(p: Player, input: InputState) -> int {
    if input.pointer_pressed {
        if input.pointer_y * SCALE < p.hitbox.y {
            -1
        } else if input.pointer_y * SCALE > p.hitbox.y + 16 * SCALE {
            1
        } else {
            0
        }
    } else {
        0
    }
}

/// Horizontal movement intent: digital input plus the pointer nudge.
pub open spec fn intent_dx_spec(p: Player, input: InputState) -> i32 {
    ((if input.left {
        -1int
    } else {
        0int
    }) + (if input.right {
        1int
    } else {
        0int
    }) + pointer_dx_spec(p, input)) as i32
}

/// Vertical movement intent: digital input plus the pointer nudge.
pub open spec fn intent_dy_spec(p: Player, input: InputState) -> i32 {
    ((if input.up {
        -1int
    } else {
        0int
    }) + (if input.down {
        1int
    } else {
        0int
    }) + pointer_dy_spec(p, input)) as i32
}

/// One axis of a normalized step: the intent vector scaled to the speed
/// stat, in milli-pixels.
#[verifier::opaque]
pub open spec fn norm_delta_spec(speed: u32, da: int, db: int) -> int {
    scaled_ratio_spec(speed as int, da * 1000, floor_sqrt((da * da + db * db) * 1_000_000))
}

/// The abscissa after one frame of movement, clamped to the viewport.
pub open spec fn moved_x_spec(p: Player, input: InputState, screen_w: u32) -> i64 {
    let dx = intent_dx_spec(p, input) as int;
    let dy = intent_dy_spec(p, input) as int;
    if dx == 0 && dy == 0 {
        p.hitbox.x
    } else {
        clamp_between_spec(
            p.hitbox.x + norm_delta_spec(p.stats.speed, dx, dy),
            0,
            (screen_w - 16) * SCALE,
        ) as i64
    }
}

/// The ordinate after one frame of movement, clamped to the viewport.
pub open spec fn moved_y_spec(p: Player, input: InputState, screen_h: u32) -> i64 {
    let dx = intent_dx_spec(p, input) as int;
    let dy = intent_dy_spec(p, input) as int;
    if dx == 0 && dy == 0 {
        p.hitbox.y
    } else {
        clamp_between_spec(
            p.hitbox.y + norm_delta_spec(p.stats.speed, dy, dx),
            0,
            (screen_h - 16) * SCALE,
        ) as i64
    }
}

/// The player fires this frame: alive, the fire control held, and the
/// cooldown at zero.
pub open spec fn frame_fired(p: Player, input: InputState) -> bool {
    p.hp != 0 && input.fire_held() && p.shoot_timer == 0
}

/// The pair of projectiles a firing frame spawns: both one sprite above
/// the moved hitbox, the second offset one projectile width (6 pixels)
/// right, travelling straight up at 5 pixels per frame.
pub open spec fn frame_shots(
    p: Player,
    input: InputState,
    screen_w: u32,
    screen_h: u32,
    seed: u32,
) -> Seq<Projectile> {
    if frame_fired(p, input) {
        let mx = moved_x_spec(p, input, screen_w);
        let my = moved_y_spec(p, input, screen_h);
        let k1 = lcg(seed);
        let k2 = lcg(k1);
        seq![
            projectile_spec(
                mx as int,
                clamp_coord_spec(my - 8 * SCALE),
                5000,
                -90,
                p.projectile_type,
                ProjectileOwner::Player,
                k1,
            ),
            projectile_spec(
                clamp_coord_spec(mx + 6 * SCALE),
                clamp_coord_spec(my - 8 * SCALE),
                5000,
                -90,
                p.projectile_type,
                ProjectileOwner::Player,
                k2,
            ),
        ]
    } else {
        Seq::empty()
    }
}

/// The powerup pickup pass over the collection in order: every powerup
/// the (already moved) hitbox overlaps is consumed, its effect applied
/// to the running stat bundle and hit points and its note appended; the
/// others are kept.  Returns (stats, hit points, appended notes, kept
/// powerups).
pub open spec fn pickup_pass(
    stats: PlayerStats,
    hp: u32,
    hb: Hitbox,
    s: Seq<Powerup>,
) -> (PlayerStats, u32, Seq<Notification>, Seq<Powerup>)
    decreases s.len(),
{
    if s.len() == 0 {
        (stats, hp, Seq::<Notification>::empty(), Seq::<Powerup>::empty())
    } else {
        let first = s[0];
        let rest = s.subrange(1, s.len() as int);
        if overlaps(hb, first.hitbox) {
            let tail = pickup_pass(
                apply_effect_stats(stats, first.effect),
                apply_effect_hp(hp, stats, first.effect),
                hb,
                rest,
            );
            (tail.0, tail.1, seq![effect_note_spec(first.effect)] + tail.2, tail.3)
        } else {
            let tail = pickup_pass(stats, hp, hb, rest);
            (tail.0, tail.1, tail.2, seq![first] + tail.3)
        }
    }
}

/// The enemy contact pass over the collection in order: every live
/// enemy the hitbox overlaps costs the player one hit point (saturating)
/// and is itself reduced to zero hit points, destroyed, and its point
/// value credited.  Returns (hit points, score, contact count, enemies
/// after).
pub open spec fn contact_pass(
    hp: u32,
    score: u32,
    hb: Hitbox,
    s: Seq<Enemy>,
) -> (u32, u32, int, Seq<Enemy>)
    decreases s.len(),
{
    if s.len() == 0 {
        (hp, score, 0int, Seq::<Enemy>::empty())
    } else {
        let first = s[0];
        let rest = s.subrange(1, s.len() as int);
        if first.hp > 0 && overlaps(hb, first.hitbox) {
            let tail = contact_pass(
                sat_sub_u32(hp, 1),
                score_after_damage(score, first, first.hp),
                hb,
                rest,
            );
            (tail.0, tail.1, tail.2 + 1, seq![damaged_enemy_spec(first, first.hp)] + tail.3)
        } else {
            let tail = contact_pass(hp, score, hb, rest);
            (tail.0, tail.1, tail.2, seq![first] + tail.3)
        }
    }
}

/// Enemy contact is mutually lethal: each live enemy the player's
/// hitbox overlaps ends the frame at zero hit points and destroyed,
/// every other enemy is untouched, and the player pays exactly one hit
/// point per contact (saturating at zero), whatever the invincibility
/// timer says.
pub proof fn lemma_contact_mutually_lethal(hp: u32, score: u32, hb: Hitbox, s: Seq<Enemy>)
    ensures
        ({
            let cp = contact_pass(hp, score, hb, s);
            &&& cp.3.len() == s.len()
            &&& forall|k: int|
                0 <= k < s.len() ==> cp.3[k] == (if s[k].hp > 0 && overlaps(hb, (#[trigger] s[k]).hitbox) {
                    damaged_enemy_spec(s[k], s[k].hp)
                } else {
                    s[k]
                })
            &&& forall|k: int|
                0 <= k < s.len() && s[k].hp > 0 && overlaps(hb, (#[trigger] s[k]).hitbox)
                    ==> cp.3[k].hp == 0 && cp.3[k].destroyed
            &&& 0 <= cp.2 <= s.len()
            &&& cp.0 == if hp >= cp.2 {
                (hp - cp.2) as u32
            } else {
                0u32
            }
        }),
    decreases s.len(),
{
    let cp = contact_pass(hp, score, hb, s);
    if s.len() == 0 {
    } else {
        let rest = s.subrange(1, s.len() as int);
        if s[0].hp > 0 && overlaps(hb, s[0].hitbox) {
            lemma_contact_mutually_lethal(
                sat_sub_u32(hp, 1),
                score_after_damage(score, s[0], s[0].hp),
                hb,
                rest,
            );
        } else {
            lemma_contact_mutually_lethal(hp, score, hb, rest);
        }
        assert forall|k: int|
            0 <= k < s.len() implies cp.3[k] == (if s[k].hp > 0 && overlaps(hb, (#[trigger] s[k]).hitbox) {
            damaged_enemy_spec(s[k], s[k].hp)
        } else {
            s[k]
        }) by {
            if k > 0 {
                assert(rest[k - 1] == s[k]);
            }
        }
    }
}

/// One axis of the normalized movement step, executably: the speed
/// stat scaled by `da / sqrt(da^2 + db^2)`.
fn norm_step(speed: u32, da: i32, db: i32) -> (r: i64)
    requires
        -2 <= da <= 2,
        -2 <= db <= 2,
        da != 0 || db != 0,
    ensures
        r == norm_delta_spec(speed, da as int, db as int),
        -(speed as int) <= r <= speed as int,
{
    proof {
        reveal(norm_delta_spec);
        assert(1 <= da * da + db * db <= 8 && 0 <= da * da <= 4 && 0 <= db * db <= 4) by (nonlinear_arith)
            requires
                -2 <= da <= 2,
                -2 <= db <= 2,
                da != 0 || db != 0,
        ;
    }
    let d: i32 = da * da + db * db;
    let n: u128 = (d as u128) * 1_000_000;
    let len = isqrt(n);
    proof {
        let l = len as int;
        assert(1000 <= l && l <= 2829) by (nonlinear_arith)
            requires
                l * l <= n as int,
                (n as int) < (l + 1) * (l + 1),
                1_000_000 <= n as int <= 8_000_000,
                l >= 0,
        ;
        assert((da * 1000) * (da * 1000) <= n as int) by (nonlinear_arith)
            requires
                n as int == (da * da + db * db) * 1_000_000,
                -2 <= da <= 2,
                -2 <= db <= 2,
        ;
        assert(-l <= da * 1000 <= l) by (nonlinear_arith)
            requires
                (da * 1000) * (da * 1000) <= n as int,
                (n as int) < (l + 1) * (l + 1),
                l >= 0,
        ;
    }
    scaled_ratio(speed, da as i64 * 1000, len)
}

impl Player {
    /// Geometry in range, movement intent within one diagonal step, and
    /// the fixed 16x16 frame.
    pub open spec fn wf(self) -> bool {
        &&& self.hitbox.wf()
        &&& self.hitbox.w == 16
        &&& self.hitbox.h == 16
        &&& -2 <= self.dx <= 2
        &&& -2 <= self.dy <= 2
        &&& stats_wf(self.stats)
    }

    /// A fresh player centred near the bottom of the screen, with the
    /// starting stats and the onboarding notification queue.
    pub fn new(screen_w: u32, screen_h: u32) -> (r: Player)
        requires
            16 <= screen_w <= MAX_DIM,
            64 <= screen_h <= MAX_DIM,
        ensures
            r.hitbox == (Hitbox {
                x: ((screen_w / 2 - 8) * 1000) as i64,
                y: ((screen_h - 64) * 1000) as i64,
                w: 16,
                h: 16,
            }),
            r.dx == 0 && r.dy == 0,
            r.hp == 3,
            r.hit_timer == 0,
            r.shoot_timer == 0,
            r.shooting == false,
            r.stats == (PlayerStats {
                max_hp: 3,
                speed: 2000,
                damage: 1,
                rate_of_fire: 15,
                projectile_speed: 5,
            }),
            r.projectile_type == ProjectileType::Basic,
            r.score == 0,
            r.notifications@ == seq![
                Notification::HintMove,
                Notification::HintShoot,
                Notification::HintPowerups,
                Notification::HintLuck,
            ],
            r.wf(),
    {
        let mut notifications: Vec<Notification> = Vec::new();
        notifications.push(Notification::HintMove);
        notifications.push(Notification::HintShoot);
        notifications.push(Notification::HintPowerups);
        notifications.push(Notification::HintLuck);
        proof {
            assert(notifications@ =~= seq![
                Notification::HintMove,
                Notification::HintShoot,
                Notification::HintPowerups,
                Notification::HintLuck,
            ]);
        }
        Player {
            hitbox: Hitbox {
                x: (screen_w / 2 - 8) as i64 * 1000,
                y: (screen_h - 64) as i64 * 1000,
                w: 16,
                h: 16,
            },
            dx: 0,
            dy: 0,
            hp: 3,
            hit_timer: 0,
            shoot_timer: 0,
            shooting: false,
            stats: PlayerStats {
                max_hp: 3,
                speed: 2000,
                damage: 1,
                rate_of_fire: 15,
                projectile_speed: 5,
            },
            projectile_type: ProjectileType::Basic,
            score: 0,
            notifications,
        }
    }

    /// Damage intake: hit points fall saturating at zero and the
    /// invincibility window restarts.  The host reads the shake flag
    /// through `camera_shake_active`.
    pub fn take_damage(&mut self, damage: u32)
        ensures
            final(self).hp == if old(self).hp >= damage {
                (old(self).hp - damage) as u32
            } else {
                0u32
            },
            final(self).hit_timer == HIT_WINDOW,
            *final(self) == (Player {
                hp: final(self).hp,
                hit_timer: final(self).hit_timer,
                ..*old(self)
            }),
    {
        self.hp = self.hp.saturating_sub(damage);
        self.hit_timer = HIT_WINDOW;
    }

    /// The host's camera shakes exactly while the hit window runs.
    pub fn camera_shake_active(&self) -> (r: bool)
        ensures
            r == (self.hit_timer > 0),
    {
        self.hit_timer > 0
    }

    /// Apply a collected powerup: the stat bundle and hit points change
    /// per the effect table and exactly one notification is queued.
    pub fn collect_powerup(&mut self, powerup: &Powerup)
        ensures
            final(self).stats == apply_effect_stats(old(self).stats, powerup.effect),
            final(self).hp == apply_effect_hp(old(self).hp, old(self).stats, powerup.effect),
            final(self).notifications@ == old(self).notifications@.push(
                effect_note_spec(powerup.effect),
            ),
            *final(self) == (Player {
                hp: final(self).hp,
                stats: final(self).stats,
                notifications: final(self).notifications,
                ..*old(self)
            }),
    {
        match powerup.effect {
            PowerupEffect::Heal => {
                if self.hp < self.stats.max_hp {
                    self.hp = self.hp + 1;
                } else {
                    self.hp = self.stats.max_hp;
                }
                self.notifications.push(Notification::Heal);
            },
            PowerupEffect::MaxHealthUp => {
                if self.stats.max_hp < MAX_HP_CAP {
                    self.stats.max_hp = self.stats.max_hp + 1;
                } else {
                    self.stats.max_hp = MAX_HP_CAP;
                }
                self.hp = self.hp.saturating_add(1);
                self.notifications.push(Notification::MaxHealthUp);
            },
            PowerupEffect::SpeedBoost => {
                if self.stats.speed <= 390451572 {
                    self.stats.speed = self.stats.speed * 11 / 10;
                } else {
                    self.stats.speed = 429496729;
                }
                self.notifications.push(Notification::SpeedBoost);
            },
            PowerupEffect::DamageBoost => {
                self.notifications.push(Notification::DamageBoost);
                if self.stats.damage < DAMAGE_CAP {
                    self.stats.damage = self.stats.damage + 1;
                } else {
                    self.stats.damage = DAMAGE_CAP;
                }
            },
            PowerupEffect::RateOfFireBoost => {
                if self.stats.rate_of_fire > ROF_FLOOR {
                    self.stats.rate_of_fire = self.stats.rate_of_fire - 1;
                } else {
                    self.stats.rate_of_fire = ROF_FLOOR;
                }
                self.notifications.push(Notification::RateOfFireBoost);
            },
            PowerupEffect::ProjectileSpeedBoost => {
                if self.stats.projectile_speed < PROJECTILE_SPEED_CAP {
                    self.stats.projectile_speed = self.stats.projectile_speed + 1;
                } else {
                    self.stats.projectile_speed = PROJECTILE_SPEED_CAP;
                }
                self.notifications.push(Notification::ProjectileSpeedBoost);
            },
        }
    }

    /// While the player is dead the hit timer still runs down; once it
    /// has elapsed, a confirm press asks for a full restart.
    pub fn reset(&mut self, input: &crate::input::InputState) -> (restart: bool)
        ensures
            final(self).hit_timer == if old(self).hit_timer >= 1 {
                (old(self).hit_timer - 1) as u32
            } else {
                0u32
            },
            *final(self) == (Player { hit_timer: final(self).hit_timer, ..*old(self) }),
            restart == (final(self).hit_timer == 0 && input.confirm_pressed()),
    {
        self.hit_timer = self.hit_timer.saturating_sub(1);
        self.hit_timer == 0 && (input.start_just_pressed || input.a_just_pressed)
    }

    /// Recompute the movement intent from input and integrate one step,
    /// normalized so diagonal movement is no faster, clamped to the
    /// viewport.
    #[verifier::rlimit(100)]
    fn apply_movement(&mut self, input: &InputState, screen_w: u32, screen_h: u32)
        requires
            old(self).wf(),
            16 <= screen_w <= MAX_DIM,
            16 <= screen_h <= MAX_DIM,
        ensures
            final(self).dx == intent_dx_spec(*old(self), *input),
            final(self).dy == intent_dy_spec(*old(self), *input),
            final(self).hitbox == (Hitbox {
                x: moved_x_spec(*old(self), *input, screen_w),
                y: moved_y_spec(*old(self), *input, screen_h),
                ..old(self).hitbox
            }),
            *final(self) == (Player {
                dx: final(self).dx,
                dy: final(self).dy,
                hitbox: final(self).hitbox,
                ..*old(self)
            }),
            final(self).wf(),
    {
        self.dx = 0;
        self.dy = 0;
        if input.up {
            self.dy = self.dy - 1;
        }
        if input.down {
            self.dy = self.dy + 1;
        }
        if input.left {
            self.dx = self.dx - 1;
        }
        if input.right {
            self.dx = self.dx + 1;
        }
        if input.pointer_pressed {
            let px = input.pointer_x as i64 * SCALE;
            if px < self.hitbox.x + 8 * SCALE - (self.stats.speed / 2) as i64 {
                self.dx = self.dx - 1;
            } else if px >= self.hitbox.x + 8 * SCALE + (self.stats.speed / 2) as i64 {
                self.dx = self.dx + 1;
            }
            let py = input.pointer_y as i64 * SCALE;
            if py < self.hitbox.y {
                self.dy = self.dy - 1;
            } else if py > self.hitbox.y + 16 * SCALE {
                self.dy = self.dy + 1;
            }
        }
        let dxv = self.dx;
        let dyv = self.dy;
        if dxv != 0 || dyv != 0 {
            let ddx = norm_step(self.stats.speed, dxv, dyv);
            let ddy = norm_step(self.stats.speed, dyv, dxv);
            let hi_x = (screen_w - 16) as i64 * SCALE;
            let hi_y = (screen_h - 16) as i64 * SCALE;
            let nx = self.hitbox.x + ddx;
            let ny = self.hitbox.y + ddy;
            self.hitbox.x = if nx < 0 {
                0
            } else if nx > hi_x {
                hi_x
            } else {
                nx
            };
            self.hitbox.y = if ny < 0 {
                0
            } else if ny > hi_y {
                hi_y
            } else {
                ny
            };
        }
    }

    /// While the fire control is held and the cooldown is at zero,
    /// spawn the pair of upward projectiles and restart the cooldown;
    /// the cooldown runs down one step every frame either way.
    fn handle_fire(&mut self, projectiles: &mut Vec<Projectile>, input: &InputState, rng: &mut Rng)
        requires
            old(self).wf(),
            forall|k: int|
                0 <= k < old(projectiles)@.len() ==> (#[trigger] old(projectiles)@[k]).wf(),
        ensures
            forall|k: int|
                0 <= k < final(projectiles)@.len() ==> (#[trigger] final(projectiles)@[k]).wf(),
            ({
                let fired = input.fire_held() && old(self).shoot_timer == 0;
                let k1 = lcg(old(rng).state);
                let k2 = lcg(k1);
                &&& final(self).shooting == input.fire_held()
                &&& final(self).shoot_timer == sat_sub_u32(
                    if fired {
                        old(self).stats.rate_of_fire
                    } else {
                        old(self).shoot_timer
                    },
                    1,
                )
                &&& *final(self) == (Player {
                    shooting: final(self).shooting,
                    shoot_timer: final(self).shoot_timer,
                    ..*old(self)
                })
                &&& final(projectiles)@ == old(projectiles)@ + (if fired {
                    seq![
                        projectile_spec(
                            old(self).hitbox.x as int,
                            clamp_coord_spec(old(self).hitbox.y - 8 * SCALE),
                            5000,
                            -90,
                            old(self).projectile_type,
                            ProjectileOwner::Player,
                            k1,
                        ),
                        projectile_spec(
                            clamp_coord_spec(old(self).hitbox.x + 6 * SCALE),
                            clamp_coord_spec(old(self).hitbox.y - 8 * SCALE),
                            5000,
                            -90,
                            old(self).projectile_type,
                            ProjectileOwner::Player,
                            k2,
                        ),
                    ]
                } else {
                    Seq::empty()
                })
                &&& final(rng).state == if fired {
                    k2
                } else {
                    old(rng).state
                }
            }),
    {
        let ghost s0 = projectiles@;
        if input.start_pressed || input.a_pressed || input.pointer_pressed {
            self.shooting = true;
            if self.shoot_timer == 0 {
                self.shoot_timer = self.shoot_timer + self.stats.rate_of_fire;
                let k1 = rng.next_draw();
                let p0 = Projectile::new(
                    self.hitbox.x,
                    add_coord(self.hitbox.y, -8 * SCALE),
                    5000,
                    -90,
                    self.projectile_type,
                    ProjectileOwner::Player,
                    k1,
                );
                projectiles.push(p0);
                let k2 = rng.next_draw();
                let p1 = Projectile::new(
                    add_coord(self.hitbox.x, 6 * SCALE),
                    add_coord(self.hitbox.y, -8 * SCALE),
                    5000,
                    -90,
                    self.projectile_type,
                    ProjectileOwner::Player,
                    k2,
                );
                projectiles.push(p1);
                proof {
                    assert(projectiles@ =~= s0 + seq![p0, p1]);
                }
            }
        } else {
            self.shooting = false;
        }
        proof {
            if !(input.fire_held() && old(self).shoot_timer == 0) {
                assert(projectiles@ =~= s0 + Seq::<Projectile>::empty());
            }
        }
        self.shoot_timer = self.shoot_timer.saturating_sub(1);
    }

    /// Consume every powerup the hitbox overlaps, in order, applying
    /// each effect and queueing its note; the others stay.
    fn resolve_pickups(&mut self, powerups: &mut Vec<Powerup>)
        requires
            old(self).hitbox.wf(),
            stats_wf(old(self).stats),
            forall|k: int|
                0 <= k < old(powerups)@.len() ==> (#[trigger] old(powerups)@[k]).wf(),
        ensures
            forall|k: int|
                0 <= k < final(powerups)@.len() ==> (#[trigger] final(powerups)@[k]).wf(),
            ({
                let pp = pickup_pass(
                    old(self).stats,
                    old(self).hp,
                    old(self).hitbox,
                    old(powerups)@,
                );
                &&& final(self).stats == pp.0
                &&& final(self).hp == pp.1
                &&& final(self).notifications@ == old(self).notifications@ + pp.2
                &&& final(powerups)@ == pp.3
                &&& *final(self) == (Player {
                    stats: final(self).stats,
                    hp: final(self).hp,
                    notifications: final(self).notifications,
                    ..*old(self)
                })
                &&& stats_wf(final(self).stats)
            }),
    {
        let ghost s0 = powerups@;
        let ghost hb = self.hitbox;
        let ghost n0 = self.notifications@;
        let ghost full = pickup_pass(self.stats, self.hp, hb, s0);
        let mut kept: Vec<Powerup> = Vec::new();
        let ghost mut added = Seq::<Notification>::empty();
        proof {
            assert(s0.subrange(0, s0.len() as int) =~= s0);
            assert(n0 + added =~= n0);
            assert(added + full.2 =~= full.2);
            assert(kept@ + full.3 =~= full.3);
        }
        let mut i: usize = 0;
        while i < powerups.len()
            invariant
                i <= s0.len(),
                powerups@ == s0,
                self.hitbox == hb,
                hb.wf(),
                forall|k: int| 0 <= k < s0.len() ==> (#[trigger] s0[k]).wf(),
                forall|k: int| 0 <= k < kept@.len() ==> (#[trigger] kept@[k]).wf(),
                stats_wf(self.stats),
                self.notifications@ == n0 + added,
                ({
                    let rest = pickup_pass(
                        self.stats,
                        self.hp,
                        hb,
                        s0.subrange(i as int, s0.len() as int),
                    );
                    full == (rest.0, rest.1, added + rest.2, kept@ + rest.3)
                }),
                *self == (Player {
                    stats: self.stats,
                    hp: self.hp,
                    notifications: self.notifications,
                    ..*old(self)
                }),
            decreases s0.len() - i,
    {
            let ghost suffix = s0.subrange(i as int, s0.len() as int);
            let ghost rest_next = s0.subrange(i as int + 1, s0.len() as int);
            proof {
                assert(suffix.subrange(1, suffix.len() as int) =~= rest_next);
                assert(suffix[0] == s0[i as int]);
            }
            let pu = powerups[i];
            if check_collision(&self.hitbox, &pu.hitbox) {
                proof {
                    lemma_effects_preserve_stat_caps(self.stats, pu.effect);
                }
                let ghost added_old = added;
                self.collect_powerup(&pu);
                proof {
                    added = added + seq![effect_note_spec(pu.effect)];
                    assert(self.notifications@ =~= n0 + added);
                    let rest = pickup_pass(self.stats, self.hp, hb, rest_next);
                    assert(added_old + (seq![effect_note_spec(pu.effect)] + rest.2) =~= added
                        + rest.2);
                }
            } else {
                kept.push(pu);
                proof {
                    let rest = pickup_pass(self.stats, self.hp, hb, rest_next);
                    assert(kept@.drop_last() + (seq![pu] + rest.3) =~= kept@ + rest.3);
                }
            }
            i = i + 1;
        }
        *powerups = kept;
        proof {
            assert(s0.subrange(s0.len() as int, s0.len() as int) =~= Seq::<Powerup>::empty());
            assert(full.2 =~= added);
            assert(full.3 =~= kept@);
            assert(old(self).notifications@ + full.2 =~= self.notifications@);
        }
    }

    /// Resolve contact with every live overlapping enemy: each contact
    /// costs one hit point and reduces the enemy to zero, destroyed,
    /// its points credited.
    fn resolve_contacts(&mut self, enemies: &mut Vec<Enemy>)
        requires
            old(self).hitbox.wf(),
            forall|k: int|
                0 <= k < old(enemies)@.len() ==> (#[trigger] old(enemies)@[k]).wf(),
        ensures
            forall|k: int|
                0 <= k < final(enemies)@.len() ==> (#[trigger] final(enemies)@[k]).wf(),
            ({
                let cp = contact_pass(old(self).hp, old(self).score, old(self).hitbox, old(enemies)@);
                &&& final(self).hp == cp.0
                &&& final(self).score == cp.1
                &&& final(self).hit_timer == if cp.2 > 0 {
                    HIT_WINDOW
                } else {
                    old(self).hit_timer
                }
                &&& final(enemies)@ == cp.3
                &&& *final(self) == (Player {
                    hp: final(self).hp,
                    score: final(self).score,
                    hit_timer: final(self).hit_timer,
                    ..*old(self)
                })
            }),
    {
        let ghost s0 = enemies@;
        let ghost hb = self.hitbox;
        let ghost t0 = self.hit_timer;
        let ghost full = contact_pass(self.hp, self.score, hb, s0);
        let ghost mut procd = Seq::<Enemy>::empty();
        let ghost mut ncon: int = 0;
        proof {
            assert(s0.subrange(0, s0.len() as int) =~= s0);
            assert(procd + s0 =~= s0);
            assert(procd + full.3 =~= full.3);
        }
        let mut i: usize = 0;
        while i < enemies.len()
            invariant
                i <= s0.len(),
                enemies@.len() == s0.len(),
                i as int == procd.len(),
                enemies@ =~= procd + s0.subrange(i as int, s0.len() as int),
                self.hitbox == hb,
                hb.wf(),
                forall|k: int| 0 <= k < s0.len() ==> (#[trigger] s0[k]).wf(),
                forall|k: int|
                    0 <= k < enemies@.len() ==> (#[trigger] enemies@[k]).wf(),
                self.hit_timer == if ncon > 0 {
                    HIT_WINDOW
                } else {
                    t0
                },
                ncon >= 0,
                ({
                    let rest = contact_pass(
                        self.hp,
                        self.score,
                        hb,
                        s0.subrange(i as int, s0.len() as int),
                    );
                    full == (rest.0, rest.1, ncon + rest.2, procd + rest.3)
                }),
                *self == (Player {
                    hp: self.hp,
                    score: self.score,
                    hit_timer: self.hit_timer,
                    ..*old(self)
                }),
            decreases s0.len() - i,
        {
            let ghost suffix = s0.subrange(i as int, s0.len() as int);
            let ghost rest_next = s0.subrange(i as int + 1, s0.len() as int);
            proof {
                assert(suffix.subrange(1, suffix.len() as int) =~= rest_next);
                assert(suffix[0] == s0[i as int]);
                assert(enemies@[i as int] == s0[i as int]);
            }
            let e = enemies[i];
            if e.hp > 0 && check_collision(&self.hitbox, &e.hitbox) {
                self.take_damage(1);
                let mut hit = enemies.remove(i);
                let hp_i = hit.hp;
                hit.take_damage(self, hp_i);
                enemies.insert(i, hit);
                proof {
                    let rest = contact_pass(self.hp, self.score, hb, rest_next);
                    procd = procd.push(damaged_enemy_spec(s0[i as int], s0[i as int].hp));
                    ncon = ncon + 1;
                    assert(enemies@ =~= procd + rest_next);
                    assert(procd.drop_last() + (seq![damaged_enemy_spec(
                        s0[i as int],
                        s0[i as int].hp,
                    )] + rest.3) =~= procd + rest.3);
                }
            } else {
                proof {
                    let rest = contact_pass(self.hp, self.score, hb, rest_next);
                    procd = procd.push(s0[i as int]);
                    assert(enemies@ =~= procd + rest_next);
                    assert(procd.drop_last() + (seq![s0[i as int]] + rest.3) =~= procd + rest.3);
                }
            }
            i = i + 1;
        }
        proof {
            assert(s0.subrange(s0.len() as int, s0.len() as int) =~= Seq::<Enemy>::empty());
            assert(full.3 =~= procd);
            assert(enemies@ =~= procd);
        }
    }

    /// One frame: if alive, recompute intent and move, fire on a held
    /// trigger with the cooldown at zero, then resolve powerup pickups
    /// and enemy contact damage.  Death halts all of that; only the hit
    /// window still runs down one step.
    pub fn update(
        &mut self,
        projectiles: &mut Vec<Projectile>,
        powerups: &mut Vec<Powerup>,
        enemies: &mut Vec<Enemy>,
        input: &InputState,
        screen_w: u32,
        screen_h: u32,
        rng: &mut Rng,
    )
        requires
            old(self).wf(),
            16 <= screen_w <= MAX_DIM,
            16 <= screen_h <= MAX_DIM,
            forall|k: int|
                0 <= k < old(powerups)@.len() ==> (#[trigger] old(powerups)@[k]).wf(),
            forall|k: int|
                0 <= k < old(enemies)@.len() ==> (#[trigger] old(enemies)@[k]).wf(),
            forall|k: int|
                0 <= k < old(projectiles)@.len() ==> (#[trigger] old(projectiles)@[k]).wf(),
        ensures
            forall|k: int|
                0 <= k < final(powerups)@.len() ==> (#[trigger] final(powerups)@[k]).wf(),
            forall|k: int|
                0 <= k < final(enemies)@.len() ==> (#[trigger] final(enemies)@[k]).wf(),
            forall|k: int|
                0 <= k < final(projectiles)@.len() ==> (#[trigger] final(projectiles)@[k]).wf(),
            ({
                let p0 = *old(self);
                let alive = p0.hp != 0;
                let mx = if alive {
                    moved_x_spec(p0, *input, screen_w)
                } else {
                    p0.hitbox.x
                };
                let my = if alive {
                    moved_y_spec(p0, *input, screen_h)
                } else {
                    p0.hitbox.y
                };
                let hb = Hitbox { x: mx, y: my, ..p0.hitbox };
                let fired = frame_fired(p0, *input);
                let pp = pickup_pass(p0.stats, p0.hp, hb, old(powerups)@);
                let cp = contact_pass(pp.1, p0.score, hb, old(enemies)@);
                &&& final(self).hitbox == hb
                &&& final(self).dx == if alive {
                    intent_dx_spec(p0, *input)
                } else {
                    p0.dx
                }
                &&& final(self).dy == if alive {
                    intent_dy_spec(p0, *input)
                } else {
                    p0.dy
                }
                &&& final(self).stats == if alive {
                    pp.0
                } else {
                    p0.stats
                }
                &&& final(self).hp == if alive {
                    cp.0
                } else {
                    p0.hp
                }
                &&& final(self).score == if alive {
                    cp.1
                } else {
                    p0.score
                }
                &&& final(self).hit_timer == sat_sub_u32(
                    if alive && cp.2 > 0 {
                        HIT_WINDOW
                    } else {
                        p0.hit_timer
                    },
                    1,
                )
                &&& final(self).shoot_timer == if alive {
                    sat_sub_u32(
                        if fired {
                            p0.stats.rate_of_fire
                        } else {
                            p0.shoot_timer
                        },
                        1,
                    )
                } else {
                    p0.shoot_timer
                }
                &&& final(self).shooting == if alive {
                    input.fire_held()
                } else {
                    p0.shooting
                }
                &&& final(self).projectile_type == p0.projectile_type
                &&& final(self).notifications@ == if alive {
                    p0.notifications@ + pp.2
                } else {
                    p0.notifications@
                }
                &&& final(powerups)@ == if alive {
                    pp.3
                } else {
                    old(powerups)@
                }
                &&& final(enemies)@ == if alive {
                    cp.3
                } else {
                    old(enemies)@
                }
                &&& final(projectiles)@ == old(projectiles)@ + frame_shots(
                    p0,
                    *input,
                    screen_w,
                    screen_h,
                    old(rng).state,
                )
                &&& final(rng).state == if fired {
                    lcg(lcg(old(rng).state))
                } else {
                    old(rng).state
                }
            }),
            final(self).wf(),
    {
        if self.hp != 0 {
            self.apply_movement(input, screen_w, screen_h);
            self.handle_fire(projectiles, input, rng);
            self.resolve_pickups(powerups);
            self.resolve_contacts(enemies);
        } else {
            proof {
                assert(old(projectiles)@ + Seq::<Projectile>::empty()
                    =~= old(projectiles)@);
            }
        }
        self.hit_timer = self.hit_timer.saturating_sub(1);
    }
}

} // verus!
