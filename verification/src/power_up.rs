//! Powerups: passive pickups that drift across the screen and mutate the
//! player's stat bundle when collected.

use vstd::prelude::*;

use crate::player::Player;
use crate::utils::COORD_LIMIT;
use crate::utils::Hitbox;
use crate::utils::Rng;
use crate::utils::SCALE;
use crate::utils::add_coord;
use crate::utils::clamp_coord_spec;
use crate::utils::lcg;

verus! {

/// What collecting the powerup does to the player.
#[derive(Clone, Copy, PartialEq, Eq, Structural, Debug)]
pub enum PowerupEffect {
    Heal,
    MaxHealthUp,
    SpeedBoost,
    DamageBoost,
    RateOfFireBoost,
    ProjectileSpeedBoost,
}

/// How the powerup drifts while waiting to be picked up.  Speeds are in
/// milli-pixels per frame and flip sign on screen-bounds contact.
#[derive(Clone, Copy, PartialEq, Eq, Structural, Debug)]
pub enum PowerupMovement {
    Static,
    FloatVertical(i32),
    FloatHorizontal(i32),
}

/// Largest drift speed magnitude a well-formed powerup may carry.
pub const MAX_FLOAT_SPEED: i32 = 1_000_000;

#[derive(Clone, Copy, PartialEq, Eq, Structural, Debug)]
pub struct Powerup {
    pub hitbox: Hitbox,
    pub effect: PowerupEffect,
    pub movement: PowerupMovement,
}

/// The pool of effects a death-drop may roll, gated by the player's
/// progression: speed is always eligible; extra max health only below 5
/// max hp; fire rate above 400 points; projectile speed above 800
/// points; damage above 1500 points while the damage stat is below 3.
pub open spec fn eligible_effects(max_hp: u32, score: u32, damage: u32) -> Seq<PowerupEffect> {
    let pool = seq![PowerupEffect::SpeedBoost];
    let pool = if max_hp < 5 {
        pool.push(PowerupEffect::MaxHealthUp)
    } else {
        pool
    };
    let pool = if score > 400 {
        pool.push(PowerupEffect::RateOfFireBoost)
    } else {
        pool
    };
    let pool = if score > 800 {
        pool.push(PowerupEffect::ProjectileSpeedBoost)
    } else {
        pool
    };
    if score > 1500 && damage < 3 {
        pool.push(PowerupEffect::DamageBoost)
    } else {
        pool
    }
}

/// The randomized powerup built from three draws chained off `seed`:
/// one for the effect, one for the movement variant, and (for the two
/// floating variants) one for the drift speed in `[500, 1500)`.
pub open spec fn random_powerup_spec(
    x: i64,
    y: i64,
    max_hp: u32,
    score: u32,
    damage: u32,
    seed: u32,
) -> Powerup {
    let pool = eligible_effects(max_hp, score, damage);
    let s1 = lcg(seed);
    let s2 = lcg(s1);
    let s3 = lcg(s2);
    let effect = pool[s1 as int % pool.len() as int];
    let movement = if s2 % 3 == 0 {
        PowerupMovement::Static
    } else if s2 % 3 == 1 {
        PowerupMovement::FloatVertical((500 + (s3 % 100) * 10) as i32)
    } else {
        PowerupMovement::FloatHorizontal((500 + (s3 % 100) * 10) as i32)
    };
    Powerup { hitbox: Hitbox { x, y, w: 8, h: 8 }, effect, movement }
}

/// The generator state left behind by `new_random`: two draws always,
/// a third one only for the floating movement variants.
pub open spec fn random_powerup_rng_end(seed: u32) -> u32 {
    let s1 = lcg(seed);
    let s2 = lcg(s1);
    if s2 % 3 == 0 {
        s2
    } else {
        lcg(s2)
    }
}

/// What one frame of drift does to a powerup.
pub open spec fn powerup_step_spec(p: Powerup, screen_w: u32, screen_h: u32) -> Powerup {
    match p.movement {
        PowerupMovement::Static => p,
        PowerupMovement::FloatVertical(sp) => {
            let y = clamp_coord_spec(p.hitbox.y + sp);
            let movement = if y <= 0 || y >= screen_h * SCALE {
                PowerupMovement::FloatVertical((-sp) as i32)
            } else {
                PowerupMovement::FloatVertical(sp)
            };
            Powerup { hitbox: Hitbox { y: y as i64, ..p.hitbox }, movement, ..p }
        },
        PowerupMovement::FloatHorizontal(sp) => {
            let x = clamp_coord_spec(p.hitbox.x + sp);
            let movement = if x <= 0 || x >= screen_w * SCALE {
                PowerupMovement::FloatHorizontal((-sp) as i32)
            } else {
                PowerupMovement::FloatHorizontal(sp)
            };
            Powerup { hitbox: Hitbox { x: x as i64, ..p.hitbox }, movement, ..p }
        },
    }
}

impl Powerup {
    /// Drift speeds stay in range so that position updates stay in range.
    pub open spec fn wf(self) -> bool {
        &&& self.hitbox.wf()
        &&& match self.movement {
            PowerupMovement::Static => true,
            PowerupMovement::FloatVertical(sp) => -MAX_FLOAT_SPEED <= sp <= MAX_FLOAT_SPEED,
            PowerupMovement::FloatHorizontal(sp) => -MAX_FLOAT_SPEED <= sp <= MAX_FLOAT_SPEED,
        }
    }

    pub fn new(x: i64, y: i64, effect: PowerupEffect, movement: PowerupMovement) -> (r: Powerup)
        ensures
            r == (Powerup { hitbox: Hitbox { x, y, w: 8, h: 8 }, effect, movement }),
    {
        Powerup { hitbox: Hitbox { x, y, w: 8, h: 8 }, effect, movement }
    }

    /// A death-drop: the effect is rolled from the progression-gated
    /// pool, the movement from the three drift variants.
    pub fn new_random(x: i64, y: i64, player: &Player, rng: &mut Rng) -> (r: Powerup)
        ensures
            r == random_powerup_spec(
                x,
                y,
                player.stats.max_hp,
                player.score,
                player.stats.damage,
                old(rng).state,
            ),
            final(rng).state == random_powerup_rng_end(old(rng).state),
            -COORD_LIMIT <= x <= COORD_LIMIT && -COORD_LIMIT <= y <= COORD_LIMIT ==> r.wf(),
    {
        let mut effects: Vec<PowerupEffect> = Vec::new();
        effects.push(PowerupEffect::SpeedBoost);
        if player.stats.max_hp < 5 {
            effects.push(PowerupEffect::MaxHealthUp);
        }
        if player.score > 400 {
            effects.push(PowerupEffect::RateOfFireBoost);
        }
        if player.score > 800 {
            effects.push(PowerupEffect::ProjectileSpeedBoost);
        }
        if player.score > 1500 && player.stats.damage < 3 {
            effects.push(PowerupEffect::DamageBoost);
        }
        proof {
            assert(effects@ =~= eligible_effects(
                player.stats.max_hp,
                player.score,
                player.stats.damage,
            ));
        }
        let d1 = rng.next_draw();
        let effect = effects[(d1 as usize) % effects.len()];
        let d2 = rng.next_draw();
        let movement = if d2 % 3 == 0 {
            PowerupMovement::Static
        } else if d2 % 3 == 1 {
            let d3 = rng.next_draw();
            PowerupMovement::FloatVertical((500 + (d3 % 100) * 10) as i32)
        } else {
            let d3 = rng.next_draw();
            PowerupMovement::FloatHorizontal((500 + (d3 % 100) * 10) as i32)
        };
        Powerup { hitbox: Hitbox { x, y, w: 8, h: 8 }, effect, movement }
    }

    /// One frame of drift: floating variants advance by their speed and
    /// reverse it on reaching the relevant screen edge; static powerups
    /// stay put.
    pub fn update(&mut self, screen_w: u32, screen_h: u32)
        requires
            old(self).wf(),
            screen_w <= crate::utils::MAX_DIM,
            screen_h <= crate::utils::MAX_DIM,
        ensures
            *final(self) == powerup_step_spec(*old(self), screen_w, screen_h),
            final(self).wf(),
    {
        match self.movement {
            PowerupMovement::FloatVertical(sp) => {
                self.hitbox.y = add_coord(self.hitbox.y, sp as i64);
                if self.hitbox.y <= 0 || self.hitbox.y >= screen_h as i64 * SCALE {
                    self.movement = PowerupMovement::FloatVertical(-sp);
                }
            },
            PowerupMovement::FloatHorizontal(sp) => {
                self.hitbox.x = add_coord(self.hitbox.x, sp as i64);
                if self.hitbox.x <= 0 || self.hitbox.x >= screen_w as i64 * SCALE {
                    self.movement = PowerupMovement::FloatHorizontal(-sp);
                }
            },
            PowerupMovement::Static => {},
        }
    }
}

} // verus!
