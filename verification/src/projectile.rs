//! Projectiles: ballistic motion, owner-dependent collision resolution,
//! and the post-collision decay phase gated on the host's hit animation.

use vstd::prelude::*;

use crate::enemy::Enemy;
use crate::enemy::damaged_enemy_spec;
use crate::enemy::score_after_damage;
use crate::player::HIT_WINDOW;
use crate::player::Player;
use crate::trig::cos_mil;
use crate::trig::cos_mil_spec;
use crate::trig::floor_sqrt;
use crate::trig::is_floor_sqrt;
use crate::trig::isqrt;
use crate::trig::scaled_ratio;
use crate::trig::scaled_ratio_spec;
use crate::trig::sin_mil;
use crate::trig::sin_mil_spec;
use crate::utils::COORD_LIMIT;
use crate::utils::Hitbox;
use crate::utils::SCALE;
use crate::utils::add_coord;
use crate::utils::check_collision;
use crate::utils::clamp_coord_spec;
use crate::utils::overlaps;
use crate::utils::sat_sub_u32;

verus! {

/// Cosmetic projectile kind; behavior is currently uniform.
#[derive(Clone, Copy, PartialEq, Eq, Structural, Debug)]
pub enum ProjectileType {
    Basic,
    Splatter,
    Fragment,
    Laser,
    Bomb,
}

/// Which faction fired the projectile; it never damages its own.
#[derive(Clone, Copy, PartialEq, Eq, Structural, Debug)]
pub enum ProjectileOwner {
    Enemy,
    Player,
}

#[derive(Clone, Copy, PartialEq, Eq, Structural, Debug)]
pub struct Projectile {
    pub hitbox: Hitbox,
    /// Key under which the host registers this projectile's animation.
    pub anim_key: u32,
    pub collided: bool,
    pub destroyed: bool,
    /// Speed magnitude in milli-pixels per frame.
    pub velocity: u32,
    /// Per-frame velocity components in milli-pixels.
    pub vx: i64,
    pub vy: i64,
    pub damage: u32,
    pub projectile_owner: ProjectileOwner,
    pub projectile_type: ProjectileType,
}

/// The projectile built from a speed magnitude and a travel angle in
/// whole degrees (measured clockwise from the positive x axis, so 90
/// points down the screen).
#[verifier::opaque]
pub open spec fn projectile_spec(
    x: int,
    y: int,
    velocity: u32,
    angle: int,
    projectile_type: ProjectileType,
    projectile_owner: ProjectileOwner,
    anim_key: u32,
) -> Projectile {
    Projectile {
        hitbox: Hitbox { x: x as i64, y: y as i64, w: 6, h: 6 },
        anim_key,
        collided: false,
        destroyed: false,
        velocity,
        vx: scaled_ratio_spec(velocity as int, cos_mil_spec(angle), 1000) as i64,
        vy: scaled_ratio_spec(velocity as int, sin_mil_spec(angle), 1000) as i64,
        damage: 1,
        projectile_owner,
        projectile_type,
    }
}

/// The projectile aimed along the direction `(dir_x, dir_y)`, its
/// velocity components scaled so their magnitude is `velocity`.  A zero
/// direction degenerates to travel along the positive x axis.
#[verifier::opaque]
pub open spec fn aimed_projectile_spec(
    x: int,
    y: int,
    velocity: u32,
    dir_x: int,
    dir_y: int,
    projectile_type: ProjectileType,
    projectile_owner: ProjectileOwner,
    anim_key: u32,
) -> Projectile {
    let len = floor_sqrt(dir_x * dir_x + dir_y * dir_y);
    Projectile {
        hitbox: Hitbox { x: x as i64, y: y as i64, w: 6, h: 6 },
        anim_key,
        collided: false,
        destroyed: false,
        velocity,
        vx: if len == 0 {
            velocity as i64
        } else {
            scaled_ratio_spec(velocity as int, dir_x, len) as i64
        },
        vy: if len == 0 {
            0
        } else {
            scaled_ratio_spec(velocity as int, dir_y, len) as i64
        },
        damage: 1,
        projectile_owner,
        projectile_type,
    }
}

/// A projectile after one frame of ballistic motion.
pub open spec fn moved_projectile(p: Projectile) -> Projectile {
    Projectile {
        hitbox: Hitbox {
            x: clamp_coord_spec(p.hitbox.x + p.vx) as i64,
            y: clamp_coord_spec(p.hitbox.y + p.vy) as i64,
            ..p.hitbox
        },
        ..p
    }
}

/// The off-screen despawn test: the hitbox must lie beyond all four
/// viewport edges at once.  No rectangle satisfies this (see
/// `lemma_offscreen_all_never_holds`), so in-flight projectiles are
/// only ever removed through collision; the conjunction is kept as the
/// behavior of record.
pub open spec fn offscreen_all(h: Hitbox, screen_w: u32, screen_h: u32) -> bool {
    &&& h.y < -(h.h * SCALE)
    &&& h.x < -(h.w * SCALE)
    &&& h.x > screen_w * SCALE
    &&& h.y > screen_h * SCALE
}

/// Lying beyond the left and the right edge at once is unsatisfiable,
/// so the despawn test never fires.
pub proof fn lemma_offscreen_all_never_holds(h: Hitbox, screen_w: u32, screen_h: u32)
    ensures
        !offscreen_all(h, screen_w, screen_h),
{
}

/// An enemy projectile connects only with a live player outside the
/// invincibility window.
pub open spec fn enemy_shot_connects(pb: Hitbox, player: Player) -> bool {
    overlaps(pb, player.hitbox) && player.hp > 0 && player.hit_timer == 0
}

/// A player projectile connects with a live (not yet destroyed) enemy
/// it overlaps.
pub open spec fn hits_enemy(pb: Hitbox, e: Enemy) -> bool {
    !e.destroyed && overlaps(pb, e.hitbox)
}

/// The first index at or after `i` whose enemy the projectile hitbox
/// connects with, or the length if there is none.
pub open spec fn first_hit_from(pb: Hitbox, s: Seq<Enemy>, i: int) -> int
    decreases s.len() - i,
{
    if i < 0 {
        0
    } else if i >= s.len() {
        s.len() as int
    } else if hits_enemy(pb, s[i]) {
        i
    } else {
        first_hit_from(pb, s, i + 1)
    }
}

/// The first enemy in iteration order the projectile hitbox connects
/// with, or the length of the collection if there is none.
pub open spec fn first_hit(pb: Hitbox, s: Seq<Enemy>) -> int {
    first_hit_from(pb, s, 0)
}

/// No enemy before the first hit is a live overlapped one.
pub proof fn lemma_first_hit_none_before(pb: Hitbox, s: Seq<Enemy>, i: int, k: int)
    requires
        0 <= i <= k,
        k < first_hit_from(pb, s, i),
        k < s.len(),
    ensures
        !hits_enemy(pb, s[k]),
    decreases k - i,
{
    if i < k {
        lemma_first_hit_none_before(pb, s, i + 1, k);
    }
}

/// A player-owned projectile damages at most one enemy per frame, and
/// that one is the first live enemy in iteration order that its moved
/// hitbox overlaps: every enemy before it is missed or already
/// destroyed, every enemy other than it is untouched, and the hit one
/// takes exactly the projectile's damage.
pub proof fn lemma_player_shot_damages_at_most_one(
    p: Projectile,
    hp: u32,
    hit_timer: u32,
    score: u32,
    phb: Hitbox,
    s: Seq<Enemy>,
    screen_w: u32,
    screen_h: u32,
    anim: bool,
)
    requires
        p.projectile_owner is Player,
        !p.collided,
    ensures
        ({
            let st = crate::game::projectile_step_spec(
                p,
                hp,
                hit_timer,
                score,
                phb,
                s,
                screen_w,
                screen_h,
                anim,
            );
            let m = moved_projectile(p);
            let j = first_hit(m.hitbox, s);
            &&& st.4.len() == s.len()
            &&& forall|k: int| 0 <= k < s.len() && k != j ==> st.4[k] == s[k]
            &&& j < s.len() ==> st.4[j] == crate::enemy::damaged_enemy_spec(s[j], p.damage)
                && hits_enemy(m.hitbox, s[j])
            &&& forall|k: int| 0 <= k < j ==> !hits_enemy(m.hitbox, #[trigger] s[k])
            &&& st.1 == hp
        }),
{
    let m = moved_projectile(p);
    lemma_first_hit_bounds(m.hitbox, s, 0);
    assert forall|k: int| 0 <= k < first_hit(m.hitbox, s) implies !hits_enemy(
        m.hitbox,
        #[trigger] s[k],
    ) by {
        lemma_first_hit_none_before(m.hitbox, s, 0, k);
    }
}

/// While the player's invincibility window runs, an enemy-owned
/// projectile leaves the player's hit points untouched.
pub proof fn lemma_invincibility_blocks_enemy_shot(
    p: Projectile,
    hp: u32,
    hit_timer: u32,
    score: u32,
    phb: Hitbox,
    s: Seq<Enemy>,
    screen_w: u32,
    screen_h: u32,
    anim: bool,
)
    requires
        p.projectile_owner is Enemy,
        hit_timer > 0,
    ensures
        crate::game::projectile_step_spec(
            p,
            hp,
            hit_timer,
            score,
            phb,
            s,
            screen_w,
            screen_h,
            anim,
        ).1 == hp,
        crate::game::projectile_step_spec(
            p,
            hp,
            hit_timer,
            score,
            phb,
            s,
            screen_w,
            screen_h,
            anim,
        ).2 == hit_timer,
{
}

/// The first-hit scan stays within bounds, and where it lands short of
/// the length it names a live overlapped enemy.
pub proof fn lemma_first_hit_bounds(pb: Hitbox, s: Seq<Enemy>, i: int)
    requires
        0 <= i <= s.len(),
    ensures
        i <= first_hit_from(pb, s, i) <= s.len(),
        first_hit_from(pb, s, i) < s.len() ==> hits_enemy(pb, s[first_hit_from(pb, s, i)]),
    decreases s.len() - i,
{
    if i < s.len() && !hits_enemy(pb, s[i]) {
        lemma_first_hit_bounds(pb, s, i + 1);
    }
}

impl Projectile {
    /// Geometry in range and velocity components within the magnitude.
    pub open spec fn wf(self) -> bool {
        &&& self.hitbox.wf()
        &&& -(self.velocity as i64) <= self.vx <= self.velocity as i64
        &&& -(self.velocity as i64) <= self.vy <= self.velocity as i64
    }

    /// A projectile travelling at `velocity` milli-pixels per frame
    /// along `angle` (whole degrees; 90 is straight down, -90 straight
    /// up).
    pub fn new(
        x: i64,
        y: i64,
        velocity: u32,
        angle: i32,
        projectile_type: ProjectileType,
        projectile_owner: ProjectileOwner,
        anim_key: u32,
    ) -> (r: Projectile)
        requires
            -COORD_LIMIT <= x <= COORD_LIMIT,
            -COORD_LIMIT <= y <= COORD_LIMIT,
        ensures
            r == projectile_spec(x as int, y as int, velocity, angle as int, projectile_type, projectile_owner, anim_key),
            r.wf(),
    {
        proof {
            reveal(projectile_spec);
        }
        let c = cos_mil(angle);
        let s = sin_mil(angle);
        let vx = scaled_ratio(velocity, c as i64, 1000);
        let vy = scaled_ratio(velocity, s as i64, 1000);
        Projectile {
            hitbox: Hitbox { x, y, w: 6, h: 6 },
            anim_key,
            collided: false,
            destroyed: false,
            velocity,
            vx,
            vy,
            damage: 1,
            projectile_owner,
            projectile_type,
        }
    }

    /// A projectile aimed along `(dir_x, dir_y)` (an offset in
    /// milli-pixels, such as the player's position less the shooter's).
    pub fn new_aimed(
        x: i64,
        y: i64,
        velocity: u32,
        dir_x: i64,
        dir_y: i64,
        projectile_type: ProjectileType,
        projectile_owner: ProjectileOwner,
        anim_key: u32,
    ) -> (r: Projectile)
        requires
            -COORD_LIMIT <= x <= COORD_LIMIT,
            -COORD_LIMIT <= y <= COORD_LIMIT,
            -3 * COORD_LIMIT <= dir_x <= 3 * COORD_LIMIT,
            -3 * COORD_LIMIT <= dir_y <= 3 * COORD_LIMIT,
        ensures
            r == aimed_projectile_spec(
                x as int,
                y as int,
                velocity,
                dir_x as int,
                dir_y as int,
                projectile_type,
                projectile_owner,
                anim_key,
            ),
            r.wf(),
    {
        proof {
            reveal(aimed_projectile_spec);
        }
        let ax: u64 = if dir_x < 0 {
            (-dir_x) as u64
        } else {
            dir_x as u64
        };
        let ay: u64 = if dir_y < 0 {
            (-dir_y) as u64
        } else {
            dir_y as u64
        };
        proof {
            assert((ax as int) * (ax as int) == dir_x * dir_x) by (nonlinear_arith)
                requires
                    ax == (if dir_x < 0 { -dir_x } else { dir_x as int }),
            ;
            assert((ay as int) * (ay as int) == dir_y * dir_y) by (nonlinear_arith)
                requires
                    ay == (if dir_y < 0 { -dir_y } else { dir_y as int }),
            ;
            assert((ax as int) * (ax as int) <= 9_000_000_000_000_000_000_000_000 && (ay
                as int) * (ay as int) <= 9_000_000_000_000_000_000_000_000) by (nonlinear_arith)
                requires
                    0 <= ax <= 3_000_000_000_000,
                    0 <= ay <= 3_000_000_000_000,
            ;
        }
        let d2: u128 = (ax as u128) * (ax as u128) + (ay as u128) * (ay as u128);
        let (vx, vy) = if d2 == 0 {
            (velocity as i64, 0i64)
        } else {
            let len = isqrt(d2);
            proof {
                let l = len as int;
                assert(l * l <= d2 as int);
                assert(l <= 6_000_000_000_000) by (nonlinear_arith)
                    requires
                        l * l <= d2 as int,
                        (d2 as int) <= 18_000_000_000_000_000_000_000_000,
                        l >= 0,
                ;
                assert(ax as int <= l) by (nonlinear_arith)
                    requires
                        (ax as int) * (ax as int) <= d2 as int,
                        (d2 as int) < (l + 1) * (l + 1),
                        l >= 0,
                ;
                assert(ay as int <= l) by (nonlinear_arith)
                    requires
                        (ay as int) * (ay as int) <= d2 as int,
                        (d2 as int) < (l + 1) * (l + 1),
                        l >= 0,
                ;
            }
            let vx = scaled_ratio(velocity, dir_x, len);
            let vy = scaled_ratio(velocity, dir_y, len);
            (vx, vy)
        };
        proof {
            if d2 != 0 {
            } else {
                assert(dir_x * dir_x + dir_y * dir_y == 0);
                assert(is_floor_sqrt(0, 0));
                crate::trig::lemma_floor_sqrt_is(0, 0);
            }
        }
        Projectile {
            hitbox: Hitbox { x, y, w: 6, h: 6 },
            anim_key,
            collided: false,
            destroyed: false,
            velocity,
            vx,
            vy,
            damage: 1,
            projectile_owner,
            projectile_type,
        }
    }

    /// One frame: while not collided, move ballistically, apply the
    /// (never-satisfied) off-screen despawn test, and resolve collision
    /// against the opposing faction — an enemy shot connects only with
    /// a live, non-invincible player; a player shot connects with the
    /// first live enemy in iteration order and with no other.  Once
    /// collided, the projectile freezes and is destroyed when the host
    /// reports its hit animation finished (`anim_done`).
    pub fn update(
        &mut self,
        player: &mut Player,
        enemies: &mut Vec<Enemy>,
        screen_w: u32,
        screen_h: u32,
        anim_done: bool,
    )
        requires
            old(self).wf(),
            old(player).hitbox.wf(),
            forall|i: int|
                0 <= i < old(enemies)@.len() ==> (#[trigger] old(enemies)@[i]).hitbox.wf(),
        ensures
            old(self).collided ==> {
                &&& *final(self) == (Projectile {
                    destroyed: old(self).destroyed || anim_done,
                    ..*old(self)
                })
                &&& *final(player) == *old(player)
                &&& final(enemies)@ == old(enemies)@
            },
            !old(self).collided ==> ({
                let m = moved_projectile(*old(self));
                let gone = m.destroyed || offscreen_all(m.hitbox, screen_w, screen_h);
                match old(self).projectile_owner {
                    ProjectileOwner::Enemy => {
                        &&& final(enemies)@ == old(enemies)@
                        &&& if enemy_shot_connects(m.hitbox, *old(player)) {
                            &&& *final(self) == (Projectile { collided: true, destroyed: gone, ..m })
                            &&& *final(player) == (Player {
                                hp: sat_sub_u32(old(player).hp, old(self).damage),
                                hit_timer: HIT_WINDOW,
                                ..*old(player)
                            })
                        } else {
                            &&& *final(self) == (Projectile { destroyed: gone, ..m })
                            &&& *final(player) == *old(player)
                        }
                    },
                    ProjectileOwner::Player => {
                        let j = first_hit(m.hitbox, old(enemies)@);
                        if j < old(enemies)@.len() {
                            &&& final(enemies)@ == old(enemies)@.update(
                                j,
                                damaged_enemy_spec(old(enemies)@[j], old(self).damage),
                            )
                            &&& *final(self) == (Projectile { collided: true, destroyed: gone, ..m })
                            &&& final(player).score == score_after_damage(
                                old(player).score,
                                old(enemies)@[j],
                                old(self).damage,
                            )
                            &&& *final(player) == (Player {
                                score: final(player).score,
                                ..*old(player)
                            })
                        } else {
                            &&& final(enemies)@ == old(enemies)@
                            &&& *final(self) == (Projectile { destroyed: gone, ..m })
                            &&& *final(player) == *old(player)
                        }
                    },
                }
            }),
            final(self).wf(),
    {
        if !self.collided {
            self.hitbox.x = add_coord(self.hitbox.x, self.vx);
            self.hitbox.y = add_coord(self.hitbox.y, self.vy);

            if self.hitbox.y < -(self.hitbox.h as i64 * SCALE) && self.hitbox.x < -(self.hitbox.w
                as i64 * SCALE) && self.hitbox.x > screen_w as i64 * SCALE && self.hitbox.y
                > screen_h as i64 * SCALE {
                self.destroyed = true;
            }

            match self.projectile_owner {
                ProjectileOwner::Enemy => {
                    if check_collision(&self.hitbox, &player.hitbox) && player.hp > 0
                        && player.hit_timer == 0 {
                        player.take_damage(self.damage);
                        self.collided = true;
                    }
                },
                ProjectileOwner::Player => {
                    let ghost pb = self.hitbox;
                    let ghost s0 = enemies@;
                    let mut i: usize = 0;
                    let mut done = false;
                    while i < enemies.len() && !done
                        invariant
                            0 <= i <= s0.len(),
                            old(self).wf(),
                            self.hitbox == pb,
                            pb.wf(),
                            forall|k: int| 0 <= k < s0.len() ==> (#[trigger] s0[k]).hitbox.wf(),
                            !done ==> enemies@ == s0,
                            !done ==> *player == *old(player),
                            !done ==> first_hit_from(pb, s0, 0) == first_hit_from(pb, s0, i as int),
                            !done ==> self.collided == old(self).collided,
                            done ==> ({
                                let j = first_hit(pb, s0);
                                &&& 0 <= j < s0.len()
                                &&& j < i
                                &&& enemies@ == s0.update(
                                    j,
                                    damaged_enemy_spec(s0[j], old(self).damage),
                                )
                                &&& player.score == score_after_damage(
                                    old(player).score,
                                    s0[j],
                                    old(self).damage,
                                )
                                &&& *player == (Player { score: player.score, ..*old(player) })
                                &&& self.collided
                                &&& self.hitbox == pb
                            }),
                            self.destroyed == old(self).destroyed
                                || offscreen_all(pb, screen_w, screen_h),
                            self.vx == old(self).vx && self.vy == old(self).vy,
                            self.velocity == old(self).velocity,
                            self.damage == old(self).damage,
                            self.anim_key == old(self).anim_key,
                            self.projectile_owner == old(self).projectile_owner,
                            self.projectile_type == old(self).projectile_type,
                        decreases s0.len() - i,
                    {
                        let e = enemies[i];
                        if !e.destroyed && check_collision(&self.hitbox, &e.hitbox) {
                            let mut hit = enemies.remove(i);
                            hit.take_damage(player, self.damage);
                            enemies.insert(i, hit);
                            proof {
                                assert(enemies@ =~= s0.update(
                                    i as int,
                                    damaged_enemy_spec(s0[i as int], old(self).damage),
                                ));
                                assert(first_hit_from(pb, s0, i as int) == i as int);
                            }
                            self.collided = true;
                            done = true;
                        }
                        i = i + 1;
                    }
                    proof {
                        if !done {
                            assert(first_hit_from(pb, s0, i as int) == s0.len());
                        }
                    }
                },
            }
        } else {
            if anim_done {
                self.destroyed = true;
            }
        }
    }
}

} // verus!
