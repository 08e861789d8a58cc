//! The per-tick motion integrator.
//!
//! Direct mode (player, enemies, boss): velocity gains the acceleration,
//! position gains the old velocity.  Shot mode (player and enemy shots):
//! the stored `[angle-fraction, magnitude]` pair is converted to a
//! cartesian step each tick, while the acceleration components are added
//! to the stored polar components directly — deliberately not a vector
//! sum; every bullet pattern is tuned against this asymmetry.
//!
//! Both modes share the soft wall: when a position is beyond the play
//! field (plus the outward margin, for non-player kinds) on an axis and
//! the step on that axis points further out, that step is zeroed for the
//! tick and the actor counts as boundary-exited; exit despawns enemies,
//! the boss and shots, and merely stops the player.
use vstd::prelude::*;

use crate::actor::Actor;
use crate::actor::ActorKind;
use crate::actor::Vec2;
use crate::num::cadd;
use crate::num::clamp_add;
use crate::num::div_trunc;
use crate::num::mul_trig;
use crate::trig::cos_spec;
use crate::trig::sin_spec;
use crate::trig::cos_fixed;
use crate::trig::sin_fixed;
use crate::MARGIN;
use crate::STAGE_DOWN;
use crate::STAGE_LEFT;
use crate::STAGE_RIGHT;
use crate::STAGE_UP;
use crate::TRIG_ONE;

verus! {

/// Whether a step `v` on an axis at position `p` points outward past the
/// soft walls `lo`/`hi`.
pub open spec fn axis_out(p: int, v: int, lo: int, hi: int) -> bool {
    (p < lo && v < 0) || (p > hi && v > 0)
}

/// The direct-mode integration rule on a whole actor record.
pub open spec fn update_point_spec(a: Actor) -> Actor {
    let m: int = if a.kind == ActorKind::Player {
        0
    } else {
        MARGIN as int
    };
    let x_out = axis_out(a.point.x as int, a.velocity.x as int, STAGE_LEFT - m, STAGE_RIGHT + m);
    let y_out = axis_out(a.point.y as int, a.velocity.y as int, STAGE_UP - m, STAGE_DOWN + m);
    let xv: int = if x_out {
        0
    } else {
        a.velocity.x as int
    };
    let yv: int = if y_out {
        0
    } else {
        a.velocity.y as int
    };
    let dead = (x_out || y_out) && (a.kind == ActorKind::Enemy || a.kind == ActorKind::Boss);
    Actor {
        point: Vec2 {
            x: cadd(a.point.x as int, xv) as i64,
            y: cadd(a.point.y as int, yv) as i64,
        },
        velocity: Vec2 {
            x: cadd(a.velocity.x as int, a.accel.x as int) as i64,
            y: cadd(a.velocity.y as int, a.accel.y as int) as i64,
        },
        life: if dead {
            0
        } else {
            a.life
        },
        ..a
    }
}

/// The shot-mode cartesian step on an axis: the magnitude scaled by the
/// sine (x) or cosine (y) of the stored angle-fraction.
pub open spec fn shot_step_x(a: Actor) -> int {
    div_trunc(a.velocity.y as int * sin_spec(a.velocity.x as int), TRIG_ONE as int)
}

pub open spec fn shot_step_y(a: Actor) -> int {
    div_trunc(a.velocity.y as int * cos_spec(a.velocity.x as int), TRIG_ONE as int)
}

/// The shot-mode integration rule on a whole actor record.
pub open spec fn update_point_shot_spec(a: Actor) -> Actor {
    let xv0 = shot_step_x(a);
    let yv0 = shot_step_y(a);
    let x_out = axis_out(
        a.point.x as int,
        xv0,
        STAGE_LEFT - MARGIN as int,
        STAGE_RIGHT + MARGIN as int,
    );
    let y_out = axis_out(
        a.point.y as int,
        yv0,
        STAGE_UP - MARGIN as int,
        STAGE_DOWN + MARGIN as int,
    );
    let xv: int = if x_out {
        0
    } else {
        xv0
    };
    let yv: int = if y_out {
        0
    } else {
        yv0
    };
    Actor {
        point: Vec2 {
            x: cadd(a.point.x as int, xv) as i64,
            y: cadd(a.point.y as int, yv) as i64,
        },
        velocity: Vec2 {
            x: cadd(a.velocity.x as int, a.accel.x as int) as i64,
            y: cadd(a.velocity.y as int, a.accel.y as int) as i64,
        },
        life: if x_out || y_out {
            0
        } else {
            a.life
        },
        ..a
    }
}

impl Actor {
    /// Direct-mode integration: one tick of motion for the player, an
    /// enemy or the boss.
    pub fn update_point(actor: &mut Actor)
        requires
            old(actor).wf(),
        ensures
            *final(actor) == update_point_spec(*old(actor)),
            final(actor).wf(),
    {
        let m: i64 = if actor.kind == ActorKind::Player {
            0
        } else {
            MARGIN
        };
        let mut x_vel = actor.velocity.x;
        let mut y_vel = actor.velocity.y;
        let mut exited = false;

        if (actor.point.x < STAGE_LEFT - m && x_vel < 0) || (actor.point.x > STAGE_RIGHT + m
            && x_vel > 0) {
            x_vel = 0;
            exited = true;
        }
        if (actor.point.y < STAGE_UP - m && y_vel < 0) || (actor.point.y > STAGE_DOWN + m
            && y_vel > 0) {
            y_vel = 0;
            exited = true;
        }
        if exited && (actor.kind == ActorKind::Enemy || actor.kind == ActorKind::Boss) {
            actor.life = 0;
        }

        actor.velocity.x = clamp_add(actor.velocity.x, actor.accel.x);
        actor.velocity.y = clamp_add(actor.velocity.y, actor.accel.y);
        actor.point.x = clamp_add(actor.point.x, x_vel);
        actor.point.y = clamp_add(actor.point.y, y_vel);
    }

    /// Shot-mode integration: one tick of motion for a player or enemy
    /// shot.
    pub fn update_point_shot(actor: &mut Actor)
        requires
            old(actor).wf(),
        ensures
            *final(actor) == update_point_shot_spec(*old(actor)),
            final(actor).wf(),
            old(actor).shot_flag() ==> final(actor).shot_flag(),
    {
        let mut x_vel = mul_trig(actor.velocity.y, sin_fixed(actor.velocity.x));
        let mut y_vel = mul_trig(actor.velocity.y, cos_fixed(actor.velocity.x));

        if (actor.point.x < STAGE_LEFT - MARGIN && x_vel < 0) || (actor.point.x > STAGE_RIGHT
            + MARGIN && x_vel > 0) {
            x_vel = 0;
            actor.life = 0;
        }
        if (actor.point.y < STAGE_UP - MARGIN && y_vel < 0) || (actor.point.y > STAGE_DOWN
            + MARGIN && y_vel > 0) {
            y_vel = 0;
            actor.life = 0;
        }

        actor.velocity.x = clamp_add(actor.velocity.x, actor.accel.x);
        actor.velocity.y = clamp_add(actor.velocity.y, actor.accel.y);
        actor.point.x = clamp_add(actor.point.x, x_vel);
        actor.point.y = clamp_add(actor.point.y, y_vel);
    }
}

} // verus!
