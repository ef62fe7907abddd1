//! Motion integrator: advances a position by `velocity * dt`.

use vstd::prelude::*;
use crate::entities::{Ball, Vec2, pos_ok, DT_LIMIT, GEOM_LIMIT};

verus! {

/// The ball after one integration step: the position advanced by
/// `velocity * dt`, velocity and radius untouched.
pub open spec fn ball_after_motion(b: Ball, dt: i64) -> Ball {
    Ball {
        position: Vec2 {
            x: (b.position.x + b.velocity.x * dt) as i64,
            y: (b.position.y + b.velocity.y * dt) as i64,
        },
        velocity: b.velocity,
        radius: b.radius,
    }
}

/// Advance the ball by its velocity over the elapsed time `dt`.
/// `dt = 0` is a valid no-op. The ball is the only entity of this core
/// that carries a velocity.
pub fn apply_velocity(ball: &mut Ball, dt: i64)
    requires
        old(ball).wf(),
        pos_ok(old(ball).position),
        0 <= dt <= DT_LIMIT,
    ensures
        final(ball).position.x == old(ball).position.x + old(ball).velocity.x * dt,
        final(ball).position.y == old(ball).position.y + old(ball).velocity.y * dt,
        final(ball).velocity == old(ball).velocity,
        final(ball).radius == old(ball).radius,
        *final(ball) == ball_after_motion(*old(ball), dt),
        final(ball).wf(),
{
    assert(-(GEOM_LIMIT * DT_LIMIT) <= ball.velocity.x * dt <= GEOM_LIMIT * DT_LIMIT)
        by (nonlinear_arith)
        requires
            -GEOM_LIMIT <= ball.velocity.x <= GEOM_LIMIT,
            0 <= dt <= DT_LIMIT,
    ;
    assert(-(GEOM_LIMIT * DT_LIMIT) <= ball.velocity.y * dt <= GEOM_LIMIT * DT_LIMIT)
        by (nonlinear_arith)
        requires
            -GEOM_LIMIT <= ball.velocity.y <= GEOM_LIMIT,
            0 <= dt <= DT_LIMIT,
    ;
    ball.position.x = ball.position.x + ball.velocity.x * dt;
    ball.position.y = ball.position.y + ball.velocity.y * dt;
}

/// A zero time step leaves the ball exactly where it was.
pub proof fn lemma_integrator_noop(b: Ball)
    ensures
        ball_after_motion(b, 0) == b,
{
}

} // verus!
