//! One simulation step: paddle controller, then motion integrator, then
//! collision resolver, strictly in that order. The resolver must see the
//! ball's post-motion position and the paddles' already-updated
//! positions for the tick.

use vstd::prelude::*;
use crate::arena::ArenaConfig;
use crate::collision::{check_for_collisions, resolved_vx, resolved_vy};
use crate::control::{move_paddle, paddle_after_control, paddle_fits, InputIntent};
use crate::entities::{pos_ok, Ball, Paddle, PaddleStrategy, Vec2, DT_LIMIT};
use crate::motion::{apply_velocity, ball_after_motion};

verus! {

/// The mutable entity set of a session: one ball and a small fixed list
/// of paddles. The arena configuration stays outside: it is immutable.
pub struct GameState {
    pub ball: Ball,
    pub paddles: Vec<Paddle>,
}

/// One paddle after the controller ran for the tick: a player-controlled
/// paddle moves by the intent, a stationary one stays put.
pub open spec fn paddle_after_tick(p: Paddle, intent: InputIntent, dt: i64, a: ArenaConfig) -> Paddle {
    match p.strategy {
        PaddleStrategy::PlayerControlled => paddle_after_control(p, intent, dt, a),
        PaddleStrategy::Stationary => p,
    }
}

/// All paddles after the controller ran for the tick.
pub open spec fn paddles_after_tick(
    paddles: Seq<Paddle>,
    intent: InputIntent,
    dt: i64,
    a: ArenaConfig,
) -> Seq<Paddle> {
    paddles.map_values(|p: Paddle| paddle_after_tick(p, intent, dt, a))
}

/// The ball after the collision resolver ran on it against the given
/// paddles: same position and radius, velocity resolved.
pub open spec fn ball_after_resolution(b: Ball, paddles: Seq<Paddle>, a: ArenaConfig) -> Ball {
    Ball {
        position: b.position,
        velocity: Vec2 {
            x: resolved_vx(b, paddles, a) as i64,
            y: resolved_vy(b, a) as i64,
        },
        radius: b.radius,
    }
}

impl GameState {
    /// Every paddle is well formed and, where the player drives it, fits
    /// the arena's clamping range.
    pub open spec fn paddles_wf(self, a: ArenaConfig) -> bool {
        forall|i: int|
            0 <= i < self.paddles@.len() ==> (#[trigger] self.paddles@[i]).wf() && (
            self.paddles@[i].strategy == PaddleStrategy::PlayerControlled ==> paddle_fits(
                a,
                self.paddles@[i],
            ))
    }
}

/// Advance the whole entity set by one tick: move the player-controlled
/// paddles by the intent, integrate the ball, then resolve collisions on
/// the ball's new position against the paddles' new positions.
pub fn simulate_tick(state: &mut GameState, intent: InputIntent, dt: i64, a: &ArenaConfig)
    requires
        a.wf(),
        old(state).ball.wf(),
        pos_ok(old(state).ball.position),
        0 <= dt <= DT_LIMIT,
        old(state).paddles_wf(*a),
    ensures
        final(state).paddles@ == paddles_after_tick(old(state).paddles@, intent, dt, *a),
        final(state).ball == ball_after_resolution(
            ball_after_motion(old(state).ball, dt),
            final(state).paddles@,
            *a,
        ),
        final(state).ball.wf(),
        final(state).paddles_wf(*a),
{
    let ghost paddles0: Seq<Paddle> = state.paddles@;

    let mut i: usize = 0;
    while i < state.paddles.len()
        invariant
            0 <= i <= state.paddles@.len(),
            state.paddles@.len() == paddles0.len(),
            a.wf(),
            0 <= dt <= DT_LIMIT,
            forall|j: int|
                0 <= j < paddles0.len() ==> (#[trigger] paddles0[j]).wf() && (paddles0[j].strategy
                    == PaddleStrategy::PlayerControlled ==> paddle_fits(*a, paddles0[j])),
            forall|j: int|
                i <= j < paddles0.len() ==> #[trigger] state.paddles@[j] == paddles0[j],
            forall|j: int|
                0 <= j < i ==> #[trigger] state.paddles@[j] == paddle_after_tick(
                    paddles0[j],
                    intent,
                    dt,
                    *a,
                ),
            state.ball == old(state).ball,
        decreases state.paddles@.len() - i,
    {
        let paddle: Paddle = state.paddles[i];
        match paddle.strategy {
            PaddleStrategy::PlayerControlled => {
                let mut moved: Paddle = paddle;
                move_paddle(&mut moved, intent, dt, a);
                state.paddles.set(i, moved);
            },
            PaddleStrategy::Stationary => {},
        }
        i = i + 1;
    }
    proof {
        assert(state.paddles@ =~= paddles_after_tick(paddles0, intent, dt, *a));
        assert forall|j: int| 0 <= j < state.paddles@.len() implies (
        #[trigger] state.paddles@[j]).wf() && (state.paddles@[j].strategy
            == PaddleStrategy::PlayerControlled ==> paddle_fits(*a, state.paddles@[j])) by {
            assert(state.paddles@[j] == paddle_after_tick(paddles0[j], intent, dt, *a));
        }
    }

    apply_velocity(&mut state.ball, dt);
    check_for_collisions(&mut state.ball, &state.paddles, a);
}

} // verus!
