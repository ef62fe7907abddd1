//! Paddle controller: maps an input intent to a paddle displacement and
//! clamps the result to the arena bounds.

use vstd::prelude::*;
use crate::arena::ArenaConfig;
use crate::entities::{Paddle, PaddleStrategy, Vec2, DT_LIMIT, GEOM_LIMIT};

verus! {

/// Fixed margin that keeps a paddle from visually touching a wall.
pub const PADDLE_PADDING: i64 = 10;

/// The resolved logical direction a player wants a paddle to move,
/// independent of the raw input device. Opposite keys pressed together
/// cancel to `Neutral`.
#[derive(Clone, Copy, Debug, PartialEq, Eq, Structural)]
pub enum InputIntent {
    Up,
    Down,
    Neutral,
}

/// Signed unit direction of an intent.
pub open spec fn intent_direction(intent: InputIntent) -> int {
    match intent {
        InputIntent::Up => 1,
        InputIntent::Down => -1,
        InputIntent::Neutral => 0,
    }
}

/// Resolve two key-down predicates into one intent: the directions sum,
/// so both keys pressed together, like none, come out `Neutral`.
pub fn resolve_intent(up_pressed: bool, down_pressed: bool) -> (intent: InputIntent)
    ensures
        intent == (if up_pressed == down_pressed {
            InputIntent::Neutral
        } else if up_pressed {
            InputIntent::Up
        } else {
            InputIntent::Down
        }),
        intent_direction(intent) == (if up_pressed { 1int } else { 0int }) - (if down_pressed {
            1int
        } else {
            0int
        }),
{
    if up_pressed && !down_pressed {
        InputIntent::Up
    } else if down_pressed && !up_pressed {
        InputIntent::Down
    } else {
        InputIntent::Neutral
    }
}

/// Highest centre the paddle may reach: just under the top wall, minus
/// the paddle's half height and the fixed padding.
pub open spec fn upper_bound(a: ArenaConfig, p: Paddle) -> int {
    a.top - a.wall_thickness / 2 - p.half_size.y - PADDLE_PADDING
}

/// Lowest centre the paddle may reach: just over the bottom wall, plus
/// the paddle's half height and the fixed padding.
pub open spec fn lower_bound(a: ArenaConfig, p: Paddle) -> int {
    a.bottom + a.wall_thickness / 2 + p.half_size.y + PADDLE_PADDING
}

/// The paddle fits the arena: its clamping range is non-empty.
pub open spec fn paddle_fits(a: ArenaConfig, p: Paddle) -> bool {
    lower_bound(a, p) <= upper_bound(a, p)
}

/// A value clamped to `[lo, hi]`: a hard floor and ceiling, never an
/// error, never a bounce.
pub open spec fn clamp_spec(v: int, lo: int, hi: int) -> int {
    if v < lo {
        lo
    } else if v > hi {
        hi
    } else {
        v
    }
}

/// The paddle after one controller step: the centre moved by
/// `direction * speed * dt` and clamped to the arena bounds.
pub open spec fn paddle_after_control(p: Paddle, intent: InputIntent, dt: i64, a: ArenaConfig) -> Paddle {
    Paddle {
        position: Vec2 {
            x: p.position.x,
            y: clamp_spec(
                p.position.y + intent_direction(intent) * p.speed * dt,
                lower_bound(a, p),
                upper_bound(a, p),
            ) as i64,
        },
        half_size: p.half_size,
        speed: p.speed,
        strategy: p.strategy,
    }
}

/// Move a paddle by the resolved intent over the elapsed time `dt`,
/// keeping its centre within the arena bounds. Only the `y` coordinate
/// changes; the result always lies in `[lower_bound, upper_bound]`.
pub fn move_paddle(paddle: &mut Paddle, intent: InputIntent, dt: i64, a: &ArenaConfig)
    requires
        old(paddle).wf(),
        a.wf(),
        0 <= dt <= DT_LIMIT,
        paddle_fits(*a, *old(paddle)),
    ensures
        *final(paddle) == paddle_after_control(*old(paddle), intent, dt, *a),
        final(paddle).position.x == old(paddle).position.x,
        final(paddle).half_size == old(paddle).half_size,
        final(paddle).speed == old(paddle).speed,
        final(paddle).strategy == old(paddle).strategy,
        lower_bound(*a, *old(paddle)) <= final(paddle).position.y <= upper_bound(
            *a,
            *old(paddle),
        ),
        final(paddle).wf(),
{
    let step: i64 = match intent {
        InputIntent::Up => paddle.speed,
        InputIntent::Down => -paddle.speed,
        InputIntent::Neutral => 0,
    };
    assert(step == intent_direction(intent) * paddle.speed);
    assert(-(GEOM_LIMIT * DT_LIMIT) <= step * dt <= GEOM_LIMIT * DT_LIMIT) by (nonlinear_arith)
        requires
            -GEOM_LIMIT <= step <= GEOM_LIMIT,
            0 <= dt <= DT_LIMIT,
    ;
    let new_position: i64 = paddle.position.y + step * dt;

    let upper: i64 = a.top - a.wall_thickness / 2 - paddle.half_size.y - PADDLE_PADDING;
    let lower: i64 = a.bottom + a.wall_thickness / 2 + paddle.half_size.y + PADDLE_PADDING;

    paddle.position.y = if new_position < lower {
        lower
    } else if new_position > upper {
        upper
    } else {
        new_position
    };
}

/// A zero time step leaves a paddle that stands within its bounds
/// exactly where it was.
pub proof fn lemma_controller_noop(p: Paddle, intent: InputIntent, a: ArenaConfig)
    requires
        lower_bound(a, p) <= p.position.y <= upper_bound(a, p),
    ensures
        paddle_after_control(p, intent, 0, a) == p,
{
}

} // verus!
