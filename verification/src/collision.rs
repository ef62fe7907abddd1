//! Collision resolver: detects ball-wall and ball-paddle overlap on the
//! ball's post-integration position and reflects the velocity.
//!
//! Reflection only flips the sign of a velocity component, never its
//! magnitude, so speed is conserved. The resolver performs no position
//! correction: a fast ball can tunnel through a thin obstacle, a known
//! and accepted limitation of this design.

use vstd::prelude::*;
use crate::arena::{ArenaConfig, Wall};
use crate::entities::{Ball, Paddle};

verus! {

/// The ball has reached or crossed the left or right arena bound.
pub open spec fn hits_horizontal_bound(b: Ball, a: ArenaConfig) -> bool {
    b.position.x - b.radius <= a.left || b.position.x + b.radius >= a.right
}

/// The ball has reached or crossed the bottom or top arena bound.
pub open spec fn hits_vertical_bound(b: Ball, a: ArenaConfig) -> bool {
    b.position.y - b.radius <= a.bottom || b.position.y + b.radius >= a.top
}

/// Axis-aligned overlap between the ball's bounding square and a paddle
/// rectangle, all extents strict.
pub open spec fn overlaps_paddle(b: Ball, p: Paddle) -> bool {
    &&& b.position.x - b.radius < p.position.x + p.half_size.x
    &&& b.position.x + b.radius > p.position.x - p.half_size.x
    &&& b.position.y - b.radius < p.position.y + p.half_size.y
    &&& b.position.y + b.radius > p.position.y - p.half_size.y
}

/// Axis-aligned overlap between the ball's bounding square and a wall
/// rectangle given by its centre and full extent.
pub open spec fn overlaps_wall(b: Ball, w: Wall) -> bool {
    &&& b.position.x - b.radius < w.position.x + w.size.x / 2
    &&& b.position.x + b.radius > w.position.x - w.size.x / 2
    &&& b.position.y - b.radius < w.position.y + w.size.y / 2
    &&& b.position.y + b.radius > w.position.y - w.size.y / 2
}

/// How many paddles of the sequence the ball overlaps; each one flips
/// the horizontal velocity once.
pub open spec fn paddle_flip_count(b: Ball, paddles: Seq<Paddle>) -> nat
    decreases paddles.len(),
{
    if paddles.len() == 0 {
        0
    } else {
        paddle_flip_count(b, paddles.drop_last()) + if overlaps_paddle(b, paddles.last()) {
            1nat
        } else {
            0nat
        }
    }
}

/// Total number of sign flips the resolver applies to the horizontal
/// velocity: one for a left/right bound crossing, one per overlapped
/// paddle.
pub open spec fn x_flip_count(b: Ball, paddles: Seq<Paddle>, a: ArenaConfig) -> nat {
    paddle_flip_count(b, paddles) + if hits_horizontal_bound(b, a) {
        1nat
    } else {
        0nat
    }
}

/// Horizontal velocity after the resolver: the sign flips once per flip,
/// so only its parity shows.
pub open spec fn resolved_vx(b: Ball, paddles: Seq<Paddle>, a: ArenaConfig) -> int {
    if x_flip_count(b, paddles, a) % 2 == 1 {
        -(b.velocity.x as int)
    } else {
        b.velocity.x as int
    }
}

/// Vertical velocity after the resolver: flipped exactly when the ball
/// reached or crossed the bottom or top bound. Paddles never touch it.
pub open spec fn resolved_vy(b: Ball, a: ArenaConfig) -> int {
    if hits_vertical_bound(b, a) {
        -(b.velocity.y as int)
    } else {
        b.velocity.y as int
    }
}

/// Reflect the ball's velocity off every bound and paddle it has
/// crossed, on its post-integration position. The position itself is
/// not corrected. The decorative net takes no part: only the four
/// arena bounds and the paddles are consulted.
pub fn check_for_collisions(ball: &mut Ball, paddles: &Vec<Paddle>, a: &ArenaConfig)
    requires
        old(ball).wf(),
        a.wf(),
        forall|i: int| 0 <= i < paddles@.len() ==> paddles@[i].wf(),
    ensures
        final(ball).position == old(ball).position,
        final(ball).radius == old(ball).radius,
        final(ball).velocity.x == resolved_vx(*old(ball), paddles@, *a),
        final(ball).velocity.y == resolved_vy(*old(ball), *a),
        final(ball).wf(),
{
    let ghost b0: Ball = *ball;

    if ball.position.x - ball.radius <= a.left || ball.position.x + ball.radius >= a.right {
        ball.velocity.x = -ball.velocity.x;
    }
    if ball.position.y - ball.radius <= a.bottom || ball.position.y + ball.radius >= a.top {
        ball.velocity.y = -ball.velocity.y;
    }

    assert(paddles@.subrange(0, 0) =~= Seq::<Paddle>::empty());

    let mut i: usize = 0;
    while i < paddles.len()
        invariant
            0 <= i <= paddles@.len(),
            forall|j: int| 0 <= j < paddles@.len() ==> paddles@[j].wf(),
            b0.wf(),
            ball.position == b0.position,
            ball.radius == b0.radius,
            ball.velocity.y == resolved_vy(b0, *a),
            ball.velocity.x == (if (paddle_flip_count(b0, paddles@.subrange(0, i as int)) + (
            if hits_horizontal_bound(b0, *a) {
                1nat
            } else {
                0nat
            })) % 2 == 1 {
                -(b0.velocity.x as int)
            } else {
                b0.velocity.x as int
            }),
        decreases paddles@.len() - i,
    {
        let paddle: Paddle = paddles[i];
        if ball.position.x - ball.radius < paddle.position.x + paddle.half_size.x
            && ball.position.x + ball.radius > paddle.position.x - paddle.half_size.x
            && ball.position.y - ball.radius < paddle.position.y + paddle.half_size.y
            && ball.position.y + ball.radius > paddle.position.y - paddle.half_size.y {
            ball.velocity.x = -ball.velocity.x;
        }
        proof {
            let pre = paddles@.subrange(0, i as int);
            let post = paddles@.subrange(0, i + 1);
            assert(post.drop_last() =~= pre);
            assert(post.last() == paddles@[i as int]);
        }
        i = i + 1;
    }
    proof {
        assert(paddles@.subrange(0, paddles@.len() as int) =~= paddles@);
    }
}

/// Speed conservation: the resolver only flips signs, so the squared
/// magnitude of the velocity — and with it the speed — is unchanged,
/// whatever the ball, the paddles and the arena are.
pub proof fn lemma_speed_conservation(b: Ball, paddles: Seq<Paddle>, a: ArenaConfig)
    ensures
        resolved_vx(b, paddles, a) * resolved_vx(b, paddles, a) + resolved_vy(b, a) * resolved_vy(
            b,
            a,
        ) == b.velocity.x * b.velocity.x + b.velocity.y * b.velocity.y,
{
    let vx = b.velocity.x as int;
    let vy = b.velocity.y as int;
    assert((-vx) * (-vx) == vx * vx) by (nonlinear_arith);
    assert((-vy) * (-vy) == vy * vy) by (nonlinear_arith);
}

/// A ball that overlaps no paddle of the sequence accumulates no paddle
/// flips.
pub proof fn lemma_no_overlap_no_flip(b: Ball, paddles: Seq<Paddle>)
    requires
        forall|i: int| 0 <= i < paddles.len() ==> !overlaps_paddle(b, paddles[i]),
    ensures
        paddle_flip_count(b, paddles) == 0,
    decreases paddles.len(),
{
    if paddles.len() > 0 {
        assert(paddles.last() == paddles[paddles.len() - 1]);
        assert(forall|i: int|
            0 <= i < paddles.drop_last().len() ==> paddles.drop_last()[i] == paddles[i]);
        lemma_no_overlap_no_flip(b, paddles.drop_last());
    }
}

/// Wall reflection: a ball standing one unit inside the left bound's
/// reach and moving left leaves the resolver moving right, its vertical
/// velocity untouched, as long as it meets no other surface.
pub proof fn lemma_wall_reflection(b: Ball, paddles: Seq<Paddle>, a: ArenaConfig)
    requires
        b.position.x == a.left + b.radius - 1,
        b.velocity.x < 0,
        b.position.x + b.radius < a.right,
        a.bottom < b.position.y - b.radius,
        b.position.y + b.radius < a.top,
        forall|i: int| 0 <= i < paddles.len() ==> !overlaps_paddle(b, paddles[i]),
    ensures
        resolved_vx(b, paddles, a) == -b.velocity.x,
        resolved_vx(b, paddles, a) > 0,
        resolved_vy(b, a) == b.velocity.y,
{
    lemma_no_overlap_no_flip(b, paddles);
}

/// Corner reflection: a ball crossing the left and bottom bounds in the
/// same tick has both velocity components flipped at once.
pub proof fn lemma_corner_reflection(b: Ball, paddles: Seq<Paddle>, a: ArenaConfig)
    requires
        b.position.x - b.radius <= a.left,
        b.position.y - b.radius <= a.bottom,
        forall|i: int| 0 <= i < paddles.len() ==> !overlaps_paddle(b, paddles[i]),
    ensures
        resolved_vx(b, paddles, a) == -b.velocity.x,
        resolved_vy(b, a) == -b.velocity.y,
{
    lemma_no_overlap_no_flip(b, paddles);
}

/// Paddle reflection: a ball overlapping a single paddle away from every
/// arena bound has its horizontal velocity flipped and its vertical
/// velocity untouched.
pub proof fn lemma_paddle_reflection(b: Ball, p: Paddle, a: ArenaConfig)
    requires
        overlaps_paddle(b, p),
        !hits_horizontal_bound(b, a),
        !hits_vertical_bound(b, a),
    ensures
        resolved_vx(b, seq![p], a) == -b.velocity.x,
        resolved_vy(b, a) == b.velocity.y,
{
    assert(seq![p].drop_last() =~= Seq::<Paddle>::empty());
    assert(seq![p].last() == p);
    assert(paddle_flip_count(b, Seq::<Paddle>::empty()) == 0);
    assert(paddle_flip_count(b, seq![p]) == 1);
}

/// Net non-interaction: a ball overlapping the decorative middle wall,
/// but no bound and no paddle, leaves the resolver with its velocity
/// unchanged — the net is excluded from collision entirely.
pub proof fn lemma_net_non_interaction(b: Ball, paddles: Seq<Paddle>, a: ArenaConfig, net: Wall)
    requires
        net == crate::arena::spec_wall(crate::arena::WallLocation::Middle, a),
        overlaps_wall(b, net),
        !hits_horizontal_bound(b, a),
        !hits_vertical_bound(b, a),
        forall|i: int| 0 <= i < paddles.len() ==> !overlaps_paddle(b, paddles[i]),
    ensures
        resolved_vx(b, paddles, a) == b.velocity.x,
        resolved_vy(b, a) == b.velocity.y,
{
    lemma_no_overlap_no_flip(b, paddles);
}

} // verus!
