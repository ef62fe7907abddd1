use pong_core::arena::ArenaConfig;
use pong_core::collision::check_for_collisions;
use pong_core::control::{move_paddle, resolve_intent, InputIntent};
use pong_core::entities::{Ball, Paddle, PaddleLocation, PaddleStrategy, Vec2};
use pong_core::motion::apply_velocity;
use pong_core::tick::{simulate_tick, GameState};

fn test_ball(x: i64, y: i64, vx: i64, vy: i64) -> Ball {
    Ball {
        position: Vec2 { x, y },
        velocity: Vec2 { x: vx, y: vy },
        radius: 15,
    }
}

fn slow_paddle(y: i64) -> Paddle {
    Paddle {
        position: Vec2 { x: -430, y },
        half_size: Vec2 { x: 10, y: 60 },
        speed: 5,
        strategy: PaddleStrategy::PlayerControlled,
    }
}

#[test]
fn apply_velocity_advances_position() {
    let mut b = test_ball(10, 20, 3, -4);
    apply_velocity(&mut b, 2);
    assert_eq!(b.position, Vec2 { x: 16, y: 12 });
    assert_eq!(b.velocity, Vec2 { x: 3, y: -4 });
    assert_eq!(b.radius, 15);
}

#[test]
fn apply_velocity_zero_dt_is_noop() {
    let mut b = test_ball(10, 20, 300, -400);
    apply_velocity(&mut b, 0);
    assert_eq!(b.position, Vec2 { x: 10, y: 20 });
    assert_eq!(b.velocity, Vec2 { x: 300, y: -400 });
}

#[test]
fn resolve_intent_combinations() {
    assert_eq!(resolve_intent(true, false), InputIntent::Up);
    assert_eq!(resolve_intent(false, true), InputIntent::Down);
    assert_eq!(resolve_intent(false, false), InputIntent::Neutral);
    // opposite keys cancel
    assert_eq!(resolve_intent(true, true), InputIntent::Neutral);
}

#[test]
fn move_paddle_up_down_neutral() {
    let a = ArenaConfig::standard();
    let mut p = slow_paddle(0);
    move_paddle(&mut p, InputIntent::Up, 2, &a);
    assert_eq!(p.position.y, 10);
    move_paddle(&mut p, InputIntent::Down, 1, &a);
    assert_eq!(p.position.y, 5);
    move_paddle(&mut p, InputIntent::Neutral, 7, &a);
    assert_eq!(p.position.y, 5);
    assert_eq!(p.position.x, -430);
}

#[test]
fn move_paddle_clamps_to_bounds() {
    let a = ArenaConfig::standard();
    // bounds for a 120-high paddle: 300 - 1 - 60 - 10 = 229 and its mirror
    let mut p = slow_paddle(225);
    p.speed = 500;
    move_paddle(&mut p, InputIntent::Up, 1, &a);
    assert_eq!(p.position.y, 229);
    move_paddle(&mut p, InputIntent::Up, 3, &a);
    assert_eq!(p.position.y, 229);
    let mut q = slow_paddle(-225);
    q.speed = 500;
    move_paddle(&mut q, InputIntent::Down, 1, &a);
    assert_eq!(q.position.y, -229);
}

#[test]
fn move_paddle_zero_dt_is_noop() {
    let a = ArenaConfig::standard();
    let mut p = slow_paddle(42);
    move_paddle(&mut p, InputIntent::Up, 0, &a);
    assert_eq!(p.position.y, 42);
}

#[test]
fn left_wall_reflection_flips_vx_only() {
    let a = ArenaConfig::standard();
    // x = left + radius - 1: one unit past the reach of the left bound
    let mut b = test_ball(-436, 0, -5, 7);
    let paddles: Vec<Paddle> = Vec::new();
    check_for_collisions(&mut b, &paddles, &a);
    assert_eq!(b.velocity, Vec2 { x: 5, y: 7 });
    assert_eq!(b.position, Vec2 { x: -436, y: 0 });
}

#[test]
fn right_wall_reflection_flips_vx_only() {
    let a = ArenaConfig::standard();
    let mut b = test_ball(436, 10, 5, 7);
    let paddles: Vec<Paddle> = Vec::new();
    check_for_collisions(&mut b, &paddles, &a);
    assert_eq!(b.velocity, Vec2 { x: -5, y: 7 });
}

#[test]
fn corner_reflection_flips_both_components() {
    let a = ArenaConfig::standard();
    // crosses the left and bottom bounds in the same tick
    let mut b = test_ball(-440, -290, -5, -7);
    let paddles: Vec<Paddle> = Vec::new();
    check_for_collisions(&mut b, &paddles, &a);
    assert_eq!(b.velocity, Vec2 { x: 5, y: 7 });
}

#[test]
fn speed_is_conserved_across_reflections() {
    let a = ArenaConfig::standard();
    let mut b = test_ball(-440, -290, -5, -7);
    let before = b.velocity.x * b.velocity.x + b.velocity.y * b.velocity.y;
    let paddles: Vec<Paddle> = Vec::new();
    check_for_collisions(&mut b, &paddles, &a);
    let after = b.velocity.x * b.velocity.x + b.velocity.y * b.velocity.y;
    assert_eq!(before, after);
}

#[test]
fn paddle_overlap_flips_vx_only() {
    let a = ArenaConfig::standard();
    let mut b = test_ball(-410, 30, -5, 7);
    let mut paddles: Vec<Paddle> = Vec::new();
    paddles.push(slow_paddle(0));
    check_for_collisions(&mut b, &paddles, &a);
    assert_eq!(b.velocity, Vec2 { x: 5, y: 7 });
    assert_eq!(b.position, Vec2 { x: -410, y: 30 });
}

#[test]
fn two_overlapping_paddles_cancel_out() {
    // two flips in one tick net no change: the known double-negation
    // edge of this resolver design
    let a = ArenaConfig::standard();
    let mut b = test_ball(-410, 0, -5, 7);
    let mut paddles: Vec<Paddle> = Vec::new();
    paddles.push(slow_paddle(0));
    paddles.push(slow_paddle(20));
    check_for_collisions(&mut b, &paddles, &a);
    assert_eq!(b.velocity, Vec2 { x: -5, y: 7 });
}

#[test]
fn ball_ignores_the_net() {
    let a = ArenaConfig::standard();
    // the net rectangle stands at the centre; the ball overlaps it
    let mut b = test_ball(0, 0, -5, 7);
    let paddles: Vec<Paddle> = Vec::new();
    check_for_collisions(&mut b, &paddles, &a);
    assert_eq!(b.velocity, Vec2 { x: -5, y: 7 });
}

#[test]
fn touching_paddle_edge_is_no_overlap() {
    // the overlap test is strict: a ball exactly touching the paddle's
    // face does not collide yet
    let a = ArenaConfig::standard();
    let mut b = test_ball(-405, 0, -5, 7);
    // paddle face at -430 + 10 = -420; ball face at -405 - 15 = -420
    let mut paddles: Vec<Paddle> = Vec::new();
    paddles.push(slow_paddle(0));
    check_for_collisions(&mut b, &paddles, &a);
    assert_eq!(b.velocity, Vec2 { x: -5, y: 7 });
}

#[test]
fn touching_wall_reach_already_reflects() {
    // the bound test is inclusive: a ball whose edge exactly reaches
    // the bound reflects
    let a = ArenaConfig::standard();
    let mut b = test_ball(-435, 0, -5, 7);
    let paddles: Vec<Paddle> = Vec::new();
    check_for_collisions(&mut b, &paddles, &a);
    assert_eq!(b.velocity, Vec2 { x: 5, y: 7 });
}

#[test]
fn tick_runs_controller_integrator_resolver_in_order() {
    let a = ArenaConfig::standard();
    let mut paddles: Vec<Paddle> = Vec::new();
    paddles.push(slow_paddle(0));
    paddles.push(Paddle::new(
        PaddleLocation::Right,
        PaddleStrategy::Stationary,
        &a,
    ));
    let mut state = GameState {
        ball: test_ball(0, 0, 3, -4),
        paddles,
    };
    simulate_tick(&mut state, InputIntent::Up, 2, &a);
    // the controlled paddle moved, the stationary one did not
    assert_eq!(state.paddles[0].position.y, 10);
    assert_eq!(state.paddles[1].position.y, 0);
    // the ball advanced and met nothing
    assert_eq!(state.ball.position, Vec2 { x: 6, y: -8 });
    assert_eq!(state.ball.velocity, Vec2 { x: 3, y: -4 });
}

#[test]
fn tick_resolves_on_post_motion_position() {
    let a = ArenaConfig::standard();
    let mut state = GameState {
        ball: test_ball(-430, 0, -10, 2),
        paddles: Vec::new(),
    };
    // after motion the ball stands at -440: within the left bound's
    // reach, so the same tick flips the horizontal velocity
    simulate_tick(&mut state, InputIntent::Neutral, 1, &a);
    assert_eq!(state.ball.position, Vec2 { x: -440, y: 2 });
    assert_eq!(state.ball.velocity, Vec2 { x: 10, y: 2 });
}

#[test]
fn end_to_end_right_wall_rally() {
    // the standard scenario in hundredth units: arena 900 x 600, ball
    // from the centre at speed 500 towards the lower right, one tick
    // per 1/64 s, so about 552 hundredths of a unit per tick
    let a = ArenaConfig {
        left: -45000,
        right: 45000,
        bottom: -30000,
        top: 30000,
        wall_thickness: 2,
    };
    let mut state = GameState {
        ball: Ball {
            position: Vec2 { x: 0, y: 0 },
            velocity: Vec2 { x: 552, y: -552 },
            radius: 1500,
        },
        paddles: Vec::new(),
    };
    let mut ticks: u32 = 0;
    let mut bounced_bottom = false;
    while state.ball.velocity.x > 0 {
        simulate_tick(&mut state, InputIntent::Neutral, 1, &a);
        ticks += 1;
        if state.ball.velocity.y > 0 {
            bounced_bottom = true;
        }
        assert!(ticks < 1000, "ball never reached the right wall");
    }
    // the ball bounced off the bottom on the way
    assert!(bounced_bottom);
    // it reaches the right wall's reach on tick 79 and turns left
    assert_eq!(ticks, 79);
    assert_eq!(state.ball.position.x, 43608);
    assert_eq!(state.ball.velocity.x, -552);
    let here = state.ball.position.x;
    simulate_tick(&mut state, InputIntent::Neutral, 1, &a);
    assert!(state.ball.position.x < here);
}
