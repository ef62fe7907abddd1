//! Simulation core of a two-paddle ball-bounce arena game.
//!
//! The core advances ball and paddle positions over fixed time steps,
//! enforces arena boundaries, and resolves collisions between the ball
//! and walls or paddles. Rendering, input devices and scheduling belong
//! to the host: the core only consumes a resolved input intent and an
//! elapsed time per tick, and produces updated positions and velocities.
//!
//! All quantities are integer world units: a host picks the scale (for
//! example milli-units) and hands the core integer positions, velocities
//! and time steps. A displacement is exactly `velocity * dt`.

pub mod arena;
pub mod collision;
pub mod config;
pub mod control;
pub mod entities;
pub mod motion;
pub mod tick;
