//! Static entity configuration for the table layout: background,
//! borders, net and paddles, each with a shape, a colour, a translation
//! and a draw order. Derived once from the window constants.

use vstd::prelude::*;
use crate::entities::Vec2;

verus! {

/// Window width the table is laid out for.
pub const WINDOW_WIDTH: i64 = 800;
/// Window height the table is laid out for.
pub const WINDOW_HEIGHT: i64 = 600;
/// Thickness of the table borders and the net.
pub const BORDER_THICKNESS: i64 = 2;
/// Thickness of a paddle.
pub const PADDLE_THICKNESS: i64 = 10;
/// Height of a paddle.
pub const PADDLE_HEIGHT: i64 = 100;
/// Space kept free all around the table.
pub const OFFSET: i64 = 10;

/// A colour with 8-bit channels.
#[derive(Clone, Copy, Debug, PartialEq, Eq, Structural)]
pub struct Color {
    pub red: u8,
    pub green: u8,
    pub blue: u8,
}

/// One entity of the table: its full extent, colour, centre and draw
/// order.
#[derive(Clone, Copy, Debug, PartialEq, Eq, Structural)]
pub struct EntityConfig {
    pub shape_size: Vec2,
    pub color: Color,
    pub translation: Vec2,
    pub z_index: i32,
}

/// The fixed table layout: the background, the four borders, the net
/// and the two paddles, in drawing order.
pub fn get_entity_configs() -> (configs: Vec<EntityConfig>)
    ensures
        configs@.len() == 8,
        configs@[0] == (EntityConfig {
            shape_size: Vec2 { x: WINDOW_WIDTH, y: WINDOW_HEIGHT },
            color: Color { red: 0, green: 0, blue: 0 },
            translation: Vec2 { x: 0, y: 0 },
            z_index: -1i32,
        }),
        configs@[1] == (EntityConfig {
            shape_size: Vec2 { x: BORDER_THICKNESS, y: (WINDOW_HEIGHT - 2 * OFFSET) as i64 },
            color: Color { red: 255, green: 255, blue: 255 },
            translation: Vec2 {
                x: (OFFSET + BORDER_THICKNESS / 2 - WINDOW_WIDTH / 2) as i64,
                y: 0,
            },
            z_index: 1,
        }),
        configs@[2] == (EntityConfig {
            shape_size: Vec2 { x: BORDER_THICKNESS, y: (WINDOW_HEIGHT - 2 * OFFSET) as i64 },
            color: Color { red: 255, green: 255, blue: 255 },
            translation: Vec2 {
                x: (WINDOW_WIDTH / 2 - BORDER_THICKNESS / 2 - OFFSET) as i64,
                y: 0,
            },
            z_index: 1,
        }),
        configs@[3] == (EntityConfig {
            shape_size: Vec2 { x: BORDER_THICKNESS, y: (WINDOW_HEIGHT - 2 * OFFSET) as i64 },
            color: Color { red: 255, green: 255, blue: 255 },
            translation: Vec2 { x: 0, y: 0 },
            z_index: 1,
        }),
        configs@[4] == (EntityConfig {
            shape_size: Vec2 { x: (WINDOW_WIDTH - 2 * OFFSET) as i64, y: BORDER_THICKNESS },
            color: Color { red: 255, green: 255, blue: 255 },
            translation: Vec2 {
                x: 0,
                y: (OFFSET + BORDER_THICKNESS / 2 - WINDOW_HEIGHT / 2) as i64,
            },
            z_index: 1,
        }),
        configs@[5] == (EntityConfig {
            shape_size: Vec2 { x: (WINDOW_WIDTH - 2 * OFFSET) as i64, y: BORDER_THICKNESS },
            color: Color { red: 255, green: 255, blue: 255 },
            translation: Vec2 {
                x: 0,
                y: (WINDOW_HEIGHT / 2 - BORDER_THICKNESS / 2 - OFFSET) as i64,
            },
            z_index: 1,
        }),
        configs@[6] == (EntityConfig {
            shape_size: Vec2 { x: PADDLE_THICKNESS, y: PADDLE_HEIGHT },
            color: Color { red: 0, green: 255, blue: 0 },
            translation: Vec2 {
                x: (OFFSET + BORDER_THICKNESS + PADDLE_THICKNESS / 2 - WINDOW_WIDTH / 2) as i64,
                y: 0,
            },
            z_index: 1,
        }),
        configs@[7] == (EntityConfig {
            shape_size: Vec2 { x: PADDLE_THICKNESS, y: PADDLE_HEIGHT },
            color: Color { red: 0, green: 255, blue: 0 },
            translation: Vec2 {
                x: (WINDOW_WIDTH / 2 - BORDER_THICKNESS - PADDLE_THICKNESS / 2 - OFFSET) as i64,
                y: 0,
            },
            z_index: 1,
        }),
{
    let color_black = Color { red: 0, green: 0, blue: 0 };
    let color_white = Color { red: 255, green: 255, blue: 255 };
    let color_green = Color { red: 0, green: 255, blue: 0 };

    let mut configs: Vec<EntityConfig> = Vec::new();
    // Background
    configs.push(EntityConfig {
        shape_size: Vec2 { x: WINDOW_WIDTH, y: WINDOW_HEIGHT },
        color: color_black,
        translation: Vec2 { x: 0, y: 0 },
        z_index: -1,
    });
    // Left border
    configs.push(EntityConfig {
        shape_size: Vec2 { x: BORDER_THICKNESS, y: WINDOW_HEIGHT - 2 * OFFSET },
        color: color_white,
        translation: Vec2 { x: OFFSET + BORDER_THICKNESS / 2 - WINDOW_WIDTH / 2, y: 0 },
        z_index: 1,
    });
    // Right border
    configs.push(EntityConfig {
        shape_size: Vec2 { x: BORDER_THICKNESS, y: WINDOW_HEIGHT - 2 * OFFSET },
        color: color_white,
        translation: Vec2 { x: WINDOW_WIDTH / 2 - BORDER_THICKNESS / 2 - OFFSET, y: 0 },
        z_index: 1,
    });
    // Middle net
    configs.push(EntityConfig {
        shape_size: Vec2 { x: BORDER_THICKNESS, y: WINDOW_HEIGHT - 2 * OFFSET },
        color: color_white,
        translation: Vec2 { x: 0, y: 0 },
        z_index: 1,
    });
    // Top border
    configs.push(EntityConfig {
        shape_size: Vec2 { x: WINDOW_WIDTH - 2 * OFFSET, y: BORDER_THICKNESS },
        color: color_white,
        translation: Vec2 { x: 0, y: OFFSET + BORDER_THICKNESS / 2 - WINDOW_HEIGHT / 2 },
        z_index: 1,
    });
    // Bottom border
    configs.push(EntityConfig {
        shape_size: Vec2 { x: WINDOW_WIDTH - 2 * OFFSET, y: BORDER_THICKNESS },
        color: color_white,
        translation: Vec2 { x: 0, y: WINDOW_HEIGHT / 2 - BORDER_THICKNESS / 2 - OFFSET },
        z_index: 1,
    });
    // Left paddle
    configs.push(EntityConfig {
        shape_size: Vec2 { x: PADDLE_THICKNESS, y: PADDLE_HEIGHT },
        color: color_green,
        translation: Vec2 {
            x: OFFSET + BORDER_THICKNESS + PADDLE_THICKNESS / 2 - WINDOW_WIDTH / 2,
            y: 0,
        },
        z_index: 1,
    });
    // Right paddle
    configs.push(EntityConfig {
        shape_size: Vec2 { x: PADDLE_THICKNESS, y: PADDLE_HEIGHT },
        color: color_green,
        translation: Vec2 {
            x: WINDOW_WIDTH / 2 - BORDER_THICKNESS - PADDLE_THICKNESS / 2 - OFFSET,
            y: 0,
        },
        z_index: 1,
    });
    configs
}

} // verus!
