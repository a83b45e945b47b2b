//! The fixed entity set of a new game, derived from the field's size.
use vstd::prelude::*;
use crate::components::{Ball, Gutter, Paddle, Window, GUTTER_HEIGHT};

verus! {

/// Distance from a side edge of the field to a paddle's centre.
pub const PADDLE_PADDING: i32 = 50;

/// A field whose edges and centre lines fall on the pixel grid: sizes that
/// are whole, even pixel counts, so that `width / 2` and `height / 2` are exact.
pub open spec fn window_ok(w: Window) -> bool {
    0 <= w.width && 0 <= w.height && w.width % 2 == 0 && w.height % 2 == 0
}

/// The ball of a new game: at the origin, heading right and down.
pub fn spawn_ball() -> (r: Ball)
    ensures
        r == Ball::new_spec(1i32, -1i32),
{
    Ball::new(1, -1)
}

/// The two paddles of a new game, the player's first: the player's at the
/// right edge less the padding, the AI's at the left one, both at rest at
/// `y = 0`.
pub fn spawn_paddles(window: Window) -> (r: (Paddle, Paddle))
    requires
        window_ok(window),
    ensures
        r.0 == Paddle::new_spec((window.width / 2 - PADDLE_PADDING) as i32, 0),
        r.1 == Paddle::new_spec((-(window.width / 2) + PADDLE_PADDING) as i32, 0),
{
    let right_x = window.width / 2 - PADDLE_PADDING;
    let left_x = -(window.width / 2) + PADDLE_PADDING;
    (Paddle::new(right_x, 0), Paddle::new(left_x, 0))
}

/// The two gutters of a new game, the top one first: each spans the width of
/// the field, and lies along its top or bottom edge.
pub fn spawn_gutters(window: Window) -> (r: (Gutter, Gutter))
    requires
        window_ok(window),
    ensures
        r.0 == Gutter::new_spec(0, (window.height / 2 - GUTTER_HEIGHT / 2) as i32, window.width),
        r.1 == Gutter::new_spec(0, (-(window.height / 2) + GUTTER_HEIGHT / 2) as i32, window.width),
{
    let top_y = window.height / 2 - GUTTER_HEIGHT / 2;
    let bottom_y = -(window.height / 2) + GUTTER_HEIGHT / 2;
    (Gutter::new(0, top_y, window.width), Gutter::new(0, bottom_y, window.width))
}

} // verus!
