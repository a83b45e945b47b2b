//! The data model: vectors, the components an entity carries, and the
//! entity records themselves.
use vstd::prelude::*;

verus! {

/// Size of the ball's bounding circle: its radius, and both extents of its shape.
pub const BALL_SIZE: i32 = 10;
/// Full width of a paddle.
pub const PADDLE_WIDTH: i32 = 15;
/// Full height of a paddle.
pub const PADDLE_HEIGHT: i32 = 75;
/// Full height of a gutter.
pub const GUTTER_HEIGHT: i32 = 20;
/// Distance the ball covers per tick for a unit velocity.
pub const BALL_SPEED: i32 = 10;
/// Distance a paddle covers per tick for a unit velocity.
pub const PADDLE_SPEED: i32 = 10;

/// A point or a direction on the pixel grid.
#[derive(Clone, Copy, Debug, PartialEq, Eq, Structural)]
pub struct Vec2 {
    pub x: i32,
    pub y: i32,
}

impl Vec2 {
    pub fn new(x: i32, y: i32) -> (r: Vec2)
        ensures
            r == (Vec2 { x, y }),
    {
        Vec2 { x, y }
    }
}

/// Where an entity is; the single source of truth for its location.
#[derive(Clone, Copy, Debug, PartialEq, Eq, Structural)]
pub struct Position(pub Vec2);

/// Unit-scale direction of travel; speed is applied when integrating.
#[derive(Clone, Copy, Debug, PartialEq, Eq, Structural)]
pub struct Velocity(pub Vec2);

/// Full extents of an entity. For the ball, `x` is the radius.
#[derive(Clone, Copy, Debug, PartialEq, Eq, Structural)]
pub struct Shape(pub Vec2);

/// The one ball of a game.
#[derive(Clone, Copy, Debug, PartialEq, Eq, Structural)]
pub struct Ball {
    pub position: Position,
    pub velocity: Velocity,
    pub shape: Shape,
}

/// A paddle; a game holds one for the player and one for the AI.
#[derive(Clone, Copy, Debug, PartialEq, Eq, Structural)]
pub struct Paddle {
    pub position: Position,
    pub velocity: Velocity,
    pub shape: Shape,
}

/// A static wall along the top or the bottom of the field.
#[derive(Clone, Copy, Debug, PartialEq, Eq, Structural)]
pub struct Gutter {
    pub position: Position,
    pub shape: Shape,
}

/// The side a vertical move of the player's paddle asks for.
#[derive(Clone, Copy, Debug, PartialEq, Eq, Structural)]
pub enum Intent {
    Up,
    Down,
    Neutral,
}

/// Size of the play field, in pixels.
#[derive(Clone, Copy, Debug, PartialEq, Eq, Structural)]
pub struct Window {
    pub width: i32,
    pub height: i32,
}

impl Ball {
    pub open spec fn new_spec(x: i32, y: i32) -> Ball {
        Ball {
            position: Position(Vec2 { x: 0, y: 0 }),
            velocity: Velocity(Vec2 { x, y }),
            shape: Shape(Vec2 { x: BALL_SIZE, y: BALL_SIZE }),
        }
    }

    /// A ball at the origin, with the given velocity.
    pub fn new(x: i32, y: i32) -> (r: Ball)
        ensures
            r == Ball::new_spec(x, y),
    {
        Ball {
            position: Position(Vec2::new(0, 0)),
            velocity: Velocity(Vec2::new(x, y)),
            shape: Shape(Vec2::new(BALL_SIZE, BALL_SIZE)),
        }
    }
}

impl Paddle {
    pub open spec fn new_spec(x: i32, y: i32) -> Paddle {
        Paddle {
            position: Position(Vec2 { x, y }),
            velocity: Velocity(Vec2 { x: 0, y: 0 }),
            shape: Shape(Vec2 { x: PADDLE_WIDTH, y: PADDLE_HEIGHT }),
        }
    }

    /// A paddle at rest at `(x, y)`.
    pub fn new(x: i32, y: i32) -> (r: Paddle)
        ensures
            r == Paddle::new_spec(x, y),
    {
        Paddle {
            position: Position(Vec2::new(x, y)),
            velocity: Velocity(Vec2::new(0, 0)),
            shape: Shape(Vec2::new(PADDLE_WIDTH, PADDLE_HEIGHT)),
        }
    }
}

impl Gutter {
    pub open spec fn new_spec(x: i32, y: i32, width: i32) -> Gutter {
        Gutter { position: Position(Vec2 { x, y }), shape: Shape(Vec2 { x: width, y: GUTTER_HEIGHT }) }
    }

    /// A gutter centred at `(x, y)` spanning `width`.
    pub fn new(x: i32, y: i32, width: i32) -> (r: Gutter)
        ensures
            r == Gutter::new_spec(x, y, width),
    {
        Gutter { position: Position(Vec2::new(x, y)), shape: Shape(Vec2::new(width, GUTTER_HEIGHT)) }
    }
}

} // verus!
