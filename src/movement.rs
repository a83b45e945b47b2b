//! Per-tick motion: integrating the ball and the paddles, resolving the
//! ball's collisions, steering the AI paddle and reading the player's intent.
//!
//! Collision geometry works in half-pixels (every coordinate doubled), so that
//! the half extents of odd-sized boxes stay on the integer grid.
use vstd::prelude::*;
use crate::components::{
    Ball, Intent, Paddle, Position, Shape, Vec2, Velocity, BALL_SPEED, GUTTER_HEIGHT,
    PADDLE_HEIGHT, PADDLE_SPEED,
};

verus! {

/// The side of a box on which the ball touched it.
#[derive(Clone, Copy, Debug, PartialEq, Eq, Structural)]
pub enum Collision {
    Left,
    Right,
    Top,
    Bottom,
}

pub open spec fn abs(a: int) -> int {
    if a < 0 {
        -a
    } else {
        a
    }
}

pub open spec fn sign(a: int) -> int {
    if a > 0 {
        1
    } else if a < 0 {
        -1
    } else {
        0
    }
}

pub open spec fn fits_i32(a: int) -> bool {
    i32::MIN <= a <= i32::MAX
}

/// One coordinate advanced by `velocity * speed`.
pub open spec fn step(p: int, v: int, speed: int) -> int {
    p + v * speed
}

/// The side named by the offset `(dx, dy)` from a box to a point: the larger
/// component decides the axis, and a tie counts as vertical.
pub open spec fn side_of(dx: int, dy: int) -> Collision {
    if abs(dx) > abs(dy) {
        if dx < 0 {
            Collision::Left
        } else {
            Collision::Right
        }
    } else if dy > 0 {
        Collision::Top
    } else {
        Collision::Bottom
    }
}

/// `v` raised to at least `lo`, then lowered to at most `hi`.
pub open spec fn clamp(v: int, lo: int, hi: int) -> int {
    let m = if v < lo {
        lo
    } else {
        v
    };
    if m > hi {
        hi
    } else {
        m
    }
}

/// Along one axis, in half-pixels: the offset from the point of a box
/// (centre `box_c`, full extent `size`) closest to `c`, to `c`.
pub open spec fn offset2(c: int, box_c: int, size: int) -> int {
    2 * c - clamp(2 * c, 2 * box_c - size, 2 * box_c + size)
}

/// The side on which a circle touches an axis-aligned box, or `None` where
/// they do not intersect (the closest point of the box lies outside the circle).
pub open spec fn collision_of(center: Vec2, radius: int, box_center: Vec2, box_size: Vec2) -> Option<
    Collision,
> {
    let dx = offset2(center.x as int, box_center.x as int, box_size.x as int);
    let dy = offset2(center.y as int, box_center.y as int, box_size.y as int);
    if dx * dx + dy * dy <= 4 * (radius * radius) {
        Some(side_of(dx, dy))
    } else {
        None
    }
}

/// Whether a collision reverses the horizontal (or else the vertical) velocity.
pub open spec fn hits_axis(c: Option<Collision>, horizontal: bool) -> bool {
    match c {
        Some(Collision::Left) | Some(Collision::Right) => horizontal,
        Some(Collision::Top) | Some(Collision::Bottom) => !horizontal,
        None => false,
    }
}

/// The collision of the ball with one other shaped entity.
pub open spec fn ball_collision(ball: Ball, other: (Position, Shape)) -> Option<Collision> {
    collision_of(ball.position.0, ball.shape.0.x as int, other.0.0, other.1.0)
}

/// How many of `others` reverse the ball's velocity on one axis.
pub open spec fn flips(ball: Ball, others: Seq<(Position, Shape)>, horizontal: bool) -> nat
    decreases others.len(),
{
    if others.len() == 0 {
        0
    } else {
        flips(ball, others.drop_last(), horizontal) + if hits_axis(
            ball_collision(ball, others.last()),
            horizontal,
        ) {
            1nat
        } else {
            0nat
        }
    }
}

/// `v` reversed `n` times.
pub open spec fn reflect(v: int, n: nat) -> int {
    if n % 2 == 0 {
        v
    } else {
        -v
    }
}

/// Reversing a component twice gives it back: two collisions on one axis in
/// the same tick cancel out, and the ball keeps its direction on that axis.
pub proof fn lemma_double_reflection(v: int, n: nat)
    ensures
        reflect(v, n + 2) == reflect(v, n),
        reflect(reflect(v, 1), 1) == v,
{
}

/// Meeting the same entity twice in one tick (a pathological overlap) reverses
/// the ball twice on that axis, which leaves its velocity as it was.
pub proof fn lemma_same_obstacle_twice(ball: Ball, other: (Position, Shape), horizontal: bool)
    ensures
        flips(ball, seq![other, other], horizontal) % 2 == 0,
        forall|v: int| reflect(v, flips(ball, seq![other, other], horizontal)) == v,
{
    let two = seq![other, other];
    assert(two.drop_last() =~= seq![other]);
    assert(seq![other].drop_last() =~= Seq::<(Position, Shape)>::empty());
    assert(two.last() == other);
    assert(seq![other].last() == other);
    let k: nat = if hits_axis(ball_collision(ball, other), horizontal) {
        1
    } else {
        0
    };
    assert(flips(ball, Seq::<(Position, Shape)>::empty(), horizontal) == 0);
    assert(flips(ball, seq![other], horizontal) == k);
    assert(flips(ball, two, horizontal) == 2 * k);
}

/// Measuring an offset in half-pixels names the same side as measuring it in
/// pixels.
pub proof fn lemma_side_of_scaled(dx: int, dy: int)
    ensures
        side_of(2 * dx, 2 * dy) == side_of(dx, dy),
{
}

/// The side named by an offset `(dx, dy)`.
pub fn side_of_offset(dx: i64, dy: i64) -> (r: Collision)
    ensures
        r == side_of(dx as int, dy as int),
        r == Collision::Left <==> abs(dx as int) > abs(dy as int) && dx < 0,
        r == Collision::Right <==> abs(dx as int) > abs(dy as int) && dx >= 0,
        r == Collision::Top <==> abs(dx as int) <= abs(dy as int) && dy > 0,
        r == Collision::Bottom <==> abs(dx as int) <= abs(dy as int) && dy <= 0,
{
    let ax: i128 = if dx < 0 {
        -(dx as i128)
    } else {
        dx as i128
    };
    let ay: i128 = if dy < 0 {
        -(dy as i128)
    } else {
        dy as i128
    };
    if ax > ay {
        if dx < 0 {
            Collision::Left
        } else {
            Collision::Right
        }
    } else if dy > 0 {
        Collision::Top
    } else {
        Collision::Bottom
    }
}

fn clamp_i64(v: i64, lo: i64, hi: i64) -> (r: i64)
    ensures
        r == clamp(v as int, lo as int, hi as int),
{
    let m = if v < lo {
        lo
    } else {
        v
    };
    if m > hi {
        hi
    } else {
        m
    }
}

fn offset2_exec(c: i32, box_c: i32, size: i32) -> (r: i64)
    ensures
        r == offset2(c as int, box_c as int, size as int),
        -0x4_0000_0000 < r < 0x4_0000_0000,
{
    let c2 = 2 * (c as i64);
    let b2 = 2 * (box_c as i64);
    let k = clamp_i64(c2, b2 - size as i64, b2 + size as i64);
    c2 - k
}

/// The side on which a circle (centre, radius) touches an axis-aligned box
/// (centre, full extents), or `None` where they do not intersect.
pub fn collide_with_side(center: Vec2, radius: i32, box_center: Vec2, box_size: Vec2) -> (r: Option<
    Collision,
>)
    ensures
        r == collision_of(center, radius as int, box_center, box_size),
{
    let dx = offset2_exec(center.x, box_center.x, box_size.x);
    let dy = offset2_exec(center.y, box_center.y, box_size.y);
    let dx_w = dx as i128;
    let dy_w = dy as i128;
    let r_w = radius as i128;
    proof {
        assert(0 <= dx_w * dx_w < 0x10_0000_0000_0000_0000) by (nonlinear_arith)
            requires
                -0x4_0000_0000 < dx_w < 0x4_0000_0000,
        ;
        assert(0 <= dy_w * dy_w < 0x10_0000_0000_0000_0000) by (nonlinear_arith)
            requires
                -0x4_0000_0000 < dy_w < 0x4_0000_0000,
        ;
        assert(0 <= r_w * r_w <= 0x4000_0000_0000_0000) by (nonlinear_arith)
            requires
                -0x8000_0000 <= r_w < 0x8000_0000,
        ;
    }
    if dx_w * dx_w + dy_w * dy_w <= 4 * (r_w * r_w) {
        Some(side_of_offset(dx, dy))
    } else {
        None
    }
}

/// Reverses the ball's velocity once for every other shaped entity it touches:
/// horizontally for a left or right contact, vertically for a top or bottom
/// one. The position is not corrected and the speed is kept.
pub fn handle_collisions(ball: &mut Ball, others: &[(Position, Shape)])
    requires
        old(ball).velocity.0.x != i32::MIN,
        old(ball).velocity.0.y != i32::MIN,
    ensures
        final(ball).position == old(ball).position,
        final(ball).shape == old(ball).shape,
        final(ball).velocity.0.x == reflect(
            old(ball).velocity.0.x as int,
            flips(*old(ball), others@, true),
        ),
        final(ball).velocity.0.y == reflect(
            old(ball).velocity.0.y as int,
            flips(*old(ball), others@, false),
        ),
{
    let ghost start = *ball;
    let n = others.len();
    let mut i: usize = 0;
    while i < n
        invariant
            n == others@.len(),
            0 <= i <= n,
            ball.position == start.position,
            ball.shape == start.shape,
            start.velocity.0.x != i32::MIN,
            start.velocity.0.y != i32::MIN,
            ball.velocity.0.x == reflect(
                start.velocity.0.x as int,
                flips(start, others@.take(i as int), true),
            ),
            ball.velocity.0.y == reflect(
                start.velocity.0.y as int,
                flips(start, others@.take(i as int), false),
            ),
        decreases n - i,
    {
        let (position, shape) = others[i];
        proof {
            let pre = others@.take(i as int + 1);
            assert(pre.drop_last() =~= others@.take(i as int));
            assert(pre.last() == others@[i as int]);
        }
        match collide_with_side(ball.position.0, ball.shape.0.x, position.0, shape.0) {
            Some(Collision::Left) | Some(Collision::Right) => {
                ball.velocity.0.x = -ball.velocity.0.x;
            },
            Some(Collision::Top) | Some(Collision::Bottom) => {
                ball.velocity.0.y = -ball.velocity.0.y;
            },
            None => {},
        }
        i = i + 1;
    }
    assert(others@.take(n as int) =~= others@);
}

/// Advances the ball by its velocity times `BALL_SPEED`.
pub fn move_ball(ball: &mut Ball)
    requires
        fits_i32(step(old(ball).position.0.x as int, old(ball).velocity.0.x as int, BALL_SPEED as int)),
        fits_i32(step(old(ball).position.0.y as int, old(ball).velocity.0.y as int, BALL_SPEED as int)),
    ensures
        final(ball).position.0.x == step(
            old(ball).position.0.x as int,
            old(ball).velocity.0.x as int,
            BALL_SPEED as int,
        ),
        final(ball).position.0.y == step(
            old(ball).position.0.y as int,
            old(ball).velocity.0.y as int,
            BALL_SPEED as int,
        ),
        final(ball).velocity == old(ball).velocity,
        final(ball).shape == old(ball).shape,
{
    let x = ball.position.0.x as i64 + ball.velocity.0.x as i64 * BALL_SPEED as i64;
    let y = ball.position.0.y as i64 + ball.velocity.0.y as i64 * BALL_SPEED as i64;
    ball.position.0 = Vec2::new(x as i32, y as i32);
}

/// Twice the largest distance from the centre line that a paddle's centre may
/// reach in a field of the given height.
pub open spec fn paddle_limit2(window_height: int) -> int {
    window_height - 2 * GUTTER_HEIGHT - PADDLE_HEIGHT
}

/// Where a paddle would be after one tick, before the boundary check.
pub open spec fn paddle_candidate(p: Paddle) -> (int, int) {
    (
        step(p.position.0.x as int, p.velocity.0.x as int, PADDLE_SPEED as int),
        step(p.position.0.y as int, p.velocity.0.y as int, PADDLE_SPEED as int),
    )
}

/// A paddle moves to its candidate only when the candidate's `|y|` stays
/// strictly below `window_height / 2 - GUTTER_HEIGHT - PADDLE_HEIGHT / 2`.
pub open spec fn paddle_moves(p: Paddle, window_height: int) -> bool {
    2 * abs(paddle_candidate(p).1) < paddle_limit2(window_height)
}

/// The paddle after one tick: at its candidate, or where it was.
pub open spec fn paddle_after(p: Paddle, window_height: int) -> Paddle {
    if paddle_moves(p, window_height) {
        Paddle {
            position: Position(
                Vec2 { x: paddle_candidate(p).0 as i32, y: paddle_candidate(p).1 as i32 },
            ),
            ..p
        }
    } else {
        p
    }
}

/// A paddle whose candidate `x` fits the grid, whichever way the check goes.
pub open spec fn paddle_in_range(p: Paddle) -> bool {
    fits_i32(paddle_candidate(p).0)
}

/// Moves one paddle by its velocity times `PADDLE_SPEED`, or leaves it where it
/// is when that would bring it to or past the boundary (it freezes, it is not
/// clamped to the edge).
pub fn move_paddle(paddle: &mut Paddle, window_height: i32)
    requires
        paddle_in_range(*old(paddle)),
    ensures
        *final(paddle) == paddle_after(*old(paddle), window_height as int),
{
    let x = paddle.position.0.x as i64 + paddle.velocity.0.x as i64 * PADDLE_SPEED as i64;
    let y = paddle.position.0.y as i64 + paddle.velocity.0.y as i64 * PADDLE_SPEED as i64;
    let ay: i64 = if y < 0 {
        -y
    } else {
        y
    };
    let limit2 = window_height as i64 - 2 * GUTTER_HEIGHT as i64 - PADDLE_HEIGHT as i64;
    if 2 * ay < limit2 {
        paddle.position.0 = Vec2::new(x as i32, y as i32);
    }
}

/// Moves every paddle as `move_paddle` does.
pub fn move_paddles(paddles: &mut Vec<Paddle>, window_height: i32)
    requires
        forall|k: int| 0 <= k < old(paddles)@.len() ==> paddle_in_range(#[trigger] old(paddles)@[k]),
    ensures
        final(paddles)@.len() == old(paddles)@.len(),
        forall|k: int|
            0 <= k < old(paddles)@.len() ==> #[trigger] final(paddles)@[k] == paddle_after(
                old(paddles)@[k],
                window_height as int,
            ),
{
    let ghost start = paddles@;
    let n = paddles.len();
    let mut i: usize = 0;
    while i < n
        invariant
            n == start.len(),
            paddles@.len() == n,
            0 <= i <= n,
            forall|k: int| 0 <= k < n ==> paddle_in_range(#[trigger] start[k]),
            forall|k: int|
                0 <= k < i ==> #[trigger] paddles@[k] == paddle_after(start[k], window_height as int),
            forall|k: int| i <= k < n ==> #[trigger] paddles@[k] == start[k],
        decreases n - i,
    {
        let mut p = paddles[i];
        move_paddle(&mut p, window_height);
        paddles[i] = p;
        i = i + 1;
    }
}

/// Points the AI paddle towards the ball: its vertical velocity becomes the
/// sign of `ball.y - paddle.y`, and exactly 0 when they are level.
pub fn move_ai(ai: &mut Paddle, ball_position: Position)
    ensures
        final(ai).velocity.0.y == sign(ball_position.0.y - old(ai).position.0.y),
        final(ai).velocity.0.x == old(ai).velocity.0.x,
        final(ai).position == old(ai).position,
        final(ai).shape == old(ai).shape,
{
    let by = ball_position.0.y;
    let py = ai.position.0.y;
    ai.velocity.0.y = if by > py {
        1
    } else if by < py {
        -1
    } else {
        0
    };
}

/// The vertical velocity that an intent asks for.
pub open spec fn intent_velocity(intent: Intent) -> int {
    match intent {
        Intent::Up => 1,
        Intent::Down => -1,
        Intent::Neutral => 0,
    }
}

/// Sets the player's paddle moving up, down or not at all.
pub fn handle_player_input(player: &mut Paddle, intent: Intent)
    ensures
        final(player).velocity.0.y == intent_velocity(intent),
        final(player).velocity.0.x == old(player).velocity.0.x,
        final(player).position == old(player).position,
        final(player).shape == old(player).shape,
{
    player.velocity.0.y = match intent {
        Intent::Up => 1,
        Intent::Down => -1,
        Intent::Neutral => 0,
    };
}

} // verus!
