//! The scoring state machine: detecting a ball that left the field, putting
//! it back in play, and counting points.
use vstd::prelude::*;
use crate::components::{Ball, Position, Vec2};

verus! {

/// The side credited with a point.
#[derive(Clone, Copy, Debug, PartialEq, Eq, Structural)]
pub enum Scorer {
    AI,
    Player,
}

/// The event raised when the ball leaves the field.
#[derive(Clone, Copy, Debug, PartialEq, Eq, Structural)]
pub struct Scored(pub Scorer);

/// Points of each side.
#[derive(Clone, Copy, Debug, PartialEq, Eq, Structural)]
pub struct Score {
    pub player: u32,
    pub ai: u32,
}

impl Score {
    /// A score of nothing to nothing.
    pub fn new() -> (r: Score)
        ensures
            r.player == 0,
            r.ai == 0,
    {
        Score { player: 0, ai: 0 }
    }
}

/// Who scores with the ball at `x` on a field `width` wide: the AI once the
/// ball is past the right edge (`x > width / 2`), the player once it is past
/// the left one (`x < -width / 2`).
pub open spec fn scoring_of(x: int, width: int) -> Option<Scored> {
    if 2 * x > width {
        Some(Scored(Scorer::AI))
    } else if 2 * x < -width {
        Some(Scored(Scorer::Player))
    } else {
        None
    }
}

/// Checks whether the ball has left the field; at most one event per tick.
pub fn detect_scoring(ball_position: Position, window_width: i32) -> (r: Option<Scored>)
    ensures
        r == scoring_of(ball_position.0.x as int, window_width as int),
{
    let x2 = 2 * (ball_position.0.x as i64);
    let w = window_width as i64;
    if x2 > w {
        Some(Scored(Scorer::AI))
    } else if x2 < -w {
        Some(Scored(Scorer::Player))
    } else {
        None
    }
}

/// The velocity a ball is relaunched with: towards the side that was scored
/// against.
pub open spec fn seed_velocity(s: Scorer) -> Vec2 {
    match s {
        Scorer::AI => Vec2 { x: -1i32, y: 1i32 },
        Scorer::Player => Vec2 { x: 1i32, y: 1i32 },
    }
}

/// The ball after one point was scored: at the origin, with the seed velocity.
pub open spec fn ball_after_point(ball: Ball, s: Scored) -> Ball {
    Ball {
        position: Position(Vec2 { x: 0, y: 0 }),
        velocity: crate::components::Velocity(seed_velocity(s.0)),
        ..ball
    }
}

/// The ball after each of `events`, in order.
pub open spec fn ball_after_events(ball: Ball, events: Seq<Scored>) -> Ball
    decreases events.len(),
{
    if events.len() == 0 {
        ball
    } else {
        ball_after_point(ball_after_events(ball, events.drop_last()), events.last())
    }
}

/// Puts the ball back at the centre for every pending event, in order.
pub fn reset_ball(ball: &mut Ball, events: &[Scored])
    ensures
        *final(ball) == ball_after_events(*old(ball), events@),
        final(ball).shape == old(ball).shape,
{
    let ghost start = *ball;
    let n = events.len();
    let mut i: usize = 0;
    while i < n
        invariant
            n == events@.len(),
            0 <= i <= n,
            *ball == ball_after_events(start, events@.take(i as int)),
            ball.shape == start.shape,
        decreases n - i,
    {
        proof {
            let pre = events@.take(i as int + 1);
            assert(pre.drop_last() =~= events@.take(i as int));
            assert(pre.last() == events@[i as int]);
        }
        match events[i].0 {
            Scorer::AI => {
                ball.position.0 = Vec2::new(0, 0);
                ball.velocity.0 = Vec2::new(-1, 1);
            },
            Scorer::Player => {
                ball.position.0 = Vec2::new(0, 0);
                ball.velocity.0 = Vec2::new(1, 1);
            },
        }
        i = i + 1;
    }
    assert(events@.take(n as int) =~= events@);
}

/// How many of `events` credit `side`.
pub open spec fn count_for(events: Seq<Scored>, side: Scorer) -> nat
    decreases events.len(),
{
    if events.len() == 0 {
        0
    } else {
        count_for(events.drop_last(), side) + if events.last().0 == side {
            1nat
        } else {
            0nat
        }
    }
}

/// The score after `events` are counted.
pub open spec fn score_after(score: Score, events: Seq<Scored>) -> (int, int) {
    (
        score.player + count_for(events, Scorer::Player),
        score.ai + count_for(events, Scorer::AI),
    )
}

/// Whether counting `events` keeps both counters within `u32`.
pub open spec fn score_fits(score: Score, events: Seq<Scored>) -> bool {
    score_after(score, events).0 <= u32::MAX && score_after(score, events).1 <= u32::MAX
}

proof fn lemma_count_concat(a: Seq<Scored>, b: Seq<Scored>, side: Scorer)
    ensures
        count_for(a + b, side) == count_for(a, side) + count_for(b, side),
    decreases b.len(),
{
    if b.len() == 0 {
        assert(a + b =~= a);
    } else {
        lemma_count_concat(a, b.drop_last(), side);
        assert((a + b).drop_last() =~= a + b.drop_last());
        assert((a + b).last() == b.last());
    }
}

/// Counting two batches of events one after the other gives the score of
/// counting them together; no counter ever goes down.
pub proof fn lemma_score_accumulates(score: Score, a: Seq<Scored>, b: Seq<Scored>)
    requires
        score_fits(score, a),
    ensures
        score_after(score, a).0 >= score.player,
        score_after(score, a).1 >= score.ai,
        score_after(
            Score { player: score_after(score, a).0 as u32, ai: score_after(score, a).1 as u32 },
            b,
        ) == score_after(score, a + b),
{
    lemma_count_concat(a, b, Scorer::Player);
    lemma_count_concat(a, b, Scorer::AI);
}

/// From nothing to nothing, the score counts the player's events and the
/// AI's events.
pub proof fn lemma_score_from_zero(events: Seq<Scored>)
    ensures
        score_after(Score { player: 0, ai: 0 }, events) == (
            count_for(events, Scorer::Player) as int,
            count_for(events, Scorer::AI) as int,
        ),
{
}

proof fn lemma_count_prefix(events: Seq<Scored>, i: int, side: Scorer)
    requires
        0 <= i <= events.len(),
    ensures
        count_for(events.take(i), side) <= count_for(events, side),
    decreases events.len() - i,
{
    if i < events.len() {
        lemma_count_prefix(events, i + 1, side);
        let pre = events.take(i + 1);
        assert(pre.drop_last() =~= events.take(i));
    } else {
        assert(events.take(i) =~= events);
    }
}

/// Adds one point to the side that each pending event credits.
pub fn update_score(score: &mut Score, events: &[Scored])
    requires
        score_fits(*old(score), events@),
    ensures
        (final(score).player as int, final(score).ai as int) == score_after(*old(score), events@),
{
    let ghost start = *score;
    let n = events.len();
    let mut i: usize = 0;
    while i < n
        invariant
            n == events@.len(),
            0 <= i <= n,
            score_fits(start, events@),
            (score.player as int, score.ai as int) == score_after(start, events@.take(i as int)),
        decreases n - i,
    {
        proof {
            let pre = events@.take(i as int + 1);
            assert(pre.drop_last() =~= events@.take(i as int));
            assert(pre.last() == events@[i as int]);
            lemma_count_prefix(events@, i as int + 1, Scorer::Player);
            lemma_count_prefix(events@, i as int + 1, Scorer::AI);
        }
        match events[i].0 {
            Scorer::AI => {
                score.ai = score.ai + 1;
            },
            Scorer::Player => {
                score.player = score.player + 1;
            },
        }
        i = i + 1;
    }
    assert(events@.take(n as int) =~= events@);
}

} // verus!
