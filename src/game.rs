//! The whole simulation state, and one tick of it as an ordered pipeline:
//! input, paddles, ball, collisions, AI, scoring.
use vstd::prelude::*;
use crate::components::{
    Ball, Gutter, Intent, Paddle, Position, Shape, Vec2, Velocity, Window, BALL_SPEED,
    GUTTER_HEIGHT,
};
use crate::movement::{
    flips, handle_collisions, handle_player_input, intent_velocity, move_ai, move_ball,
    move_paddle, paddle_after, reflect, sign, step,
};
use crate::scoring::{
    ball_after_events, count_for, detect_scoring, reset_ball, score_after, scoring_of,
    update_score, Score, Scored, Scorer,
};
use crate::setup::{spawn_ball, spawn_gutters, spawn_paddles, window_ok, PADDLE_PADDING};

verus! {

/// Everything that changes during play, in typed slots.
#[derive(Clone, Copy, Debug, PartialEq, Eq, Structural)]
pub struct Game {
    pub ball: Ball,
    pub player: Paddle,
    pub ai: Paddle,
    pub top_gutter: Gutter,
    pub bottom_gutter: Gutter,
    pub score: Score,
}

pub open spec fn unit(v: Vec2) -> bool {
    -1 <= v.x <= 1 && -1 <= v.y <= 1
}

/// The ball after integration.
pub open spec fn ball_moved(b: Ball) -> Ball {
    Ball {
        position: Position(
            Vec2 {
                x: step(b.position.0.x as int, b.velocity.0.x as int, BALL_SPEED as int) as i32,
                y: step(b.position.0.y as int, b.velocity.0.y as int, BALL_SPEED as int) as i32,
            },
        ),
        ..b
    }
}

/// The ball after its collisions with `others`.
pub open spec fn ball_collided(b: Ball, others: Seq<(Position, Shape)>) -> Ball {
    Ball {
        velocity: Velocity(
            Vec2 {
                x: reflect(b.velocity.0.x as int, flips(b, others, true)) as i32,
                y: reflect(b.velocity.0.y as int, flips(b, others, false)) as i32,
            },
        ),
        ..b
    }
}

/// A paddle whose vertical velocity was set to `vy`.
pub open spec fn with_vertical_velocity(p: Paddle, vy: int) -> Paddle {
    Paddle { velocity: Velocity(Vec2 { y: vy as i32, ..p.velocity.0 }), ..p }
}

/// The paddles after their move, if the field's size is known.
pub open spec fn paddle_moved(p: Paddle, window: Option<Window>) -> Paddle {
    match window {
        Some(w) => paddle_after(p, w.height as int),
        None => p,
    }
}

/// The shaped entities the ball can bounce off.
pub open spec fn obstacles(player: Paddle, ai: Paddle, top: Gutter, bottom: Gutter) -> Seq<
    (Position, Shape),
> {
    seq![(player.position, player.shape), (ai.position, ai.shape), (top.position, top.shape), (bottom.position, bottom.shape)]
}

/// The event of a tick, if the field's size is known.
pub open spec fn tick_event(b: Ball, window: Option<Window>) -> Option<Scored> {
    match window {
        Some(w) => scoring_of(b.position.0.x as int, w.width as int),
        None => None,
    }
}

pub open spec fn event_seq(e: Option<Scored>) -> Seq<Scored> {
    match e {
        Some(s) => seq![s],
        None => Seq::empty(),
    }
}

/// The game after one tick, and the event that the tick raised.
pub open spec fn game_after_tick(g: Game, intent: Intent, window: Option<Window>) -> (Game, Option<
    Scored,
>) {
    let player = paddle_moved(with_vertical_velocity(g.player, intent_velocity(intent)), window);
    let ai = paddle_moved(g.ai, window);
    let ball = ball_collided(
        ball_moved(g.ball),
        obstacles(player, ai, g.top_gutter, g.bottom_gutter),
    );
    let ai = with_vertical_velocity(ai, sign(ball.position.0.y - ai.position.0.y));
    let event = tick_event(ball, window);
    let score = score_after(g.score, event_seq(event));
    (
        Game {
            ball: ball_after_events(ball, event_seq(event)),
            player,
            ai,
            score: Score { player: score.0 as u32, ai: score.1 as u32 },
            ..g
        },
        event,
    )
}

/// Whether a coordinate can move by one speed step either way.
pub open spec fn roomy(a: int) -> bool {
    i32::MIN + 10 <= a <= i32::MAX - 10
}

impl Game {
    /// Every velocity in play is a unit direction.
    pub open spec fn wf(&self) -> bool {
        unit(self.ball.velocity.0) && unit(self.player.velocity.0) && unit(self.ai.velocity.0)
    }

    /// What one tick needs of the machine: room to move, and room to count.
    pub open spec fn in_range(&self) -> bool {
        &&& roomy(self.ball.position.0.x as int)
        &&& roomy(self.ball.position.0.y as int)
        &&& roomy(self.player.position.0.x as int)
        &&& roomy(self.ai.position.0.x as int)
        &&& self.score.player < u32::MAX
        &&& self.score.ai < u32::MAX
    }

    /// A new game on a field of the given size: the entity set of `setup`,
    /// and a score of nothing to nothing.
    pub fn new(window: Window) -> (r: Game)
        requires
            window_ok(window),
        ensures
            r.wf(),
            r.ball == Ball::new_spec(1i32, -1i32),
            r.player == Paddle::new_spec((window.width / 2 - PADDLE_PADDING) as i32, 0),
            r.ai == Paddle::new_spec((-(window.width / 2) + PADDLE_PADDING) as i32, 0),
            r.top_gutter == Gutter::new_spec(
                0,
                (window.height / 2 - GUTTER_HEIGHT / 2) as i32,
                window.width,
            ),
            r.bottom_gutter == Gutter::new_spec(
                0,
                (-(window.height / 2) + GUTTER_HEIGHT / 2) as i32,
                window.width,
            ),
            r.score == (Score { player: 0, ai: 0 }),
    {
        let (player, ai) = spawn_paddles(window);
        let (top_gutter, bottom_gutter) = spawn_gutters(window);
        Game { ball: spawn_ball(), player, ai, top_gutter, bottom_gutter, score: Score::new() }
    }

    /// Runs one tick: the player's intent sets its paddle's velocity; the
    /// paddles move (when the field's size is known); the ball moves and
    /// bounces off the paddles and gutters; the AI paddle turns towards the
    /// ball; and a ball that left the field is put back and the point counted.
    /// Returns the tick's scoring event, if any.
    pub fn tick(&mut self, intent: Intent, window: Option<Window>) -> (r: Option<Scored>)
        requires
            old(self).wf(),
            old(self).in_range(),
        ensures
            final(self).wf(),
            (*final(self), r) == game_after_tick(*old(self), intent, window),
            final(self).ball.shape == old(self).ball.shape,
            final(self).player.shape == old(self).player.shape,
            final(self).ai.shape == old(self).ai.shape,
            final(self).top_gutter == old(self).top_gutter,
            final(self).bottom_gutter == old(self).bottom_gutter,
            final(self).score.player >= old(self).score.player,
            final(self).score.ai >= old(self).score.ai,
    {
        handle_player_input(&mut self.player, intent);
        if let Some(w) = window {
            move_paddle(&mut self.player, w.height);
            move_paddle(&mut self.ai, w.height);
        }
        move_ball(&mut self.ball);
        let others: Vec<(Position, Shape)> = vec![
            (self.player.position, self.player.shape),
            (self.ai.position, self.ai.shape),
            (self.top_gutter.position, self.top_gutter.shape),
            (self.bottom_gutter.position, self.bottom_gutter.shape),
        ];
        assert(others@ =~= obstacles(self.player, self.ai, self.top_gutter, self.bottom_gutter));
        handle_collisions(&mut self.ball, others.as_slice());
        move_ai(&mut self.ai, self.ball.position);
        let event = match window {
            Some(w) => detect_scoring(self.ball.position, w.width),
            None => None,
        };
        let mut events: Vec<Scored> = Vec::new();
        if let Some(e) = event {
            events.push(e);
        }
        assert(events@ =~= event_seq(event));
        proof {
            if events@.len() == 1 {
                assert(events@.drop_last() =~= Seq::<Scored>::empty());
                assert(count_for(events@.drop_last(), Scorer::Player) == 0);
                assert(count_for(events@.drop_last(), Scorer::AI) == 0);
            }
            assert(count_for(events@, Scorer::Player) <= 1);
            assert(count_for(events@, Scorer::AI) <= 1);
        }
        reset_ball(&mut self.ball, events.as_slice());
        update_score(&mut self.score, events.as_slice());
        event
    }
}

} // verus!
