use pong::components::{Ball, Gutter, Intent, Paddle, Position, Vec2, Velocity, Window};
use pong::game::Game;
use pong::scoring::{Score, Scored, Scorer};
use pong::setup::{spawn_ball, spawn_gutters, spawn_paddles};

const FIELD: Window = Window { width: 800, height: 600 };

#[test]
fn setup_places_entities() {
    assert_eq!(spawn_ball(), Ball::new(1, -1));
    assert_eq!(spawn_ball().position.0, Vec2::new(0, 0));
    let (player, ai) = spawn_paddles(FIELD);
    assert_eq!(player, Paddle::new(350, 0));
    assert_eq!(ai, Paddle::new(-350, 0));
    let (top, bottom) = spawn_gutters(FIELD);
    assert_eq!(top, Gutter::new(0, 290, 800));
    assert_eq!(bottom, Gutter::new(0, -290, 800));
    assert_eq!(top.shape.0, Vec2::new(800, 20));
}

#[test]
fn new_game_starts_at_zero() {
    let g = Game::new(FIELD);
    assert_eq!(g.score, Score { player: 0, ai: 0 });
    assert_eq!(g.ball.velocity.0, Vec2::new(1, -1));
    assert_eq!(g.player.position.0, Vec2::new(350, 0));
    assert_eq!(g.ai.position.0, Vec2::new(-350, 0));
}

#[test]
fn tick_moves_ball_and_steers() {
    let mut g = Game::new(FIELD);
    let e = g.tick(Intent::Up, Some(FIELD));
    assert_eq!(e, None);
    assert_eq!(g.ball.position.0, Vec2::new(10, -10));
    assert_eq!(g.player.position.0, Vec2::new(350, 10));
    assert_eq!(g.player.velocity.0.y, 1);
    // the AI paddle had no velocity yet, and now heads towards the ball
    assert_eq!(g.ai.position.0, Vec2::new(-350, 0));
    assert_eq!(g.ai.velocity.0.y, -1);
    g.tick(Intent::Neutral, Some(FIELD));
    assert_eq!(g.ai.position.0, Vec2::new(-350, -10));
    assert_eq!(g.player.position.0, Vec2::new(350, 10));
}

#[test]
fn tick_without_field_skips_paddles_and_scoring() {
    let mut g = Game::new(FIELD);
    g.ball.position = Position(Vec2::new(395, 0));
    g.ball.velocity = Velocity(Vec2::new(1, 0));
    let e = g.tick(Intent::Down, None);
    assert_eq!(e, None);
    assert_eq!(g.ball.position.0, Vec2::new(405, 0));
    assert_eq!(g.player.position.0, Vec2::new(350, 0));
    assert_eq!(g.score, Score { player: 0, ai: 0 });
}

#[test]
fn tick_scores_and_resets() {
    let mut g = Game::new(FIELD);
    g.ball.position = Position(Vec2::new(395, 100));
    g.ball.velocity = Velocity(Vec2::new(1, 0));
    let e = g.tick(Intent::Neutral, Some(FIELD));
    assert_eq!(e, Some(Scored(Scorer::AI)));
    assert_eq!(g.ball.position.0, Vec2::new(0, 0));
    assert_eq!(g.ball.velocity.0, Vec2::new(-1, 1));
    assert_eq!(g.score, Score { player: 0, ai: 1 });

    g.ball.position = Position(Vec2::new(-395, 100));
    g.ball.velocity = Velocity(Vec2::new(-1, 0));
    let e = g.tick(Intent::Neutral, Some(FIELD));
    assert_eq!(e, Some(Scored(Scorer::Player)));
    assert_eq!(g.ball.velocity.0, Vec2::new(1, 1));
    assert_eq!(g.score, Score { player: 1, ai: 1 });
}

#[test]
fn tick_bounces_off_paddle() {
    let mut g = Game::new(FIELD);
    g.ball.position = Position(Vec2::new(325, 0));
    g.ball.velocity = Velocity(Vec2::new(1, 1));
    g.tick(Intent::Neutral, Some(FIELD));
    assert_eq!(g.ball.position.0, Vec2::new(335, 10));
    assert_eq!(g.ball.velocity.0, Vec2::new(-1, 1));
}

#[test]
fn tick_bounces_off_gutter() {
    let mut g = Game::new(FIELD);
    g.ball.position = Position(Vec2::new(0, 265));
    g.ball.velocity = Velocity(Vec2::new(1, 1));
    g.tick(Intent::Neutral, Some(FIELD));
    assert_eq!(g.ball.position.0, Vec2::new(10, 275));
    assert_eq!(g.ball.velocity.0, Vec2::new(1, -1));
}
