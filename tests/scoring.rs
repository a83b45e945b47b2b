use pong::components::{Ball, Position, Vec2};
use pong::scoring::{detect_scoring, reset_ball, update_score, Score, Scored, Scorer};

#[test]
fn scoring_boundary() {
    assert_eq!(detect_scoring(Position(Vec2::new(401, 0)), 800), Some(Scored(Scorer::AI)));
    assert_eq!(detect_scoring(Position(Vec2::new(-401, 0)), 800), Some(Scored(Scorer::Player)));
    assert_eq!(detect_scoring(Position(Vec2::new(399, 0)), 800), None);
    assert_eq!(detect_scoring(Position(Vec2::new(400, 0)), 800), None);
    assert_eq!(detect_scoring(Position(Vec2::new(-400, 5)), 800), None);
}

#[test]
fn scoring_boundary_odd_width() {
    assert_eq!(detect_scoring(Position(Vec2::new(401, 0)), 801), Some(Scored(Scorer::AI)));
    assert_eq!(detect_scoring(Position(Vec2::new(400, 0)), 801), None);
}

#[test]
fn reset_after_ai_scores() {
    let mut b = Ball::new(1, 0);
    b.position = Position(Vec2::new(405, 12));
    reset_ball(&mut b, &[Scored(Scorer::AI)]);
    assert_eq!(b.position.0, Vec2::new(0, 0));
    assert_eq!(b.velocity.0, Vec2::new(-1, 1));
}

#[test]
fn reset_after_player_scores() {
    let mut b = Ball::new(-1, 1);
    b.position = Position(Vec2::new(-405, -3));
    reset_ball(&mut b, &[Scored(Scorer::Player)]);
    assert_eq!(b.position.0, Vec2::new(0, 0));
    assert_eq!(b.velocity.0, Vec2::new(1, 1));
}

#[test]
fn reset_without_events_keeps_ball() {
    let mut b = Ball::new(1, -1);
    b.position = Position(Vec2::new(40, 50));
    let before = b;
    reset_ball(&mut b, &[]);
    assert_eq!(b, before);
}

#[test]
fn score_counts_events() {
    let mut s = Score::new();
    assert_eq!(s, Score { player: 0, ai: 0 });
    let events = [
        Scored(Scorer::AI),
        Scored(Scorer::Player),
        Scored(Scorer::AI),
        Scored(Scorer::AI),
    ];
    update_score(&mut s, &events);
    assert_eq!(s, Score { player: 1, ai: 3 });
    update_score(&mut s, &[Scored(Scorer::Player)]);
    assert_eq!(s, Score { player: 2, ai: 3 });
    update_score(&mut s, &[]);
    assert_eq!(s, Score { player: 2, ai: 3 });
}
