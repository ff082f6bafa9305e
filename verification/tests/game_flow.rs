use pong::entities::Ball;
use pong::game::{GameState, ScoreEvent, TickInput, Winner};
use pong::mode::Mode;
use pong::rect::Rect;

fn no_keys() -> TickInput {
    TickInput { left_down: false, left_up: false, right_down: false, right_up: false }
}

#[test]
fn mode_tokens_parse_case_insensitively() {
    assert_eq!(pong::mode::parse_mode("s"), Some(Mode::Single));
    assert_eq!(pong::mode::parse_mode("S"), Some(Mode::Single));
    assert_eq!(pong::mode::parse_mode("1"), Some(Mode::Single));
    assert_eq!(pong::mode::parse_mode("single"), Some(Mode::Single));
    assert_eq!(pong::mode::parse_mode("SINGLE"), Some(Mode::Single));
    assert_eq!(pong::mode::parse_mode("SinglePlayer"), Some(Mode::Single));
    assert_eq!(pong::mode::parse_mode("m"), Some(Mode::Multi));
    assert_eq!(pong::mode::parse_mode("2"), Some(Mode::Multi));
    assert_eq!(pong::mode::parse_mode("Multi"), Some(Mode::Multi));
    assert_eq!(pong::mode::parse_mode("MULTIPLAYER"), Some(Mode::Multi));
    assert_eq!(pong::mode::parse_mode("b"), Some(Mode::Bots));
    assert_eq!(pong::mode::parse_mode("B"), Some(Mode::Bots));
    assert_eq!(pong::mode::parse_mode("0"), Some(Mode::Bots));
    assert_eq!(pong::mode::parse_mode("BotFight"), Some(Mode::Bots));
}

#[test]
fn mode_rejects_everything_else() {
    assert_eq!(pong::mode::parse_mode(""), None);
    assert_eq!(pong::mode::parse_mode("x"), None);
    assert_eq!(pong::mode::parse_mode("singleplayerz"), None);
    assert_eq!(pong::mode::parse_mode("3"), None);
    assert_eq!(pong::mode::parse_mode("bot fight"), None);
}

#[test]
fn new_game_spawns_at_standard_positions() {
    let s = GameState::new(Mode::Multi);
    assert!(s.is_wf());
    let l = s.players[0].texture;
    let r = s.players[1].texture;
    assert_eq!((l.x, l.y, l.w, l.h), (100, 350, 15, 100));
    assert_eq!((r.x, r.y, r.w, r.h), (700, 350, 15, 100));
    assert_eq!((s.ball.texture.x, s.ball.texture.y), (400, 400));
    assert_eq!((s.ball.texture.w, s.ball.texture.h), (15, 15));
    assert_eq!(s.ball.velocity, (10, 10));
    assert_eq!((s.players[0].score, s.players[1].score), (0, 0));
}

#[test]
fn is_wf_rejects_degenerate_velocity() {
    let mut s = GameState::new(Mode::Multi);
    s.ball.velocity = (0, 10);
    assert!(!s.is_wf());
}

#[test]
fn right_score_resets_ball_to_top_center() {
    let mut s = GameState::new(Mode::Bots);
    s.ball = Ball { texture: Rect::new(0, 320, 15, 15), velocity: (-10, 10) };
    let ev = s.apply_scoring();
    assert_eq!(ev, ScoreEvent::RightScored);
    assert_eq!((s.ball.texture.x, s.ball.texture.y), (400, 0));
    assert_eq!(s.ball.velocity, (10, 10));
    assert_eq!((s.players[0].score, s.players[1].score), (0, 1));
}

#[test]
fn left_score_resets_ball_to_bottom_center() {
    let mut s = GameState::new(Mode::Bots);
    s.ball = Ball { texture: Rect::new(785, 320, 15, 15), velocity: (10, 10) };
    let ev = s.apply_scoring();
    assert_eq!(ev, ScoreEvent::LeftScored);
    assert_eq!((s.ball.texture.x, s.ball.texture.y), (400, 785));
    assert_eq!(s.ball.velocity, (-10, -10));
    assert_eq!((s.players[0].score, s.players[1].score), (1, 0));
}

#[test]
fn mid_field_ball_scores_nothing() {
    let mut s = GameState::new(Mode::Bots);
    let before = s.clone();
    let ev = s.apply_scoring();
    assert_eq!(ev, ScoreEvent::NoScore);
    assert_eq!(s, before);
}

#[test]
fn tick_without_input_moves_only_the_ball() {
    let mut s = GameState::new(Mode::Multi);
    let ev = s.tick(no_keys());
    assert_eq!(ev, ScoreEvent::NoScore);
    assert_eq!((s.ball.texture.x, s.ball.texture.y), (410, 410));
    assert_eq!(s.players[0].texture.y, 350);
    assert_eq!(s.players[1].texture.y, 350);
    assert!(s.is_wf());
}

#[test]
fn tick_applies_held_keys_in_multi_mode() {
    let mut s = GameState::new(Mode::Multi);
    let ev = s.tick(
        TickInput { left_down: true, left_up: false, right_down: false, right_up: true },
    );
    assert_eq!(ev, ScoreEvent::NoScore);
    assert_eq!(s.players[0].texture.y, 365);
    assert_eq!(s.players[1].texture.y, 335);
}

#[test]
fn tick_ignores_right_keys_in_single_mode() {
    let mut s = GameState::new(Mode::Single);
    // Ball on the left half, scores equal: the right AI is disengaged too.
    s.ball.texture.x = 300;
    s.tick(TickInput { left_down: false, left_up: true, right_down: true, right_up: false });
    assert_eq!(s.players[0].texture.y, 335);
    assert_eq!(s.players[1].texture.y, 350);
}

#[test]
fn tick_ignores_all_keys_in_bots_mode() {
    let mut s = GameState::new(Mode::Bots);
    // Ball on the right half and inside the right paddle's dead zone:
    // neither paddle moves.
    s.ball.texture.x = 500;
    s.ball.texture.y = 393;
    s.tick(TickInput { left_down: true, left_up: true, right_down: true, right_up: true });
    assert_eq!(s.players[0].texture.y, 350);
    assert_eq!(s.players[1].texture.y, 350);
}

#[test]
fn losing_ai_engages_even_on_the_other_half() {
    let mut s = GameState::new(Mode::Bots);
    // Ball on the right half and below the left paddle's center; the left
    // paddle only reacts because it is losing.
    s.ball.texture.x = 500;
    s.ball.texture.y = 700;
    let mut p0 = s.players[0];
    p0.score = 0;
    let mut p1 = s.players[1];
    p1.score = 2;
    s.players = [p0, p1];
    s.tick(no_keys());
    assert_eq!(s.players[0].texture.y, 365);
}

#[test]
fn scores_rise_by_at_most_one_per_tick() {
    let mut s = GameState::new(Mode::Multi);
    s.ball = Ball { texture: Rect::new(-5, 320, 15, 15), velocity: (-10, 10) };
    let ev = s.tick(no_keys());
    assert_eq!(ev, ScoreEvent::RightScored);
    assert_eq!((s.players[0].score, s.players[1].score), (0, 1));
    // The reset ball then starts from the top center.
    assert_eq!((s.ball.texture.x, s.ball.texture.y), (410, 10));
}

#[test]
fn winner_reports_higher_score_or_tie() {
    assert_eq!(pong::game::winner(3, 1), Winner::LeftWins);
    assert_eq!(pong::game::winner(1, 3), Winner::RightWins);
    assert_eq!(pong::game::winner(2, 2), Winner::Tie);
    assert_eq!(pong::game::winner(0, 0), Winner::Tie);
}

#[test]
fn bots_right_paddle_converges_to_the_ball() {
    let mut s = GameState::new(Mode::Bots);
    for _ in 0..30 {
        // A ball always moving rightward from the center of the field,
        // above the right paddle's starting band.
        s.ball = Ball { texture: Rect::new(400, 200, 15, 15), velocity: (10, 10) };
        s.tick(no_keys());
    }
    let paddle_center = s.players[1].texture.y + 50;
    let ball_center = 200 + 7;
    assert!((paddle_center - ball_center).abs() <= 25);
    // The left paddle never engaged: the ball stayed on the right half and
    // the left side never fell behind.
    assert_eq!(s.players[0].texture.y, 350);
}
