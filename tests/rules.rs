use pong::control::{next_step, steer, Key, Phase, Step, Steer, PADDLE_SPEED, QUIT_KEY};
use pong::geometry::{Cell, Paddle};
use pong::render::{compose_frame, fits_rows, paddle_glyphs, Glyph, BALL_SYMBOL, PADDLE_SYMBOL};
use pong::rules::{outcome, Arena, Outcome, Score, Side};

fn table() -> (Paddle, Paddle, Arena) {
    (Paddle::new(0, 8, 8), Paddle::new(79, 8, 8), Arena::new(80, 24))
}

#[test]
fn is_within_covers_rows_top_to_below_top_plus_height() {
    let p = Paddle::new(3, 5, 4);
    assert!(p.is_within(&Cell::new(3, 5)));
    assert!(p.is_within(&Cell::new(3, 8)));
    assert!(!p.is_within(&Cell::new(3, 9)));
    assert!(!p.is_within(&Cell::new(3, 4)));
    assert!(!p.is_within(&Cell::new(2, 6)));
    assert!(!p.is_within(&Cell::new(4, 6)));
}

#[test]
fn is_within_empty_for_zero_height() {
    let p = Paddle::new(0, 5, 0);
    assert!(!p.is_within(&Cell::new(0, 5)));
}

#[test]
fn is_within_near_row_limit() {
    let p = Paddle::new(0, i32::MAX - 1, 10);
    assert!(p.is_within(&Cell::new(0, i32::MAX)));
}

#[test]
fn ball_on_player_paddle_is_returned() {
    let (p, o, a) = table();
    assert_eq!(outcome(&p, &o, &Cell::new(0, 10), &a), Outcome::Return(Side::Player));
}

#[test]
fn ball_on_opponent_paddle_is_returned() {
    let (p, o, a) = table();
    assert_eq!(outcome(&p, &o, &Cell::new(79, 15), &a), Outcome::Return(Side::Opponent));
}

#[test]
fn paddle_takes_precedence_over_goal() {
    let (p, o, a) = table();
    let p = Paddle::new(0, 0, 8);
    assert_eq!(outcome(&p, &o, &Cell::new(0, 0), &a), Outcome::Return(Side::Player));
}

#[test]
fn top_and_bottom_walls_bounce() {
    let (p, o, a) = table();
    assert_eq!(outcome(&p, &o, &Cell::new(10, 0), &a), Outcome::WallBounce { normal_y: 1 });
    assert_eq!(outcome(&p, &o, &Cell::new(10, -3), &a), Outcome::WallBounce { normal_y: 1 });
    assert_eq!(outcome(&p, &o, &Cell::new(10, 24), &a), Outcome::WallBounce { normal_y: -1 });
}

#[test]
fn wall_takes_precedence_over_goal() {
    let (p, o, a) = table();
    assert_eq!(outcome(&p, &o, &Cell::new(0, 0), &a), Outcome::WallBounce { normal_y: 1 });
}

#[test]
fn ball_in_open_field_is_in_play() {
    let (p, o, a) = table();
    assert_eq!(outcome(&p, &o, &Cell::new(40, 12), &a), Outcome::InPlay);
}

#[test]
fn left_exit_scores_one_for_opponent() {
    let (p, o, a) = table();
    let out = outcome(&p, &o, &Cell::new(0, 3), &a);
    assert_eq!(out, Outcome::Serve { scorer: Side::Opponent, center: Cell::new(40, 12) });
    let mut s = Score { player: 4, opponent: 2 };
    s.award(&out);
    assert_eq!(s, Score { player: 4, opponent: 3 });
}

#[test]
fn right_exit_scores_one_for_player() {
    let (p, o, a) = table();
    let out = outcome(&p, &o, &Cell::new(81, 20), &a);
    assert_eq!(out, Outcome::Serve { scorer: Side::Player, center: Cell::new(40, 12) });
    let mut s = Score::new();
    s.award(&out);
    assert_eq!(s, Score { player: 1, opponent: 0 });
}

#[test]
fn center_rounds_down() {
    assert_eq!(Arena::new(79, 23).center(), Cell::new(39, 11));
    assert_eq!(Arena::new(0, 1).center(), Cell::new(0, 0));
}

#[test]
fn no_point_without_serve() {
    let mut s = Score { player: 7, opponent: 9 };
    s.award(&Outcome::InPlay);
    s.award(&Outcome::WallBounce { normal_y: -1 });
    s.award(&Outcome::Return(Side::Opponent));
    assert_eq!(s, Score { player: 7, opponent: 9 });
}

#[test]
fn no_room_for_a_point_past_i32_max() {
    let s = Score { player: i32::MAX, opponent: 0 };
    let center = Cell::new(1, 1);
    assert!(!s.can_award(&Outcome::Serve { scorer: Side::Player, center }));
    assert!(s.can_award(&Outcome::Serve { scorer: Side::Opponent, center }));
    assert!(s.can_award(&Outcome::InPlay));
}

#[test]
fn keys_steer_paddles() {
    assert_eq!(PADDLE_SPEED, 10);
    assert_eq!(steer(Some(Key::Up)), Some(Steer { side: Side::Opponent, rate: -10 }));
    assert_eq!(steer(Some(Key::Down)), Some(Steer { side: Side::Opponent, rate: 10 }));
    assert_eq!(steer(Some(Key::Char('a'))), Some(Steer { side: Side::Player, rate: 10 }));
    assert_eq!(steer(Some(Key::Char('q'))), Some(Steer { side: Side::Player, rate: -10 }));
    assert_eq!(steer(Some(Key::Char('x'))), None);
    assert_eq!(steer(Some(Key::Other)), None);
    assert_eq!(steer(None), None);
}

#[test]
fn quit_key_stops_the_loop_for_good() {
    assert_eq!(QUIT_KEY, 'x');
    let mut phase = Phase::Running;
    assert_eq!(next_step(&mut phase, None), Step::Frame);
    assert_eq!(next_step(&mut phase, Some(Key::Char('q'))), Step::Frame);
    assert_eq!(phase, Phase::Running);
    assert_eq!(next_step(&mut phase, Some(Key::Char('x'))), Step::Stop);
    assert_eq!(phase, Phase::Terminated);
    assert_eq!(next_step(&mut phase, Some(Key::Up)), Step::Stop);
    assert_eq!(phase, Phase::Terminated);
}

#[test]
fn paddle_is_a_vertical_run() {
    let g = paddle_glyphs(&Paddle::new(5, 2, 3));
    assert_eq!(
        g,
        vec![
            Glyph { row: 2, col: 5, symbol: PADDLE_SYMBOL },
            Glyph { row: 3, col: 5, symbol: PADDLE_SYMBOL },
            Glyph { row: 4, col: 5, symbol: PADDLE_SYMBOL },
        ]
    );
    assert!(paddle_glyphs(&Paddle::new(5, 2, 0)).is_empty());
    assert!(paddle_glyphs(&Paddle::new(5, 2, -4)).is_empty());
}

#[test]
fn rows_must_fit() {
    assert!(fits_rows(&Paddle::new(0, i32::MAX, 1)));
    assert!(!fits_rows(&Paddle::new(0, i32::MAX, 2)));
}

#[test]
fn frame_shows_ball_paddles_and_score() {
    let p = Paddle::new(0, 1, 2);
    let o = Paddle::new(9, 3, 1);
    let a = Arena::new(10, 6);
    let s = Score { player: 12, opponent: -3 };
    let f = compose_frame(&Cell::new(4, 2), &p, &o, &a, &s);
    assert_eq!(
        f.glyphs,
        vec![
            Glyph { row: 2, col: 4, symbol: BALL_SYMBOL },
            Glyph { row: 1, col: 0, symbol: '#' },
            Glyph { row: 2, col: 0, symbol: '#' },
            Glyph { row: 3, col: 9, symbol: '#' },
        ]
    );
    assert_eq!(BALL_SYMBOL, 'O');
    assert_eq!(f.captions.len(), 2);
    assert_eq!((f.captions[0].row, f.captions[0].col), (4, 0));
    assert_eq!(f.captions[0].text, "Left: 12");
    assert_eq!((f.captions[1].row, f.captions[1].col), (5, 0));
    assert_eq!(f.captions[1].text, "Right: -3");
}

#[test]
fn fresh_score_frame_reads_zero() {
    let (p, o, a) = table();
    let f = compose_frame(&Cell::new(7, 2), &p, &o, &a, &Score::new());
    assert_eq!(f.captions[0].text, "Left: 0");
    assert_eq!(f.captions[1].text, "Right: 0");
    assert_eq!(f.glyphs.len(), 17);
}
