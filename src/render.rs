//! What a frame shows: the ball, the two paddles and the score, as glyphs
//! and lines of text placed on cells. Composing a frame reads the game and
//! changes nothing.
use vstd::prelude::*;

use crate::geometry::{Cell, Paddle};
use crate::rules::{Arena, Score};

verus! {

pub const BALL_SYMBOL: char = 'O';

pub const PADDLE_SYMBOL: char = '#';

/// One character drawn at a cell.
#[derive(Clone, Copy, Debug, PartialEq, Eq, Structural)]
pub struct Glyph {
    pub row: i32,
    pub col: i32,
    pub symbol: char,
}

/// A line of text drawn from a cell rightwards.
#[derive(Debug)]
pub struct Caption {
    pub row: i32,
    pub col: i32,
    pub text: String,
}

/// Everything one frame draws, in drawing order, on a cleared screen.
#[derive(Debug)]
pub struct Frame {
    pub glyphs: Vec<Glyph>,
    pub captions: Vec<Caption>,
}

pub open spec fn digit_of(d: int) -> char {
    seq!['0', '1', '2', '3', '4', '5', '6', '7', '8', '9'][d]
}

/// The decimal digits of `n`, without leading zeros.
pub open spec fn digits(n: nat) -> Seq<char>
    decreases n,
{
    if n < 10 {
        seq![digit_of(n as int)]
    } else {
        digits(n / 10) + seq![digit_of((n % 10) as int)]
    }
}

/// `n` written in decimal, with a leading `-` when it is negative.
pub open spec fn decimal(n: int) -> Seq<char> {
    if n < 0 {
        seq!['-'] + digits((-n) as nat)
    } else {
        digits(n as nat)
    }
}

/// Relies on `format!` with the standard `Display` of `&str` and `i32`: the
/// label, then the number in decimal, with a `-` in front when negative.
#[verifier::external_body]
fn labelled(label: &str, value: i32) -> (r: String)
    ensures
        r@ == label@ + decimal(value as int),
{
    format!("{}{}", label, value)
}

pub open spec fn ball_glyph_spec(ball: Cell) -> Glyph {
    Glyph { row: ball.row, col: ball.col, symbol: BALL_SYMBOL }
}

/// The ball is one glyph at its cell.
pub fn ball_glyph(ball: &Cell) -> (r: Glyph)
    ensures
        r == ball_glyph_spec(*ball),
{
    Glyph { row: ball.row, col: ball.col, symbol: BALL_SYMBOL }
}

/// Every row a paddle covers is a valid `i32` row.
pub open spec fn rows_fit(p: Paddle) -> bool {
    p.top + p.height <= i32::MAX + 1
}

/// Whether every row the paddle covers is a valid `i32` row.
pub fn fits_rows(p: &Paddle) -> (r: bool)
    ensures
        r == rows_fit(*p),
{
    (p.top as i64) + (p.height as i64) <= (i32::MAX as i64) + 1
}

/// A paddle is a run of `height` glyphs down its column from its top row;
/// none at all where `height` is not positive.
pub open spec fn paddle_run(p: Paddle) -> Seq<Glyph> {
    Seq::new(
        if p.height > 0 {
            p.height as nat
        } else {
            0
        },
        |k: int| Glyph { row: (p.top + k) as i32, col: p.col, symbol: PADDLE_SYMBOL },
    )
}

/// The glyphs of a paddle, top first.
pub fn paddle_glyphs(p: &Paddle) -> (r: Vec<Glyph>)
    requires
        rows_fit(*p),
    ensures
        r@ == paddle_run(*p),
{
    let mut glyphs: Vec<Glyph> = Vec::new();
    let mut k: i32 = 0;
    while k < p.height
        invariant
            0 <= k,
            k <= p.height || k == 0,
            rows_fit(*p),
            glyphs@ == paddle_run(*p).take(k as int),
        decreases p.height - k,
    {
        glyphs.push(Glyph { row: p.top + k, col: p.col, symbol: PADDLE_SYMBOL });
        k = k + 1;
        assert(glyphs@ =~= paddle_run(*p).take(k as int));
    }
    assert(glyphs@ =~= paddle_run(*p));
    glyphs
}

pub open spec fn left_caption(arena: Arena, score: Score) -> (int, Seq<char>) {
    (arena.max_y - 2, "Left: "@ + decimal(score.player as int))
}

pub open spec fn right_caption(arena: Arena, score: Score) -> (int, Seq<char>) {
    (arena.max_y - 1, "Right: "@ + decimal(score.opponent as int))
}

/// The frame for a ball at `ball`, the two paddles and the score: the ball,
/// then the player's paddle, then the opponent's, then the player's score on
/// the next-to-last row and the opponent's on the last, both from column 0.
pub fn compose_frame(
    ball: &Cell,
    player: &Paddle,
    opponent: &Paddle,
    arena: &Arena,
    score: &Score,
) -> (r: Frame)
    requires
        arena.wf(),
        rows_fit(*player),
        rows_fit(*opponent),
    ensures
        r.glyphs@ == seq![ball_glyph_spec(*ball)] + paddle_run(*player) + paddle_run(*opponent),
        r.captions@.len() == 2,
        r.captions@[0].row == left_caption(*arena, *score).0,
        r.captions@[0].col == 0,
        r.captions@[0].text@ == left_caption(*arena, *score).1,
        r.captions@[1].row == right_caption(*arena, *score).0,
        r.captions@[1].col == 0,
        r.captions@[1].text@ == right_caption(*arena, *score).1,
{
    let mut glyphs: Vec<Glyph> = Vec::new();
    glyphs.push(ball_glyph(ball));
    let mut run = paddle_glyphs(player);
    glyphs.append(&mut run);
    let mut run = paddle_glyphs(opponent);
    glyphs.append(&mut run);
    let mut captions: Vec<Caption> = Vec::new();
    captions.push(Caption { row: arena.max_y - 2, col: 0, text: labelled("Left: ", score.player) });
    captions.push(
        Caption { row: arena.max_y - 1, col: 0, text: labelled("Right: ", score.opponent) },
    );
    Frame { glyphs, captions }
}

} // verus!
