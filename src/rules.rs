//! What happens to the ball once it has moved: a return off a paddle, a
//! bounce off a wall, a point scored, or nothing.
use vstd::prelude::*;

use crate::geometry::{Cell, Paddle};

verus! {

/// The playable rectangle: columns `0..=max_x`, rows `0..=max_y`.
#[derive(Clone, Copy, Debug, PartialEq, Eq, Structural)]
pub struct Arena {
    pub max_x: i32,
    pub max_y: i32,
}

impl Arena {
    pub fn new(max_x: i32, max_y: i32) -> (r: Arena)
        ensures
            r.max_x == max_x,
            r.max_y == max_y,
    {
        Arena { max_x, max_y }
    }

    /// Bounds taken from a terminal's size are never negative.
    pub open spec fn wf(self) -> bool {
        self.max_x >= 0 && self.max_y >= 0
    }

    pub open spec fn center_spec(self) -> Cell {
        Cell { col: (self.max_x / 2) as i32, row: (self.max_y / 2) as i32 }
    }

    /// The cell a ball is served from after a point: half of each bound,
    /// rounded down.
    pub fn center(&self) -> (r: Cell)
        requires
            self.wf(),
        ensures
            r == self.center_spec(),
    {
        Cell { col: self.max_x / 2, row: self.max_y / 2 }
    }
}

/// The two sides of the table: the player on the left, the opponent on the
/// right.
#[derive(Clone, Copy, Debug, PartialEq, Eq, Structural)]
pub enum Side {
    Player,
    Opponent,
}

/// What the ball's new cell calls for.
#[derive(Clone, Copy, Debug, PartialEq, Eq, Structural)]
pub enum Outcome {
    /// The ball is on that side's paddle: its velocity is reflected about the
    /// paddle's normal.
    Return(Side),
    /// The ball is on the top (`normal_y == 1`) or bottom (`normal_y == -1`)
    /// wall: its velocity is reflected about the normal `(0, normal_y)`.
    WallBounce { normal_y: i32 },
    /// The ball left the arena sideways and `scorer` wins a point: the ball is
    /// put back at `center` and its horizontal velocity is reversed.
    Serve { scorer: Side, center: Cell },
    /// Nothing is hit.
    InPlay,
}

/// The first of these that holds decides: the player's paddle, the
/// opponent's paddle, the top wall, the bottom wall, the left edge (a point
/// for the opponent), the right edge (a point for the player).
pub open spec fn outcome_of(player: Paddle, opponent: Paddle, ball: Cell, arena: Arena) -> Outcome {
    if player.covers(ball) {
        Outcome::Return(Side::Player)
    } else if opponent.covers(ball) {
        Outcome::Return(Side::Opponent)
    } else if ball.row <= 0 {
        Outcome::WallBounce { normal_y: 1 }
    } else if ball.row >= arena.max_y {
        Outcome::WallBounce { normal_y: -1i32 }
    } else if ball.col <= 0 {
        Outcome::Serve { scorer: Side::Opponent, center: arena.center_spec() }
    } else if ball.col >= arena.max_x {
        Outcome::Serve { scorer: Side::Player, center: arena.center_spec() }
    } else {
        Outcome::InPlay
    }
}

/// Decides what the ball's new cell `ball` calls for.
pub fn outcome(player: &Paddle, opponent: &Paddle, ball: &Cell, arena: &Arena) -> (r: Outcome)
    requires
        arena.wf(),
    ensures
        r == outcome_of(*player, *opponent, *ball, *arena),
{
    if player.is_within(ball) {
        Outcome::Return(Side::Player)
    } else if opponent.is_within(ball) {
        Outcome::Return(Side::Opponent)
    } else if ball.row <= 0 {
        Outcome::WallBounce { normal_y: 1 }
    } else if ball.row >= arena.max_y {
        Outcome::WallBounce { normal_y: -1 }
    } else if ball.col <= 0 {
        Outcome::Serve { scorer: Side::Opponent, center: arena.center() }
    } else if ball.col >= arena.max_x {
        Outcome::Serve { scorer: Side::Player, center: arena.center() }
    } else {
        Outcome::InPlay
    }
}

/// Points won by each side.
#[derive(Clone, Copy, Debug, PartialEq, Eq, Structural)]
pub struct Score {
    pub player: i32,
    pub opponent: i32,
}

impl Score {
    /// Both sides at zero.
    pub fn new() -> (r: Score)
        ensures
            r.player == 0,
            r.opponent == 0,
    {
        Score { player: 0, opponent: 0 }
    }

    /// The score after `o`: one more point for the scorer of a serve,
    /// unchanged otherwise.
    pub open spec fn awarded(self, o: Outcome) -> Score {
        match o {
            Outcome::Serve { scorer: Side::Player, .. } => Score {
                player: (self.player + 1) as i32,
                ..self
            },
            Outcome::Serve { scorer: Side::Opponent, .. } => Score {
                opponent: (self.opponent + 1) as i32,
                ..self
            },
            _ => self,
        }
    }

    /// The point that `o` may award still fits in an `i32`.
    pub open spec fn room_for(self, o: Outcome) -> bool {
        match o {
            Outcome::Serve { scorer: Side::Player, .. } => self.player < i32::MAX,
            Outcome::Serve { scorer: Side::Opponent, .. } => self.opponent < i32::MAX,
            _ => true,
        }
    }

    /// Whether the point that `o` may award still fits in an `i32`.
    pub fn can_award(&self, o: &Outcome) -> (r: bool)
        ensures
            r == self.room_for(*o),
    {
        match o {
            Outcome::Serve { scorer: Side::Player, .. } => self.player < i32::MAX,
            Outcome::Serve { scorer: Side::Opponent, .. } => self.opponent < i32::MAX,
            _ => true,
        }
    }

    /// Records the point that `o` awards, if any.
    pub fn award(&mut self, o: &Outcome)
        requires
            old(self).room_for(*o),
        ensures
            *final(self) == old(self).awarded(*o),
    {
        match o {
            Outcome::Serve { scorer: Side::Player, .. } => self.player = self.player + 1,
            Outcome::Serve { scorer: Side::Opponent, .. } => self.opponent = self.opponent + 1,
            _ => {},
        }
    }
}

/// A ball that reaches column 0 or less, clear of both paddles and of both
/// walls, gives the opponent exactly one point, leaves the player's score as
/// it was, and is served again from the cell `(max_x / 2, max_y / 2)` with its
/// horizontal velocity reversed. A ball that reaches column `max_x` or more
/// in the same way does the same for the player. A paddle or a wall that the
/// ball touches at the same time takes precedence.
pub proof fn lemma_goal_scores_one_point(
    player: Paddle,
    opponent: Paddle,
    ball: Cell,
    arena: Arena,
    score: Score,
)
    requires
        arena.wf(),
        !player.covers(ball),
        !opponent.covers(ball),
        0 < ball.row < arena.max_y,
        ball.col <= 0 || ball.col >= arena.max_x,
        score.room_for(outcome_of(player, opponent, ball, arena)),
    ensures
        ({
            let o = outcome_of(player, opponent, ball, arena);
            let center = Cell { col: (arena.max_x / 2) as i32, row: (arena.max_y / 2) as i32 };
            let after = score.awarded(o);
            &&& ball.col <= 0 ==> {
                &&& o == Outcome::Serve { scorer: Side::Opponent, center }
                &&& after.opponent == score.opponent + 1
                &&& after.player == score.player
            }
            &&& ball.col > 0 ==> {
                &&& o == Outcome::Serve { scorer: Side::Player, center }
                &&& after.player == score.player + 1
                &&& after.opponent == score.opponent
            }
        }),
{
}

} // verus!
