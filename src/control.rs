//! Keys: which one ends the game, and which ones move a paddle.
use vstd::prelude::*;

use crate::rules::Side;

verus! {

/// A key press as the game reads it.
#[derive(Clone, Copy, Debug, PartialEq, Eq, Structural)]
pub enum Key {
    Up,
    Down,
    Char(char),
    /// Any other key.
    Other,
}

/// The key that ends the game.
pub const QUIT_KEY: char = 'x';

/// How fast a paddle moves while its key is pressed, in cells per second.
pub const PADDLE_SPEED: i32 = 10;

/// A paddle movement: `side`'s paddle moves down by `rate` cells per second
/// (up where `rate` is negative).
#[derive(Clone, Copy, Debug, PartialEq, Eq, Structural)]
pub struct Steer {
    pub side: Side,
    pub rate: i32,
}

/// Up and Down move the opponent's paddle; 'q' and 'a' move the player's
/// paddle up and down. No other key moves a paddle.
pub open spec fn steer_of(key: Option<Key>) -> Option<Steer> {
    match key {
        Some(Key::Up) => Some(Steer { side: Side::Opponent, rate: (-PADDLE_SPEED) as i32 }),
        Some(Key::Down) => Some(Steer { side: Side::Opponent, rate: PADDLE_SPEED }),
        Some(Key::Char('a')) => Some(Steer { side: Side::Player, rate: PADDLE_SPEED }),
        Some(Key::Char('q')) => Some(Steer { side: Side::Player, rate: (-PADDLE_SPEED) as i32 }),
        _ => None,
    }
}

/// The paddle movement that `key` asks for, if any.
pub fn steer(key: Option<Key>) -> (r: Option<Steer>)
    ensures
        r == steer_of(key),
{
    match key {
        Some(Key::Up) => Some(Steer { side: Side::Opponent, rate: -PADDLE_SPEED }),
        Some(Key::Down) => Some(Steer { side: Side::Opponent, rate: PADDLE_SPEED }),
        Some(Key::Char('a')) => Some(Steer { side: Side::Player, rate: PADDLE_SPEED }),
        Some(Key::Char('q')) => Some(Steer { side: Side::Player, rate: -PADDLE_SPEED }),
        _ => None,
    }
}

/// Where the game loop stands.
#[derive(Clone, Copy, Debug, PartialEq, Eq, Structural)]
pub enum Phase {
    Running,
    Terminated,
}

/// What the game loop does with one polled key.
#[derive(Clone, Copy, Debug, PartialEq, Eq, Structural)]
pub enum Step {
    /// Leave the loop: no update and no draw.
    Stop,
    /// Update the game with the key, then draw a frame.
    Frame,
}

pub open spec fn is_quit(key: Option<Key>) -> bool {
    key == Some(Key::Char(QUIT_KEY))
}

/// Takes the key polled at the start of an iteration of the game loop. The
/// quit key moves the loop from running to terminated; a terminated loop
/// stays so and never updates or draws again.
pub fn next_step(phase: &mut Phase, key: Option<Key>) -> (r: Step)
    ensures
        r == Step::Stop <==> (*old(phase) == Phase::Terminated || is_quit(key)),
        r == Step::Frame <==> (*old(phase) == Phase::Running && !is_quit(key)),
        *final(phase) == (if r == Step::Stop {
            Phase::Terminated
        } else {
            Phase::Running
        }),
{
    let quit = match key {
        Some(Key::Char(c)) => c == QUIT_KEY,
        _ => false,
    };
    if quit || *phase == Phase::Terminated {
        *phase = Phase::Terminated;
        Step::Stop
    } else {
        Step::Frame
    }
}

} // verus!
