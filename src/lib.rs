//! The rules of a terminal Pong game, on character cells.
//!
//! Ball and paddles move in fractional cell coordinates; every decision the
//! game makes (collisions, scoring, input, what a frame shows) is taken on
//! the integer cells those coordinates fall in. This crate holds those
//! decisions, each with a contract proved by Verus.

pub mod control;
pub mod geometry;
pub mod render;
pub mod rules;
