//! A verified Reversi (Othello) engine.
//!
//! The board engine owns the 8x8 grid and the identity of the side to move,
//! enforces the directional-capture rule, applies moves with flips, advances
//! turns (with a single-level auto-pass), and evaluates the terminal score.
//! A thin move-selection layer applies a move chosen by a caller or drawn
//! uniformly at random among the legal destinations.

pub mod application;
pub mod domain;
