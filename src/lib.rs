//! A two-team board game on a grid with terrain heights, chess-like movement
//! shapes and pushing: the rules engine that decides whether a move is legal
//! and what applying it changes.
pub mod game;
pub mod helpers;
