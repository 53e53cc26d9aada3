//! Tic-tac-toe: the board, the players that choose spaces on it, and the
//! turn-by-turn course of a game.

pub mod board;
pub mod game;
pub mod numeral;
pub mod player;
pub mod position;
pub mod search;
pub mod text;
