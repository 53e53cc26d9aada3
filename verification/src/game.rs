//! The course of a game: two players mark spaces in turn until one of them
//! holds a line or the board is full.

use vstd::prelude::*;
use crate::board::Board;
use crate::position::Position;

verus! {

/// The player who moves after `player`.
pub open spec fn opponent(player: u8) -> u8 {
    if player == 1 {
        2
    } else {
        1
    }
}

/// The position after the player to move has marked `space`: the mark is on
/// the board, and the turn has passed to the opponent unless the game is
/// over.
pub open spec fn after_move(p: Position, space: int) -> Position {
    let marked = p.place(space);
    if marked.state() == -1 {
        Position { active_player: opponent(p.active_player), ..marked }
    } else {
        marked
    }
}

/// How a game stands.
#[derive(Clone, Copy, Debug, PartialEq, Eq, Structural)]
pub enum Outcome {
    /// Nobody has won and a space is still empty.
    InProgress,
    /// Nobody has won and the board is full.
    Draw,
    /// This player holds a line.
    Win(u8),
}

/// The outcome that a state of the game stands for: a state above 0 is the
/// player who has won, 0 is a draw, and a state below 0 a game in progress.
pub open spec fn outcome_of(state: int) -> Outcome {
    if state > 0 {
        Outcome::Win(state as u8)
    } else if state == 0 {
        Outcome::Draw
    } else {
        Outcome::InProgress
    }
}

/// A game between player 1 and player 2. Its position is that of its board,
/// on which the active player is the one to move.
pub struct Game {
    board: Board,
}

impl View for Game {
    type V = Position;

    closed spec fn view(&self) -> Position {
        self.board@
    }
}

impl Game {
    /// In every game the position is well-formed and player 1 or player 2
    /// is to move.
    #[verifier::type_invariant]
    pub open spec fn valid(&self) -> bool {
        &&& self@.wf()
        &&& self@.active_player == 1 || self@.active_player == 2
    }

    /// Starts a game: the board is empty and player 1 is to move.
    pub fn new() -> (game: Game)
        ensures
            game@ == (Position { active_player: 1, ..Position::empty() }),
            game@.state() == -1,
    {
        let mut b: Board = Board::new();
        b.set_active_player(1);
        proof {
            b@.lemma_empty_board_is_open();
        }
        Game { board: b }
    }

    /// The board of the game.
    pub fn board(&self) -> (b: &Board)
        ensures
            b@ == self@,
    {
        &self.board
    }

    /// The player to move marks `space`. Returns the state of the game after
    /// the move, as `Board::is_terminal` gives it; while the game is in
    /// progress the turn passes to the other player.
    pub fn play(&mut self, space: usize) -> (state: (i8, [usize; 3]))
        requires
            1 <= space <= 9,
            old(self)@.state() == -1,
        ensures
            final(self)@ == after_move(old(self)@, space as int),
            state.0 == final(self)@.state(),
            state.1@ == final(self)@.state_line(),
    {
        proof {
            use_type_invariant(&*self);
        }
        let mut b: Board = self.board.clone();
        b.set_space(space);
        let state: (i8, [usize; 3]) = b.is_terminal();
        let ghost marked = b@;
        if state.0 == -1 {
            let next: u8 = if b.active_player() == 1 {
                2
            } else {
                1
            };
            b.set_active_player(next);
        }
        proof {
            marked.lemma_state_depends_on_marks(b@);
        }
        self.board = b;
        state
    }

    /// The outcome to announce for a state of the game, as `play` and
    /// `Board::is_terminal` give it.
    pub fn outcome(state: i8) -> (outcome: Outcome)
        ensures
            outcome == outcome_of(state as int),
    {
        if state > -1 {
            if state > 0 {
                Outcome::Win(state as u8)
            } else {
                Outcome::Draw
            }
        } else {
            Outcome::InProgress
        }
    }
}

} // verus!
