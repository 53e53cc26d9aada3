//! The 3x3 board: it holds the marks, numbers the spaces, and answers the
//! questions that a game asks of it.

use vstd::prelude::*;
use crate::position::coords_of;
use crate::position::lines;
use crate::position::space_at;
use crate::position::Position;

verus! {

/// The board of a game: a 3x3 matrix of marks, and the active player whose
/// mark is written next. Its view is the `Position` that it holds, which is
/// well-formed for every board.
pub struct Board {
    board: [[u8; 3]; 3],
    active_player: u8,
}

impl View for Board {
    type V = Position;

    closed spec fn view(&self) -> Position {
        Position {
            marks: Seq::new(9, |k: int| self.board[k / 3][k % 3]),
            active_player: self.active_player,
        }
    }
}

impl Clone for Board {
    fn clone(&self) -> (copy: Board)
        ensures
            copy@ == self@,
    {
        proof {
            use_type_invariant(self);
        }
        Board { board: self.board, active_player: self.active_player }
    }
}

impl Board {
    /// Every board that exists holds a well-formed position.
    #[verifier::type_invariant]
    pub open spec fn valid(&self) -> bool {
        self@.wf()
    }

    /// Creates a new empty `Board`, on which no player is active yet.
    pub fn new() -> (b: Board)
        ensures
            b@ == Position::empty(),
    {
        let b: Board = Board { board: [[0, 0, 0], [0, 0, 0], [0, 0, 0]], active_player: 0 };
        assert(b@.marks =~= Position::empty().marks);
        b
    }

    /// The player whose mark the next `set_space` writes.
    pub fn active_player(&self) -> (player: u8)
        ensures
            player == self@.active_player,
    {
        self.active_player
    }

    /// Makes `player` the active player.
    pub fn set_active_player(&mut self, player: u8)
        requires
            player <= 2,
        ensures
            final(self)@ == (Position { active_player: player, ..old(self)@ }),
    {
        proof {
            use_type_invariant(&*self);
        }
        self.active_player = player;
    }

    /// The marks of row `i`, from left to right.
    pub(crate) fn row(&self, i: usize) -> (marks: [u8; 3])
        requires
            i < 3,
        ensures
            marks@ == self@.marks.subrange(3 * i, 3 * i + 3),
    {
        let marks: [u8; 3] = self.board[i];
        assert(marks@ =~= self@.marks.subrange(3 * i, 3 * i + 3));
        marks
    }

    /// Returns an array of the spaces in the given row.
    pub fn get_row_nums(i: usize) -> (nums: [usize; 3])
        requires
            3 * i + 3 <= usize::MAX,
        ensures
            nums@ == seq![(3 * i + 1) as usize, (3 * i + 2) as usize, (3 * i + 3) as usize],
    {
        [i + (2 * i) + 1, i + (2 * (i + 1)), i + (2 * (i + 1) + 1)]
    }

    /// Converts row and column into a space on the board (1-9).
    pub fn coords_to_space(coords: (usize, usize)) -> (space: usize)
        requires
            3 * coords.0 + 3 <= usize::MAX,
            coords.1 < 3,
        ensures
            space == space_at(coords.0 as int, coords.1 as int),
    {
        Board::get_row_nums(coords.0)[coords.1]
    }

    /// Converts a space number (1-9) to its row and column in the matrix.
    pub fn space_to_coords(space: usize) -> (coords: (usize, usize))
        requires
            1 <= space,
        ensures
            (coords.0 as int, coords.1 as int) == coords_of(space as int),
    {
        assert(usize::MAX % 3 == 0) by {
            assert(usize::MAX == 0xffff_ffff || usize::MAX == 0xffff_ffff_ffff_ffff);
        }
        if space % 3 == 0 {
            ((space / 3) - 1, 2)
        } else if (space + 1) % 3 == 0 {
            (((space + 1) / 3) - 1, 1)
        } else {
            (((space + 2) / 3) - 1, 0)
        }
    }

    /// Marks the given space with the current active player's number.
    pub fn set_space(&mut self, space: usize)
        requires
            1 <= space <= 9,
        ensures
            final(self)@ == old(self)@.place(space as int),
    {
        proof {
            use_type_invariant(&*self);
        }
        let coords: (usize, usize) = Board::space_to_coords(space);
        let ghost before = self@;
        let mut cells: [[u8; 3]; 3] = self.board;
        cells[coords.0][coords.1] = self.active_player;
        proof {
            let marks = Seq::new(9, |k: int| cells[k / 3][k % 3]);
            assert(marks =~= before.place(space as int).marks);
        }
        self.board = cells;
    }

    /// Returns a vector of free spaces on the board.
    pub fn open_spaces(&self) -> (available: Vec<usize>)
        ensures
            available@ == self@.open_spaces(),
    {
        let mut available: Vec<usize> = Vec::new();
        let mut i: usize = 0;
        while i < 3
            invariant
                0 <= i <= 3,
                available@ == self@.open_upto(3 * i),
            decreases 3 - i,
        {
            let row: [u8; 3] = self.board[i];
            let row_nums: [usize; 3] = Board::get_row_nums(i);
            proof {
                reveal_with_fuel(Position::open_upto, 4);
            }
            if row[0] == 0 {
                available.push(row_nums[0]);
            }
            if row[1] == 0 {
                available.push(row_nums[1]);
            }
            if row[2] == 0 {
                available.push(row_nums[2]);
            }
            i += 1;
        }
        available
    }

    /// Returns whether or not the given space is occupied.
    pub fn space_taken(&self, space: usize) -> (taken: bool)
        requires
            1 <= space <= 9,
        ensures
            taken == self@.taken(space as int),
    {
        let coords: (usize, usize) = Board::space_to_coords(space);
        self.board[coords.0][coords.1] > 0
    }

    /// Returns whether or not the board is full.
    pub fn is_full(&self) -> (full: bool)
        ensures
            full == self@.full(),
    {
        let mut i: usize = 0;
        while i < 3
            invariant
                0 <= i <= 3,
                forall|space: int| 1 <= space <= 3 * i ==> #[trigger] self@.taken(space),
            decreases 3 - i,
        {
            let row: [u8; 3] = self.board[i];
            if row[0] == 0 || row[1] == 0 || row[2] == 0 {
                proof {
                    assert(!self@.taken(3 * i + 1) || !self@.taken(3 * i + 2) || !self@.taken(
                        3 * i + 3,
                    ));
                }
                return false;
            }
            i += 1;
        }
        true
    }

    /// Returns the current state of the game, and the winning line if the
    /// game is won. A `-1` indicates an unfinished game, `0` indicates a
    /// draw, and a `1` or `2` indicates the winning player. If there's a
    /// winner, an array of the winning spaces is given, else three zeros.
    pub fn is_terminal(&self) -> (state: (i8, [usize; 3]))
        ensures
            state.0 == self@.state(),
            state.1@ == self@.state_line(),
    {
        proof {
            use_type_invariant(self);
            reveal_with_fuel(Position::first_held, 9);
        }
        // check rows and columns for 3 in a row
        let mut i: usize = 0;
        while i < 3
            invariant
                0 <= i <= 3,
                self@.wf(),
                forall|k: int| 0 <= k < 2 * i ==> !self@.holds(#[trigger] lines()[k]),
            decreases 3 - i,
        {
            let row: [u8; 3] = self.board[i];
            proof {
                reveal_with_fuel(Position::first_held, 9);
                assert(self@.mark(3 * i + 1) == row[0]);
                assert(self@.mark(i + 1) == self.board[0][i as int]);
            }
            if row[0] == row[1] && row[1] == row[2] && row[0] != 0 {
                let first: usize = Board::coords_to_space((i, 0));
                return (row[0] as i8, [first, first + 1, first + 2]);
            }
            if self.board[0][i] == self.board[1][i] && self.board[1][i] == self.board[2][i]
                && self.board[0][i] != 0 {
                let first: usize = Board::coords_to_space((0, i));
                return (self.board[0][i] as i8, [first, first + 3, first + 6]);
            }
            i += 1;
        }

        // check the two diagonals
        proof {
            assert(self@.mark(1) == self.board[0][0]);
            assert(self@.mark(7) == self.board[2][0]);
        }
        if self.board[0][0] == self.board[1][1] && self.board[1][1] == self.board[2][2]
            && self.board[0][0] != 0 {
            return (self.board[0][0] as i8, [1, 5, 9]);
        }
        if self.board[2][0] == self.board[1][1] && self.board[1][1] == self.board[0][2]
            && self.board[2][0] != 0 {
            return (self.board[2][0] as i8, [7, 5, 3]);
        }
        if self.is_full() {
            // nobody has won and the board is full: a draw
            (0, [0, 0, 0])
        } else {
            // the game isn't over
            (-1, [0, 0, 0])
        }
    }

    /// Returns all possible children of the current board state: for each
    /// free space, in ascending order, the space and a board of its own on
    /// which the active player has marked it.
    pub fn get_children(&self) -> (children: Vec<(usize, Board)>)
        ensures
            children@.len() == self@.open_spaces().len(),
            forall|k: int|
                0 <= k < children@.len() ==> {
                    &&& (#[trigger] children@[k]).0 == self@.open_spaces()[k]
                    &&& children@[k].1@ == self@.place(self@.open_spaces()[k] as int)
                },
    {
        let mut children: Vec<(usize, Board)> = Vec::new();
        let available: Vec<usize> = self.open_spaces();
        proof {
            self@.lemma_open_spaces();
        }
        let mut k: usize = 0;
        while k < available.len()
            invariant
                0 <= k <= available@.len(),
                available@ == self@.open_spaces(),
                forall|j: int| 0 <= j < available@.len() ==> self@.free(#[trigger] available@[j] as int),
                children@.len() == k,
                forall|j: int|
                    0 <= j < k ==> {
                        &&& (#[trigger] children@[j]).0 == available@[j]
                        &&& children@[j].1@ == self@.place(available@[j] as int)
                    },
            decreases available@.len() - k,
        {
            let space: usize = available[k];
            let mut child: Board = self.clone();
            child.set_space(space);
            children.push((space, child));
            k += 1;
        }
        children
    }

    /// Converts the current state of the board into a heuristic value.
    pub fn heuristic(&self) -> (value: isize)
        ensures
            value == self@.score(),
    {
        let state: i8 = self.is_terminal().0;
        match state {
            0 => -500_000,
            1 => -1_000_000,
            2 => 1_000_000,
            _ => 0,
        }
    }
}

} // verus!
