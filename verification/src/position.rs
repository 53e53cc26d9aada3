//! The position of a game as plain values: the marks on the nine spaces and
//! the active player, with what follows from them and what holds of it.

use vstd::prelude::*;

verus! {

/// A board as plain values: the nine marks in reading order (space 1 is the
/// top-left corner, space 9 the bottom-right one) and the player whose mark
/// is written next. A mark is 0 for an empty space, 1 or 2 for a player.
pub struct Position {
    pub marks: Seq<u8>,
    pub active_player: u8,
}

impl Position {
    /// Nine marks, each of them and the active player at most 2.
    pub open spec fn wf(self) -> bool {
        &&& self.marks.len() == 9
        &&& forall|k: int| 0 <= k < 9 ==> #[trigger] self.marks[k] <= 2
        &&& self.active_player <= 2
    }

    /// The position of an empty board on which no player is active yet.
    pub open spec fn empty() -> Position {
        Position { marks: Seq::new(9, |k: int| 0u8), active_player: 0 }
    }

    /// The mark on `space`.
    pub open spec fn mark(self, space: int) -> u8 {
        self.marks[space - 1]
    }

    /// Whether `space` carries a player's mark.
    pub open spec fn taken(self, space: int) -> bool {
        self.mark(space) > 0
    }

    /// Whether `space` is on the board and empty.
    pub open spec fn free(self, space: int) -> bool {
        1 <= space <= 9 && self.mark(space) == 0
    }

    /// The position after the active player's mark is written on `space`.
    pub open spec fn place(self, space: int) -> Position {
        Position { marks: self.marks.update(space - 1, self.active_player), ..self }
    }

    /// Whether no space is empty.
    pub open spec fn full(self) -> bool {
        forall|space: int| 1 <= space <= 9 ==> #[trigger] self.taken(space)
    }

    /// The empty spaces among `1..=n`, in ascending order.
    pub open spec fn open_upto(self, n: int) -> Seq<usize>
        decreases n,
    {
        if n <= 0 {
            Seq::empty()
        } else if self.mark(n) == 0 {
            self.open_upto(n - 1).push(n as usize)
        } else {
            self.open_upto(n - 1)
        }
    }

    /// The empty spaces of the board, in ascending order.
    pub open spec fn open_spaces(self) -> Seq<usize> {
        self.open_upto(9)
    }

    /// Whether one player's mark is on all three spaces of `line`.
    pub open spec fn holds(self, line: (int, int, int)) -> bool {
        &&& self.mark(line.0) != 0
        &&& self.mark(line.0) == self.mark(line.1)
        &&& self.mark(line.1) == self.mark(line.2)
    }

    /// The place in `lines()` of the first line, at or after place `from`,
    /// that one player holds; 8 if there is none.
    pub open spec fn first_held(self, from: int) -> int
        decreases 8 - from,
    {
        if from >= 8 {
            8
        } else if self.holds(lines()[from]) {
            from
        } else {
            self.first_held(from + 1)
        }
    }

    /// Whether some player holds a line.
    pub open spec fn won(self) -> bool {
        self.first_held(0) < 8
    }

    /// The line that decides a won position: the first one held, in the
    /// order of `lines()`.
    pub open spec fn winning_line(self) -> (int, int, int) {
        lines()[self.first_held(0)]
    }

    /// The state of the game: the mark of the winner if a line is held, else
    /// 0 for a draw on a full board, else -1 for a game still in progress.
    pub open spec fn state(self) -> int {
        if self.won() {
            self.mark(self.winning_line().0) as int
        } else if self.full() {
            0
        } else {
            -1
        }
    }

    /// The three spaces reported with the state: the winning line, or three
    /// zeros where nobody has won.
    pub open spec fn state_line(self) -> Seq<usize> {
        if self.won() {
            let line = self.winning_line();
            seq![line.0 as usize, line.1 as usize, line.2 as usize]
        } else {
            seq![0usize, 0usize, 0usize]
        }
    }

    /// The worth of the position to player 2: a win of player 2 counts
    /// 1,000,000, a win of player 1 as much below zero, a draw -500,000, and
    /// a game in progress nothing.
    pub open spec fn score(self) -> int {
        let state = self.state();
        if state == 0 {
            -500_000
        } else if state == 1 {
            -1_000_000
        } else if state == 2 {
            1_000_000
        } else {
            0
        }
    }
}

/// The eight lines of three spaces, in the order in which a board is searched
/// for a winner: each row followed by the column of the same number, then the
/// diagonal from the top-left corner, then the one from the bottom-left corner.
pub open spec fn lines() -> Seq<(int, int, int)> {
    seq![
        (1, 2, 3),
        (1, 4, 7),
        (4, 5, 6),
        (2, 5, 8),
        (7, 8, 9),
        (3, 6, 9),
        (1, 5, 9),
        (7, 5, 3),
    ]
}

/// The row and column of a space, both counted from 0.
pub open spec fn coords_of(space: int) -> (int, int) {
    ((space - 1) / 3, (space - 1) % 3)
}

/// The space in row `row` and column `col`.
pub open spec fn space_at(row: int, col: int) -> int {
    3 * row + col + 1
}

impl Position {
    /// The number of marked spaces among `1..=n`.
    pub open spec fn occupied_upto(self, n: int) -> nat
        decreases n,
    {
        if n <= 0 {
            0
        } else if self.taken(n) {
            self.occupied_upto(n - 1) + 1
        } else {
            self.occupied_upto(n - 1)
        }
    }

    /// The number of marked spaces on the board.
    pub open spec fn occupied_count(self) -> nat {
        self.occupied_upto(9)
    }

    /// `open_upto(n)` lists, in ascending order, exactly the empty spaces of
    /// `1..=n`, and together with the marked ones they are `n` spaces.
    pub proof fn lemma_open_upto(self, n: int)
        requires
            0 <= n <= 9,
        ensures
            forall|j: int|
                0 <= j < self.open_upto(n).len() ==> {
                    &&& 1 <= (#[trigger] self.open_upto(n)[j]) <= n
                    &&& self.free(self.open_upto(n)[j] as int)
                },
            forall|i: int, j: int|
                0 <= i < j < self.open_upto(n).len() ==> self.open_upto(n)[i] < self.open_upto(
                    n,
                )[j],
            forall|space: int|
                1 <= space <= n && self.free(space) ==> self.open_upto(n).contains(space as usize),
            self.open_upto(n).len() + self.occupied_upto(n) == n,
        decreases n,
    {
        if n > 0 {
            self.lemma_open_upto(n - 1);
            let shorter = self.open_upto(n - 1);
            let longer = self.open_upto(n);
            assert forall|j: int| 0 <= j < longer.len() implies {
                &&& 1 <= (#[trigger] longer[j]) <= n
                &&& self.free(longer[j] as int)
            } by {
                if j < shorter.len() {
                    assert(longer[j] == shorter[j]);
                }
            }
            assert forall|i: int, j: int| 0 <= i < j < longer.len() implies longer[i]
                < longer[j] by {
                assert(longer[i] == shorter[i]);
                if j < shorter.len() {
                    assert(longer[j] == shorter[j]);
                }
            }
            assert forall|space: int| 1 <= space <= n && self.free(space) implies longer.contains(
                space as usize,
            ) by {
                if space < n {
                    assert(shorter.contains(space as usize));
                    let j = choose|j: int| 0 <= j < shorter.len() && shorter[j] == space as usize;
                    assert(longer[j] == space as usize);
                } else {
                    assert(longer[longer.len() - 1] == space as usize);
                }
            }
        }
    }

    /// The empty spaces are listed in ascending order, each once, and no
    /// other space is listed.
    pub proof fn lemma_open_spaces(self)
        ensures
            forall|j: int|
                0 <= j < self.open_spaces().len() ==> self.free(
                    #[trigger] self.open_spaces()[j] as int,
                ),
            forall|i: int, j: int|
                0 <= i < j < self.open_spaces().len() ==> self.open_spaces()[i]
                    < self.open_spaces()[j],
            forall|space: int| self.free(space) ==> self.open_spaces().contains(space as usize),
    {
        self.lemma_open_upto(9);
    }

    /// The empty spaces and the marked ones are the nine spaces of the board.
    pub proof fn lemma_open_and_occupied_are_nine(self)
        ensures
            self.open_spaces().len() + self.occupied_count() == 9,
    {
        self.lemma_open_upto(9);
    }

    /// A board that is not full has an empty space to list.
    pub proof fn lemma_not_full_has_open_space(self)
        requires
            !self.full(),
        ensures
            self.open_spaces().len() > 0,
    {
        let space = choose|space: int| 1 <= space <= 9 && !self.taken(space);
        assert(self.free(space));
        self.lemma_open_spaces();
        assert(self.open_spaces().contains(space as usize));
    }

    /// Where player 1 or 2 is active, marking one of the open spaces takes
    /// it: the space was not taken before and is taken after, and every other
    /// space is as it was.
    pub proof fn lemma_place_takes_space(self, space: usize)
        requires
            self.wf(),
            self.open_spaces().contains(space),
            self.active_player != 0,
        ensures
            !self.taken(space as int),
            self.place(space as int).taken(space as int),
            forall|other: int|
                1 <= other <= 9 && other != space ==> self.place(space as int).mark(other)
                    == self.mark(other),
    {
        self.lemma_open_spaces();
    }

    /// On a board without a mark every space is open and the game is in
    /// progress, whoever is the active player.
    pub proof fn lemma_empty_board_is_open(self)
        requires
            self.marks == Position::empty().marks,
        ensures
            self.open_spaces() == seq![1usize, 2usize, 3usize, 4usize, 5usize, 6usize, 7usize, 8usize, 9usize],
            self.state() == -1,
            self.state_line() == seq![0usize, 0usize, 0usize],
            self.score() == 0,
    {
        reveal_with_fuel(Position::open_upto, 10);
        reveal_with_fuel(Position::first_held, 9);
        assert(!self.taken(1));
    }

    /// Marking a space of a well-formed position gives a well-formed position.
    pub proof fn lemma_place_keeps_wf(self, space: int)
        requires
            self.wf(),
            1 <= space <= 9,
        ensures
            self.place(space).wf(),
    {
    }

    /// A position is won exactly if one player's mark is on all three spaces
    /// of a row, a column or a diagonal. The line reported for a won position
    /// is such a line, and the state is the mark that is on it.
    pub proof fn lemma_won_iff_line_held(self)
        ensures
            self.won() <==> exists|k: int| 0 <= k < 8 && self.holds(#[trigger] lines()[k]),
            self.won() ==> {
                &&& self.holds(self.winning_line())
                &&& exists|k: int| 0 <= k < 8 && self.winning_line() == #[trigger] lines()[k]
                &&& self.state() == self.mark(self.winning_line().0)
                &&& self.state() == self.mark(self.winning_line().1)
                &&& self.state() == self.mark(self.winning_line().2)
            },
    {
        reveal_with_fuel(Position::first_held, 9);
        if self.won() {
            let k = self.first_held(0);
            assert(self.holds(lines()[k]));
        }
    }

    /// The state of a position is one of four: in progress, a draw, won by
    /// player 1, won by player 2. It is owed to the marks alone.
    pub proof fn lemma_state_is_one_of_four(self)
        requires
            self.wf(),
        ensures
            self.state() == -1 || self.state() == 0 || self.state() == 1 || self.state() == 2,
            self.state() >= 1 <==> self.won(),
            self.state() == 0 <==> !self.won() && self.full(),
            self.state() == -1 <==> !self.won() && !self.full(),
    {
        reveal_with_fuel(Position::first_held, 9);
    }

    /// Whoever is the active player, positions with the same marks are in
    /// the same state and report the same line.
    pub proof fn lemma_state_depends_on_marks(self, other: Position)
        requires
            self.marks == other.marks,
        ensures
            self.state() == other.state(),
            self.state_line() == other.state_line(),
            self.score() == other.score(),
    {
        reveal_with_fuel(Position::first_held, 9);
        assert forall|space: int| self.taken(space) == other.taken(space) by {}
    }
}

/// The numbering of the spaces is a one-to-one match of `1..=9` with the
/// rows and columns of the board.
pub proof fn lemma_coords_are_one_to_one(space: int, row: int, col: int)
    requires
        1 <= space <= 9,
        0 <= row < 3,
        0 <= col < 3,
    ensures
        0 <= coords_of(space).0 < 3,
        0 <= coords_of(space).1 < 3,
        space_at(coords_of(space).0, coords_of(space).1) == space,
        1 <= space_at(row, col) <= 9,
        coords_of(space_at(row, col)) == (row, col),
{
}

} // verus!
