//! The players of a game: each one chooses a space on a board.

use vstd::prelude::*;
use crate::board::Board;
use crate::position::Position;
use crate::numeral::number_of;
use crate::numeral::parse;
use crate::numeral::trim;
use crate::numeral::trimmed;
use crate::search::best_reply;
use crate::search::reply_score;
use crate::search::search;
use crate::search::lemma_search_reports_free_space;

verus! {

/// A player of the game.
pub trait Player {
    /// The positions on which the player can be asked for a space.
    spec fn can_be_asked(&self, p: Position) -> bool;

    /// The positions on which the player is sure to choose an empty space.
    spec fn can_play(&self, p: Position) -> bool;

    /// Chooses a space on the board according to the player's specified
    /// method.
    fn choose_space(&self, b: &Board) -> (space: usize)
        requires
            self.can_be_asked(b@),
        ensures
            self.can_play(b@) ==> b@.free(space as int),
    ;
}

/// What a line typed by a human player means on a board.
#[derive(Clone, Copy, Debug, PartialEq, Eq, Structural)]
pub enum Entry {
    /// The line names this space, which is on the board and empty.
    Chosen(usize),
    /// The line is no number.
    Invalid,
    /// The line is a number, but no space has it.
    NotASpace,
    /// The line names a space that is marked already.
    Taken,
}

/// What a number means on a position, if the typed line was one: a space
/// that can be marked, or the reason why it is none.
pub open spec fn entry_of(p: Position, number: Option<usize>) -> Entry {
    match number {
        None => Entry::Invalid,
        Some(n) => if n < 1 || n > 9 {
            Entry::NotASpace
        } else if p.taken(n as int) {
            Entry::Taken
        } else {
            Entry::Chosen(n)
        },
    }
}

/// Human player that uses terminal input for space selection.
pub struct Human;

impl Human {
    /// Returns a new `Human` object.
    pub fn new() -> Human {
        Human {}
    }

    /// Judges the number that the player typed, if it was one: only a space
    /// of the board that is still empty is accepted.
    pub fn check_space(&self, b: &Board, number: Option<usize>) -> (entry: Entry)
        ensures
            entry == entry_of(b@, number),
            entry matches Entry::Chosen(space) ==> number == Some(space) && b@.free(space as int),
    {
        match number {
            None => Entry::Invalid,
            Some(n) => {
                if n < 1 || n > 9 {
                    Entry::NotASpace
                } else if b.space_taken(n) {
                    Entry::Taken
                } else {
                    Entry::Chosen(n)
                }
            },
        }
    }

    /// Judges a line that the player typed: the line is freed of the white
    /// space around it and read as a number, and the number is judged as
    /// `check_space` does.
    pub fn read_space(&self, b: &Board, input: &str) -> (entry: Entry)
        ensures
            entry == entry_of(b@, number_of(trimmed(input@))),
            entry matches Entry::Chosen(space) ==> b@.free(space as int),
    {
        let number: Option<usize> = parse(trim(input));
        self.check_space(b, number)
    }
}

/// The generator of random numbers that `rand` keeps for each thread. Nothing
/// is known here of what it holds.
#[verifier::external_type_specification]
#[verifier::external_body]
pub struct ExThreadRng(rand::ThreadRng);

/// `rand::thread_rng` hands out the generator of the calling thread. (It
/// panics where the system gives it nothing to seed the generator with.)
pub assume_specification[ rand::thread_rng ]() -> (rng: rand::ThreadRng);

/// `choose` of `rand::Rng`: one of the values, whichever chance picks, or
/// none where there is no value to pick. Nothing is said of how likely each
/// value is.
#[verifier::external_body]
fn pick_one(rng: &mut rand::ThreadRng, values: &Vec<usize>) -> (picked: Option<usize>)
    ensures
        values@.len() == 0 ==> picked is None,
        values@.len() > 0 ==> picked is Some && values@.contains(picked->0),
{
    rand::Rng::choose(rng, values).copied()
}

/// AI player that chooses a random available space.
pub struct RandomAI;

impl RandomAI {
    /// Returns a new `RandomAI` object.
    pub fn new() -> RandomAI {
        RandomAI {}
    }
}

impl Player for RandomAI {
    /// A random player can be asked wherever a space is empty.
    open spec fn can_be_asked(&self, p: Position) -> bool {
        !p.full()
    }

    /// A random player finds a space wherever one is empty.
    open spec fn can_play(&self, p: Position) -> bool {
        !p.full()
    }

    /// Chooses a random space on the board that isn't occupied.
    fn choose_space(&self, b: &Board) -> (space: usize)
        ensures
            b@.free(space as int),
    {
        let available: Vec<usize> = b.open_spaces();
        proof {
            b@.lemma_not_full_has_open_space();
            b@.lemma_open_spaces();
        }
        let mut rng: rand::ThreadRng = rand::thread_rng();
        pick_one(&mut rng, &available).unwrap()
    }
}

/// AI player that chooses a spot using the Minimax algorithm.
pub struct MinimaxAI {
    depth: usize,
}

impl View for MinimaxAI {
    type V = nat;

    /// The depth to which the player searches.
    closed spec fn view(&self) -> nat {
        self.depth as nat
    }
}

impl MinimaxAI {
    /// Returns a new `MinimaxAI` with the given search depth set.
    pub fn new(depth: usize) -> (ai: MinimaxAI)
        ensures
            ai@ == depth,
    {
        MinimaxAI { depth }
    }

    /// Searches the game below `node`, a board and the space whose marking
    /// led to it, `depth` levels deep. Returns the space that the best reply
    /// marks and the score that the search below it comes to; where no depth
    /// is left or the game is over, the space and the score of the node
    /// itself. Of replies with the same score the first one is kept.
    pub fn minimax(&self, node: (usize, Board), depth: usize, is_max: bool) -> (found: (
        usize,
        isize,
    ))
        ensures
            (found.0 as int, found.1 as int) == search(node.1@, node.0 as int, depth as nat, is_max),
        decreases depth,
    {
        if depth == 0 || node.1.is_terminal().0 > -1 {
            return (node.0, node.1.heuristic());
        }
        let children: Vec<(usize, Board)> = node.1.get_children();
        let ghost p = node.1@;
        if is_max {
            let mut value: isize = isize::MIN;
            let mut move_: usize = 0;
            let mut k: usize = 0;
            while k < children.len()
                invariant
                    0 <= k <= children@.len(),
                    depth > 0,
                    children@.len() == p.open_spaces().len(),
                    forall|j: int|
                        0 <= j < children@.len() ==> {
                            &&& (#[trigger] children@[j]).0 == p.open_spaces()[j]
                            &&& children@[j].1@ == p.place(p.open_spaces()[j] as int)
                        },
                    (move_ as int, value as int) == best_reply(
                        p,
                        (depth - 1) as nat,
                        true,
                        k as nat,
                    ),
                decreases children@.len() - k,
            {
                let child: (usize, Board) = (children[k].0, children[k].1.clone());
                let mm: (usize, isize) = self.minimax(child, depth - 1, false);
                assert(mm.1 as int == reply_score(p, (depth - 1) as nat, true, k as int));
                if mm.1 > value {
                    value = mm.1;
                    move_ = children[k].0;
                }
                k += 1;
            }
            (move_, value)
        } else {
            let mut value: isize = isize::MAX;
            let mut move_: usize = 0;
            let mut k: usize = 0;
            while k < children.len()
                invariant
                    0 <= k <= children@.len(),
                    depth > 0,
                    children@.len() == p.open_spaces().len(),
                    forall|j: int|
                        0 <= j < children@.len() ==> {
                            &&& (#[trigger] children@[j]).0 == p.open_spaces()[j]
                            &&& children@[j].1@ == p.place(p.open_spaces()[j] as int)
                        },
                    (move_ as int, value as int) == best_reply(
                        p,
                        (depth - 1) as nat,
                        false,
                        k as nat,
                    ),
                decreases children@.len() - k,
            {
                let child: (usize, Board) = (children[k].0, children[k].1.clone());
                let mm: (usize, isize) = self.minimax(child, depth - 1, true);
                assert(mm.1 as int == reply_score(p, (depth - 1) as nat, false, k as int));
                if mm.1 < value {
                    value = mm.1;
                    move_ = children[k].0;
                }
                k += 1;
            }
            (move_, value)
        }
    }
}

impl Player for MinimaxAI {
    /// A searching player can be asked on every position.
    open spec fn can_be_asked(&self, p: Position) -> bool {
        true
    }

    /// A searching player finds a space where the game is in progress, if it
    /// searches at least one level deep.
    open spec fn can_play(&self, p: Position) -> bool {
        self@ > 0 && p.state() == -1
    }

    /// Chooses the space that a search of the board reports, as deep as the
    /// player searches and for the greatest score.
    fn choose_space(&self, b: &Board) -> (space: usize)
        ensures
            space == search(b@, 0, self@, true).0,
    {
        proof {
            use_type_invariant(b);
            lemma_search_reports_free_space(b@, 0, self@, true);
        }
        self.minimax((0, b.clone()), self.depth, true).0
    }
}

} // verus!
