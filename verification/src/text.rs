//! The board as text for a terminal: a grid of three rows, in which an empty
//! space shows its number in gray and a marked one the letter of its player
//! in bold, in green where it belongs to the winning line.

use vstd::prelude::*;
use crate::board::Board;
use crate::position::Position;
use crate::numeral::decimal;
use crate::numeral::number_text;

verus! {

/// The escape sequence that sets the foreground to a color given by its
/// red, green and blue parts.
pub open spec fn fg_rgb_code(red: u8, green: u8, blue: u8) -> Seq<char> {
    "\x1B[38;2;"@ + decimal(red as nat) + ";"@ + decimal(green as nat) + ";"@ + decimal(
        blue as nat,
    ) + "m"@
}

/// The escape sequence that sets the foreground back to its default color.
pub open spec fn fg_reset_code() -> Seq<char> {
    "\x1B[39m"@
}

/// The escape sequence that makes text bold.
pub open spec fn bold_code() -> Seq<char> {
    "\x1B[1m"@
}

/// The escape sequence that takes every style and color off the text.
pub open spec fn style_reset_code() -> Seq<char> {
    "\x1B[m"@
}

/// The letter that stands for a player: `X` for player 1, `O` for the other.
pub open spec fn letter_of(player: u8) -> Seq<char> {
    if player == 1 {
        "X"@
    } else {
        "O"@
    }
}

/// The text of one space: its number in gray if it is empty, else the letter
/// of its player in bold, and in green too if `green` is set.
pub open spec fn cell_text(mark: u8, space: nat, green: bool) -> Seq<char> {
    if mark == 0 {
        fg_rgb_code(70, 70, 70) + decimal(space) + fg_reset_code()
    } else if green {
        bold_code() + fg_rgb_code(0, 255, 0) + letter_of(mark) + fg_reset_code()
            + style_reset_code()
    } else {
        bold_code() + letter_of(mark) + style_reset_code()
    }
}

/// The text of the space `space` of a position, green if `win_spaces` holds
/// it.
pub open spec fn space_text(p: Position, space: int, win_spaces: Seq<usize>) -> Seq<char> {
    cell_text(p.mark(space), space as nat, win_spaces.contains(space as usize))
}

/// The text of row `row` of a position, with the rule below it.
pub open spec fn row_text(p: Position, row: int, win_spaces: Seq<usize>) -> Seq<char> {
    "| "@ + space_text(p, 3 * row + 1, win_spaces) + " | "@ + space_text(
        p,
        3 * row + 2,
        win_spaces,
    ) + " | "@ + space_text(p, 3 * row + 3, win_spaces) + " |"@ + fg_reset_code()
        + "\n|---|---|---|\n"@
}

/// The text of the top rule and the first `rows` rows of a position.
pub open spec fn rows_text(p: Position, rows: nat, win_spaces: Seq<usize>) -> Seq<char>
    decreases rows,
{
    if rows == 0 {
        "|---|---|---|\n"@
    } else {
        rows_text(p, (rows - 1) as nat, win_spaces) + row_text(p, rows - 1, win_spaces)
    }
}

/// The text of a position: the top rule and the three rows.
pub open spec fn board_text(p: Position, win_spaces: Seq<usize>) -> Seq<char> {
    rows_text(p, 3, win_spaces)
}

/// What termion's `color::Fg(color::Rgb(red, green, blue))` displays: the
/// escape sequence for a foreground color, its three parts in decimal.
#[verifier::external_body]
fn fg_rgb(red: u8, green: u8, blue: u8) -> (code: String)
    ensures
        code@ == fg_rgb_code(red, green, blue),
{
    format!("{}", termion::color::Fg(termion::color::Rgb(red, green, blue)))
}

/// What termion's `color::Fg(color::Reset)` displays: the escape sequence
/// for the default foreground color.
#[verifier::external_body]
fn fg_reset() -> (code: String)
    ensures
        code@ == fg_reset_code(),
{
    format!("{}", termion::color::Fg(termion::color::Reset))
}

/// What termion's `style::Bold` displays: the escape sequence for bold text.
#[verifier::external_body]
fn bold() -> (code: String)
    ensures
        code@ == bold_code(),
{
    format!("{}", termion::style::Bold)
}

/// What termion's `style::Reset` displays: the escape sequence that takes
/// every style and color off.
#[verifier::external_body]
fn style_reset() -> (code: String)
    ensures
        code@ == style_reset_code(),
{
    format!("{}", termion::style::Reset)
}

/// Returns the letter that stands for a player.
pub fn letter(player: u8) -> (text: &'static str)
    ensures
        text@ == letter_of(player),
{
    if player == 1 {
        "X"
    } else {
        "O"
    }
}

impl Board {
    /// Returns a formatted string with the character that should appear in
    /// the given space. If the space is not occupied, the space number will
    /// appear in gray. Otherwise, the letter of the player will appear. If
    /// the win screen is being displayed, it will be green.
    fn convert_char(x: u8, space: usize, green: bool) -> (text: String)
        ensures
            text@ == cell_text(x, space as nat, green),
    {
        if x == 0 {
            let mut text: String = fg_rgb(70, 70, 70);
            text.append(number_text(space).as_str());
            text.append(fg_reset().as_str());
            text
        } else {
            let xo: &str = letter(x);
            let mut text: String = bold();
            if green {
                text.append(fg_rgb(0, 255, 0).as_str());
                text.append(xo);
                text.append(fg_reset().as_str());
                text.append(style_reset().as_str());
            } else {
                text.append(xo);
                text.append(style_reset().as_str());
            }
            text
        }
    }

    /// Returns the text of the board with the given spaces highlighted in
    /// green, indicating a winner. If three zeros are given, no spaces will
    /// be green.
    pub fn print_win(&self, win_spaces: [usize; 3]) -> (text: String)
        ensures
            text@ == board_text(self@, win_spaces@),
    {
        proof {
            use_type_invariant(self);
        }
        let mut text: String = String::from_str("|---|---|---|\n");
        let mut i: usize = 0;
        while i < 3
            invariant
                0 <= i <= 3,
                self@.wf(),
                text@ == rows_text(self@, i as nat, win_spaces@),
            decreases 3 - i,
        {
            let row: [u8; 3] = self.row(i);
            let row_nums: [usize; 3] = Board::get_row_nums(i);
            let mut line: String = String::from_str("| ");
            line.append(
                Board::convert_char(row[0], row_nums[0], is_among(&win_spaces, row_nums[0])).as_str(),
            );
            line.append(" | ");
            line.append(
                Board::convert_char(row[1], row_nums[1], is_among(&win_spaces, row_nums[1])).as_str(),
            );
            line.append(" | ");
            line.append(
                Board::convert_char(row[2], row_nums[2], is_among(&win_spaces, row_nums[2])).as_str(),
            );
            line.append(" |");
            line.append(fg_reset().as_str());
            line.append("\n|---|---|---|\n");
            proof {
                let marks = self@.marks.subrange(3 * i, 3 * i + 3);
                assert(row[0] == marks[0] && row[1] == marks[1] && row[2] == marks[2]);
                assert(line@ == row_text(self@, i as int, win_spaces@));
            }
            text.append(line.as_str());
            i += 1;
        }
        text
    }

    /// Returns the text of the board (with no spaces highlighted green).
    pub fn print(&self) -> (text: String)
        ensures
            text@ == board_text(self@, seq![0usize, 0usize, 0usize]),
    {
        self.print_win([0, 0, 0])
    }
}

/// Whether `space` is one of the three spaces.
fn is_among(spaces: &[usize; 3], space: usize) -> (found: bool)
    ensures
        found == spaces@.contains(space),
{
    spaces[0] == space || spaces[1] == space || spaces[2] == space
}

} // verus!
