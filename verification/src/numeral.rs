//! Decimal numerals, as the standard library writes and reads them, and the
//! white space that it trims off a text.

use vstd::prelude::*;

verus! {

/// The ten decimal digits, in ascending order.
pub open spec fn digits() -> Seq<char> {
    seq!['0', '1', '2', '3', '4', '5', '6', '7', '8', '9']
}

/// The decimal numeral of `n`, without leading zeros.
pub open spec fn decimal(n: nat) -> Seq<char>
    decreases n,
{
    if n < 10 {
        seq![digits()[n as int]]
    } else {
        decimal(n / 10).push(digits()[(n % 10) as int])
    }
}

/// Whether `c` is one of the ten decimal digits.
pub open spec fn is_digit(c: char) -> bool {
    '0' <= c <= '9'
}

/// The number that a text of decimal digits spells; leading zeros do not
/// count.
pub open spec fn value(text: Seq<char>) -> nat
    decreases text.len(),
{
    if text.len() == 0 {
        0
    } else {
        (10 * value(text.drop_last()) + (text.last() as int - '0' as int)) as nat
    }
}

/// The number that a text of decimal digits spells, if it is one or more
/// digits and `usize` holds the number.
pub open spec fn unsigned(text: Seq<char>) -> Option<usize> {
    if text.len() > 0 && (forall|i: int| 0 <= i < text.len() ==> is_digit(#[trigger] text[i]))
        && value(text) <= usize::MAX {
        Some(value(text) as usize)
    } else {
        None
    }
}

/// The number that a text spells, if it spells one that `usize` holds: the
/// text is one or more decimal digits, before which a `+` may stand.
pub open spec fn number_of(text: Seq<char>) -> Option<usize> {
    if text.len() > 0 && text[0] == '+' {
        unsigned(text.drop_first())
    } else {
        unsigned(text)
    }
}

/// Whether `c` is white space: one of the characters that Unicode gives the
/// property White_Space.
pub open spec fn is_white_space(c: char) -> bool {
    ||| '\u{9}' <= c <= '\u{D}'
    ||| c == ' '
    ||| c == '\u{85}'
    ||| c == '\u{A0}'
    ||| c == '\u{1680}'
    ||| '\u{2000}' <= c <= '\u{200A}'
    ||| c == '\u{2028}'
    ||| c == '\u{2029}'
    ||| c == '\u{202F}'
    ||| c == '\u{205F}'
    ||| c == '\u{3000}'
}

/// The text without the white space at its start.
pub open spec fn trim_start(text: Seq<char>) -> Seq<char>
    decreases text.len(),
{
    if text.len() > 0 && is_white_space(text.first()) {
        trim_start(text.drop_first())
    } else {
        text
    }
}

/// The text without the white space at its end.
pub open spec fn trim_end(text: Seq<char>) -> Seq<char>
    decreases text.len(),
{
    if text.len() > 0 && is_white_space(text.last()) {
        trim_end(text.drop_last())
    } else {
        text
    }
}

/// The text without the white space at its two ends.
pub open spec fn trimmed(text: Seq<char>) -> Seq<char> {
    trim_end(trim_start(text))
}

/// `str::trim` of the standard library: the text without the white space at
/// its two ends, white space being the characters with the Unicode property
/// White_Space.
#[verifier::external_body]
pub(crate) fn trim(text: &str) -> (inner: &str)
    ensures
        inner@ == trimmed(text@),
{
    text.trim()
}

/// What the standard library displays for a `usize`: its decimal numeral.
#[verifier::external_body]
pub(crate) fn number_text(n: usize) -> (text: String)
    ensures
        text@ == decimal(n as nat),
{
    format!("{}", n)
}

/// `str::parse::<usize>` of the standard library: the number that the text
/// spells in decimal digits, after a `+` or after nothing, or none where the
/// text is anything else or the number is more than `usize` holds.
#[verifier::external_body]
pub(crate) fn parse(text: &str) -> (number: Option<usize>)
    ensures
        number == number_of(text@),
{
    text.parse::<usize>().ok()
}

} // verus!
