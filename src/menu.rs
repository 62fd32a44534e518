//! The numbered menus of the experiment driver: from a line of input to the
//! experiment, duration or count it selects.
use vstd::prelude::*;

verus! {

/// Whether `c` has the Unicode `White_Space` property, as `char::is_whitespace`
/// tests it.
pub open spec fn is_white_space(c: char) -> bool {
    ('\u{9}' <= c && c <= '\u{d}') || c == ' ' || c == '\u{85}' || c == '\u{a0}' || c
        == '\u{1680}' || ('\u{2000}' <= c && c <= '\u{200a}') || c == '\u{2028}' || c
        == '\u{2029}' || c == '\u{202f}' || c == '\u{205f}' || c == '\u{3000}'
}

/// `s` without its leading white space.
pub open spec fn trim_start_of(s: Seq<char>) -> Seq<char>
    decreases s.len(),
{
    if s.len() > 0 && is_white_space(s[0]) {
        trim_start_of(s.drop_first())
    } else {
        s
    }
}

/// `s` without its trailing white space.
pub open spec fn trim_end_of(s: Seq<char>) -> Seq<char>
    decreases s.len(),
{
    if s.len() > 0 && is_white_space(s.last()) {
        trim_end_of(s.drop_last())
    } else {
        s
    }
}

/// `s` without leading and trailing white space.
pub open spec fn trimmed(s: Seq<char>) -> Seq<char> {
    trim_end_of(trim_start_of(s))
}

/// Relies on std's `str::trim`: the line without leading and trailing
/// whitespace, whitespace being the Unicode `White_Space` property.
#[verifier::external_body]
fn trim_line<'a>(s: &'a str) -> (r: &'a str)
    ensures
        r@ == trimmed(s@),
{
    s.trim()
}

/// Whether every character is an ASCII decimal digit.
pub open spec fn all_digits(s: Seq<char>) -> bool {
    forall|i: int| 0 <= i < s.len() ==> '0' <= #[trigger] s[i] && s[i] <= '9'
}

/// The number that a string of decimal digits denotes.
pub open spec fn digits_value(s: Seq<char>) -> int
    decreases s.len(),
{
    if s.len() == 0 {
        0
    } else {
        10 * digits_value(s.drop_last()) + (s.last() as int - '0' as int)
    }
}

/// The digits of an unsigned number, after an optional leading `+`.
pub open spec fn unsigned_digits(s: Seq<char>) -> Seq<char> {
    if s.len() > 0 && s[0] == '+' {
        s.subrange(1, s.len() as int)
    } else {
        s
    }
}

/// The `usize` that `s` spells in decimal, if it spells one: an optional `+`,
/// then one or more digits, with a value that fits.
pub open spec fn decimal_usize(s: Seq<char>) -> Option<usize> {
    let d = unsigned_digits(s);
    if d.len() > 0 && all_digits(d) && digits_value(d) <= usize::MAX {
        Some(digits_value(d) as usize)
    } else {
        None
    }
}

/// Relies on std's `usize::from_str`: accepts an optional `+` followed by at
/// least one ASCII digit, with a value that fits in `usize`, and nothing else.
#[verifier::external_body]
fn parse_usize(s: &str) -> (r: Option<usize>)
    ensures
        r == decimal_usize(s@),
{
    s.parse::<usize>().ok()
}

/// The two experiments a run can perform.
#[derive(Clone, Copy, Debug, PartialEq, Eq, Structural)]
pub enum Experiment {
    Rng,
    Candle,
}

/// Why a menu answer was not taken as given; the driver warns and goes on
/// with the fallback value.
#[derive(Clone, Copy, Debug, PartialEq, Eq, Structural)]
pub enum InputError {
    NotANumber,
    OutOfRange,
}

/// The menu number a line of input holds, if it holds one.
pub fn parse_choice(line: &str) -> (r: Option<usize>)
    ensures
        r == decimal_usize(trimmed(line@)),
{
    parse_usize(trim_line(line))
}

/// The length in seconds of each entry of the duration menu; zero for any
/// other number.
pub open spec fn duration_secs(choice: int) -> u64 {
    if choice == 1 {
        30
    } else if choice == 2 {
        60
    } else if choice == 3 {
        120
    } else if choice == 4 {
        300
    } else if choice == 5 {
        1200
    } else if choice == 6 {
        3600
    } else {
        0
    }
}

/// What `duration_for` returns, as a function of the answer.
pub open spec fn duration_for_spec(choice: Option<usize>) -> (u64, Option<InputError>) {
    match choice {
        None => (0u64, Some(InputError::NotANumber)),
        Some(i) => (duration_secs(i as int), None::<InputError>),
    }
}

/// The duration that a menu answer selects; no number gives zero with a
/// warning.
pub fn duration_for(choice: Option<usize>) -> (r: (u64, Option<InputError>))
    ensures
        r == duration_for_spec(choice),
{
    match choice {
        None => (0, Some(InputError::NotANumber)),
        Some(i) => {
            let secs: u64 = if i == 1 {
                30
            } else if i == 2 {
                60
            } else if i == 3 {
                120
            } else if i == 4 {
                5 * 60
            } else if i == 5 {
                20 * 60
            } else if i == 6 {
                60 * 60
            } else {
                0
            };
            (secs, None)
        },
    }
}

/// The duration that a line of input selects from the duration menu.
pub fn get_duration(line: &str) -> (r: (u64, Option<InputError>))
    ensures
        r == duration_for_spec(decimal_usize(trimmed(line@))),
{
    duration_for(parse_choice(line))
}

/// What `number_for` returns, as a function of the answer.
pub open spec fn number_for_spec(choice: Option<usize>) -> (u8, Option<InputError>) {
    match choice {
        Some(i) if i <= u8::MAX => (i as u8, None::<InputError>),
        _ => (0u8, Some(InputError::NotANumber)),
    }
}

/// The count that a menu answer gives: the number when it fits in a `u8`,
/// else zero with a warning.
pub fn number_for(choice: Option<usize>) -> (r: (u8, Option<InputError>))
    ensures
        r == number_for_spec(choice),
{
    match choice {
        Some(i) => {
            if i <= 255 {
                (i as u8, None)
            } else {
                (0, Some(InputError::NotANumber))
            }
        },
        None => (0, Some(InputError::NotANumber)),
    }
}

/// The count that a line of input gives.
pub fn get_number(line: &str) -> (r: (u8, Option<InputError>))
    ensures
        r == number_for_spec(decimal_usize(trimmed(line@))),
{
    number_for(parse_choice(line))
}

/// What `experiment_for` returns, as a function of the answer.
pub open spec fn experiment_for_spec(choice: Option<usize>) -> (Experiment, Option<InputError>) {
    match choice {
        None => (Experiment::Rng, Some(InputError::NotANumber)),
        Some(i) => if i == 1 {
            (Experiment::Rng, None::<InputError>)
        } else if i == 2 {
            (Experiment::Candle, None::<InputError>)
        } else {
            (Experiment::Rng, Some(InputError::OutOfRange))
        },
    }
}

/// The experiment that a menu answer selects: `1` the coin flips, `2` the
/// candle; anything else falls back to the coin flips with a warning.
pub fn experiment_for(choice: Option<usize>) -> (r: (Experiment, Option<InputError>))
    ensures
        r == experiment_for_spec(choice),
{
    match choice {
        None => (Experiment::Rng, Some(InputError::NotANumber)),
        Some(i) => {
            if i == 1 {
                (Experiment::Rng, None)
            } else if i == 2 {
                (Experiment::Candle, None)
            } else {
                (Experiment::Rng, Some(InputError::OutOfRange))
            }
        },
    }
}

/// The experiment that a line of input selects.
pub fn get_experiment(line: &str) -> (r: (Experiment, Option<InputError>))
    ensures
        r == experiment_for_spec(decimal_usize(trimmed(line@))),
{
    experiment_for(parse_choice(line))
}

} // verus!
