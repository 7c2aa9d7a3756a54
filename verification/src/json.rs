//! JSON as the adapters read it: a document is held as its text, and every
//! question about it is answered by `serde_json` (and `jsonpath_lib` for path
//! expressions). What those crates answer is named here, not restated.

use crate::text::{chars_of, digit, is_digit, is_space, opt_text, space, texts};
use vstd::prelude::*;

verus! {

/// The message of `serde_json::from_str` on a text that is no JSON document;
/// `None` for a well-formed one.
pub uninterp spec fn json_error(body: Seq<char>) -> Option<Seq<char>>;

/// The matches of the JSONPath expression `path` in the document `body`, each
/// in compact JSON notation; the error message where `jsonpath_lib` refuses the path.
pub uninterp spec fn json_path_select(body: Seq<char>, path: Seq<char>) -> Result<
    Seq<Seq<char>>,
    Seq<char>,
>;

/// The string that the document `body` holds at the JSON Pointer `pointer`;
/// `None` where it holds none there.
pub uninterp spec fn json_str_at(body: Seq<char>, pointer: Seq<char>) -> Option<Seq<char>>;

/// The unsigned integer that the document `body` holds at `pointer`.
pub uninterp spec fn json_u64_at(body: Seq<char>, pointer: Seq<char>) -> Option<u64>;

/// The signed integer that the document `body` holds at `pointer`.
pub uninterp spec fn json_i64_at(body: Seq<char>, pointer: Seq<char>) -> Option<i64>;

/// The length of the array that the document `body` holds at `pointer`.
pub uninterp spec fn json_array_len_at(body: Seq<char>, pointer: Seq<char>) -> Option<nat>;

/// Whether the document `body` holds any value at `pointer`.
pub uninterp spec fn json_has(body: Seq<char>, pointer: Seq<char>) -> bool;

/// The string that the document `body` holds where the members `keys`
/// lead, one inside the other from the root; `None` where a member is
/// missing and where what is reached is no string.
pub uninterp spec fn json_member_str(body: Seq<char>, keys: Seq<Seq<char>>) -> Option<Seq<char>>;

/// What the document `body` holds where the members `keys` lead, in compact
/// JSON notation; `None` where a member is missing.
pub uninterp spec fn json_member_json(body: Seq<char>, keys: Seq<Seq<char>>) -> Option<Seq<char>>;

/// What the document `body` holds where the members `keys` lead, as it is
/// shown: a string bare, any other value in compact JSON notation; `None`
/// where a member is missing.
pub open spec fn json_member_text(body: Seq<char>, keys: Seq<Seq<char>>) -> Option<Seq<char>> {
    match json_member_str(body, keys) {
        Some(s) => Some(s),
        None => json_member_json(body, keys),
    }
}

/// Why a path expression gave no list of matches.
pub enum SelectFailure {
    /// The text is no JSON document.
    Malformed(String),
    /// The path expression was refused.
    BadPath(String),
}

/// `serde_json::from_str::<Value>`: reports the parser's message for a text
/// that is no JSON document, and nothing for one that is.
#[verifier::external_body]
pub(crate) fn parse_error(body: &str) -> (r: Option<String>)
    ensures
        opt_text(r) == json_error(body@),
{
    match serde_json::from_str::<serde_json::Value>(body) {
        Ok(_) => None,
        Err(e) => Some(e.to_string()),
    }
}

/// The longest path expression that is handed to the evaluator. Its parser
/// and the evaluator call themselves once for every segment and every
/// parenthesis of a path, so that a path without a bound can use up the stack.
pub const MAX_PATH_LEN: usize = 1024;

/// The most digits that a number in a filter may have before its point.
pub const MAX_DIGITS: u16 = 300;

/// The greatest sum of the digits before the point and the exponent that a
/// number in a filter may have: such a number is less than ten to the power
/// of 308 and so within the range of floating point numbers.
pub const MAX_MAGNITUDE: u16 = 308;

/// The characters that are tokens of a path expression by themselves; all
/// but `$` end a key that begins with `$`.
pub open spec fn is_special(c: char) -> bool {
    ||| c == '$'
    ||| c == '.'
    ||| c == '*'
    ||| c == '['
    ||| c == ']'
    ||| c == '('
    ||| c == ')'
    ||| c == '@'
    ||| c == '?'
    ||| c == ','
    ||| c == ':'
    ||| c == '<'
    ||| c == '>'
    ||| c == '='
    ||| c == '&'
    ||| c == '|'
    ||| c == '!'
}

/// The characters that open and close a quoted string.
pub open spec fn is_quote(c: char) -> bool {
    c == '\'' || c == '"'
}

/// The value of a digit.
pub open spec fn digit_value(c: char) -> u16 {
    (c as u32 - 0x30) as u16
}

/// How far a quoted string has been read.
#[derive(Clone, Copy, Debug, PartialEq, Eq, Structural)]
pub enum QuoteStage {
    /// Up to its first closing quote; the flag says that the last character
    /// was a backslash, which makes a quote that follows part of the string.
    First(bool),
    /// Behind a quote that was part of the string: the next quote closes it.
    Second,
}

/// Which token of a path expression is being read.
#[derive(Clone, Copy, Debug, PartialEq, Eq, Structural)]
pub enum Mode {
    /// None: the next character begins a token.
    Base,
    /// A key. Quotes and what is not special go on with it.
    Key,
    /// A key that began with `$`; the flag says that it is the `$` alone so far.
    Dollar(bool),
    /// A string between quotes of this kind. Nothing in it is special.
    Quote(char, QuoteStage),
}

/// How far a bracket has been read.
#[derive(Clone, Copy, Debug, PartialEq, Eq, Structural)]
pub enum Bracket {
    /// No bracket is being read that matters.
    Far,
    /// `[` and white space at most.
    Open,
    /// `[` and part of a key.
    OpenKey,
    /// `[`, a key and white space.
    OpenKeySpace,
    /// The first colon of a slice, and white space at most since.
    Colon,
    /// The first colon of a slice and part of a key.
    ColonKey,
    /// The first colon of a slice, a key and white space.
    ColonKeySpace,
    /// The second colon of a slice: what follows is its step.
    StepExpect,
    /// The step began with a plus sign.
    StepPlus,
    /// The step is made of zeros so far.
    StepZeros,
    /// The step holds something else than zeros.
    StepOther,
    /// The step is made of zeros and is followed by white space.
    ZerosSpace,
    /// `[` and `?`: a parenthesis that follows opens a filter.
    Question,
    /// `[` inside a filter, and white space at most since.
    InnerOpen,
    /// `[` inside a filter and a quoted string.
    InnerQuoted,
}

/// How far a number inside a filter has been read.
#[derive(Clone, Copy, Debug, PartialEq, Eq, Structural)]
pub enum NumberStage {
    /// No number is being read.
    Off,
    /// A minus sign.
    Sign,
    /// This many digits, after a minus sign at most.
    Int(u16),
    /// The digits before the point, of this number, and the point.
    Dot(u16),
    /// The digits behind the point.
    Frac(u16),
    /// The letter that begins the exponent.
    ExpStart(u16),
    /// An exponent below zero.
    ExpNeg,
    /// The digits before the point, of this number, and an exponent of this
    /// value so far.
    ExpPos(u16, u16),
}

/// What reading a path expression from its start has found.
#[derive(Clone, Copy, Debug, PartialEq, Eq, Structural)]
pub struct PathScan {
    /// Nothing was read that the evaluator is known to abort on.
    pub ok: bool,
    pub mode: Mode,
    /// How many parentheses of a filter are open; zero outside filters.
    pub depth: u16,
    pub bracket: Bracket,
    pub number: NumberStage,
    /// How many points stand directly before, two standing for more.
    pub dots: u8,
}

/// The scan of the empty path.
pub open spec fn scan_start() -> PathScan {
    PathScan {
        ok: true,
        mode: Mode::Base,
        depth: 0,
        bracket: Bracket::Far,
        number: NumberStage::Off,
        dots: 0,
    }
}

/// The token that is read after one more character of a quoted string.
pub open spec fn quote_next(q: char, stage: QuoteStage, c: char) -> Mode {
    match stage {
        QuoteStage::First(escaped) => if c == q {
            if escaped {
                Mode::Quote(q, QuoteStage::Second)
            } else {
                Mode::Base
            }
        } else {
            Mode::Quote(q, QuoteStage::First(c == '\\'))
        },
        QuoteStage::Second => if c == q {
            Mode::Base
        } else {
            Mode::Quote(q, QuoteStage::Second)
        },
    }
}

/// The bracket after white space.
pub open spec fn bracket_after_space(b: Bracket) -> Bracket {
    match b {
        Bracket::Open => Bracket::Open,
        Bracket::OpenKey => Bracket::OpenKeySpace,
        Bracket::OpenKeySpace => Bracket::OpenKeySpace,
        Bracket::Colon => Bracket::Colon,
        Bracket::ColonKey => Bracket::ColonKeySpace,
        Bracket::ColonKeySpace => Bracket::ColonKeySpace,
        Bracket::StepExpect => Bracket::StepExpect,
        Bracket::StepZeros => Bracket::ZerosSpace,
        Bracket::ZerosSpace => Bracket::ZerosSpace,
        Bracket::InnerOpen => Bracket::InnerOpen,
        Bracket::InnerQuoted => Bracket::InnerQuoted,
        _ => Bracket::Far,
    }
}

/// The bracket after a colon.
pub open spec fn bracket_after_colon(b: Bracket) -> Bracket {
    match b {
        Bracket::Open => Bracket::Colon,
        Bracket::OpenKey => Bracket::Colon,
        Bracket::OpenKeySpace => Bracket::Colon,
        Bracket::Colon => Bracket::StepExpect,
        Bracket::ColonKey => Bracket::StepExpect,
        Bracket::ColonKeySpace => Bracket::StepExpect,
        _ => Bracket::Far,
    }
}

/// The bracket after one more character of a key.
pub open spec fn bracket_after_key(b: Bracket, c: char) -> Bracket {
    match b {
        Bracket::Open => Bracket::OpenKey,
        Bracket::OpenKey => Bracket::OpenKey,
        Bracket::Colon => Bracket::ColonKey,
        Bracket::ColonKey => Bracket::ColonKey,
        Bracket::StepExpect => if c == '+' {
            Bracket::StepPlus
        } else if c == '0' {
            Bracket::StepZeros
        } else {
            Bracket::StepOther
        },
        Bracket::StepPlus => if c == '0' {
            Bracket::StepZeros
        } else {
            Bracket::StepOther
        },
        Bracket::StepZeros => if c == '0' {
            Bracket::StepZeros
        } else {
            Bracket::StepOther
        },
        Bracket::StepOther => Bracket::StepOther,
        _ => Bracket::Far,
    }
}

/// The number after one more character of a key inside a filter; nothing
/// where the key stops being a number that is known to be within the range
/// of floating point numbers: a minus sign at most, up to `MAX_DIGITS`
/// digits, a point and digits, and an exponent that keeps it below ten to
/// the power of `MAX_MAGNITUDE`. A key begins a number where it begins with a
/// minus sign or a digit and does not follow a point, and goes on with one
/// where it follows the point of one.
pub open spec fn number_next(stage: NumberStage, begins: bool, dots: u8, c: char) -> Option<
    NumberStage,
> {
    let exponent = c == 'e' || c == 'E';
    match stage {
        NumberStage::Off => if begins && dots == 0 && c == '-' {
            Some(NumberStage::Sign)
        } else if begins && dots == 0 && is_digit(c) {
            Some(NumberStage::Int(1))
        } else {
            Some(NumberStage::Off)
        },
        NumberStage::Sign => if is_digit(c) {
            Some(NumberStage::Int(1))
        } else {
            None
        },
        NumberStage::Int(d) => if is_digit(c) && d < MAX_DIGITS {
            Some(NumberStage::Int((d + 1) as u16))
        } else if exponent {
            Some(NumberStage::ExpStart(d))
        } else {
            None
        },
        NumberStage::Dot(d) => if is_digit(c) {
            Some(NumberStage::Frac(d))
        } else if exponent {
            Some(NumberStage::ExpStart(d))
        } else {
            None
        },
        NumberStage::Frac(d) => if is_digit(c) {
            Some(NumberStage::Frac(d))
        } else if exponent {
            Some(NumberStage::ExpStart(d))
        } else {
            None
        },
        NumberStage::ExpStart(d) => if c == '-' {
            Some(NumberStage::ExpNeg)
        } else if c == '+' {
            Some(NumberStage::ExpPos(d, 0))
        } else if is_digit(c) && d + digit_value(c) <= MAX_MAGNITUDE {
            Some(NumberStage::ExpPos(d, digit_value(c)))
        } else {
            None
        },
        NumberStage::ExpNeg => if is_digit(c) {
            Some(NumberStage::ExpNeg)
        } else {
            None
        },
        NumberStage::ExpPos(d, e) => if is_digit(c) && e <= MAX_MAGNITUDE && d + 10 * e
            + digit_value(c) <= MAX_MAGNITUDE {
            Some(NumberStage::ExpPos(d, (10 * e + digit_value(c)) as u16))
        } else {
            None
        },
    }
}

/// Whether a key that began with `$` ends here as the `$` alone inside a
/// filter: a path from the root inside a filter.
pub open spec fn root_in_filter(s: PathScan) -> bool {
    s.depth > 0 && s.mode == Mode::Dollar(true)
}

/// The scan after white space, which ends a key.
pub open spec fn after_space(s: PathScan) -> PathScan {
    PathScan {
        ok: !root_in_filter(s),
        mode: Mode::Base,
        depth: s.depth,
        bracket: bracket_after_space(s.bracket),
        number: NumberStage::Off,
        dots: 0,
    }
}

/// The scan after a `$`, which goes on with a key that began with one and
/// begins such a key everywhere else.
pub open spec fn after_dollar(s: PathScan) -> PathScan {
    PathScan {
        ok: s.bracket != Bracket::InnerOpen,
        mode: Mode::Dollar(!(s.mode is Dollar)),
        depth: s.depth,
        bracket: Bracket::Far,
        number: NumberStage::Off,
        dots: 0,
    }
}

/// The scan after a quote that opens a string.
pub open spec fn after_quote(s: PathScan, c: char) -> PathScan {
    PathScan {
        ok: true,
        mode: Mode::Quote(c, QuoteStage::First(false)),
        depth: s.depth,
        bracket: if s.bracket == Bracket::InnerOpen {
            Bracket::InnerQuoted
        } else {
            Bracket::Far
        },
        number: NumberStage::Off,
        dots: 0,
    }
}

/// The scan after a special character other than `$`. It fails
/// - at the `]` behind a step of zeros;
/// - inside a filter: at a path from the root, at a comma, at a bracket
///   behind two points, and at whatever follows a bracket but a quoted string.
pub open spec fn after_special(s: PathScan, c: char) -> PathScan {
    let inside = s.depth > 0;
    PathScan {
        ok: !root_in_filter(s) && !(inside && c == ',') && !(inside && c == '[' && s.dots >= 2)
            && !(c == ']' && (s.bracket == Bracket::StepZeros || s.bracket
            == Bracket::ZerosSpace)) && s.bracket != Bracket::InnerOpen && !(inside && c == '('
            && s.depth >= MAX_PATH_LEN),
        mode: Mode::Base,
        depth: if c == '(' && !inside && s.bracket == Bracket::Question {
            1
        } else if c == '(' && inside && s.depth < MAX_PATH_LEN {
            (s.depth + 1) as u16
        } else if c == ')' && inside {
            (s.depth - 1) as u16
        } else {
            s.depth
        },
        bracket: if c == '[' {
            if inside {
                Bracket::InnerOpen
            } else {
                Bracket::Open
            }
        } else if c == ':' {
            bracket_after_colon(s.bracket)
        } else if c == '?' && s.bracket == Bracket::Open {
            Bracket::Question
        } else {
            Bracket::Far
        },
        number: if c == '.' && inside {
            match s.number {
                NumberStage::Sign => NumberStage::Dot(0),
                NumberStage::Int(d) => NumberStage::Dot(d),
                _ => NumberStage::Off,
            }
        } else {
            NumberStage::Off
        },
        dots: if c == '.' {
            if s.dots == 0 {
                1
            } else {
                2
            }
        } else {
            0
        },
    }
}

/// The scan after a character that begins a key or goes on with one.
pub open spec fn after_key(s: PathScan, c: char) -> PathScan {
    let number = if s.depth > 0 && !(s.mode is Dollar) {
        number_next(s.number, s.mode == Mode::Base, s.dots, c)
    } else {
        Some(NumberStage::Off)
    };
    PathScan {
        ok: s.bracket != Bracket::InnerOpen && number is Some,
        mode: if s.mode is Dollar {
            Mode::Dollar(false)
        } else {
            Mode::Key
        },
        depth: s.depth,
        bracket: if s.mode is Dollar {
            Bracket::Far
        } else {
            bracket_after_key(s.bracket, c)
        },
        number: match number {
            Some(n) => n,
            None => NumberStage::Off,
        },
        dots: 0,
    }
}

/// The scan after one more character, read as the tokenizer of the
/// evaluator reads it: a quoted string is one token, whatever it holds.
pub open spec fn scan_char(s: PathScan, c: char) -> PathScan {
    if !s.ok {
        s
    } else {
        match s.mode {
            Mode::Quote(q, stage) => PathScan { mode: quote_next(q, stage, c), ..s },
            _ => if is_space(c) {
                after_space(s)
            } else if c == '$' {
                after_dollar(s)
            } else if is_special(c) {
                after_special(s, c)
            } else if is_quote(c) && s.mode == Mode::Base {
                after_quote(s, c)
            } else {
                after_key(s, c)
            },
        }
    }
}

/// The scan of a whole path expression.
pub open spec fn scanned(path: Seq<char>) -> PathScan
    decreases path.len(),
{
    if path.len() == 0 {
        scan_start()
    } else {
        scan_char(scanned(path.drop_last()), path.last())
    }
}

/// Whether a path expression is handed to the evaluator. Left out is what
/// the evaluator is known to abort on:
/// - a path of more than `MAX_PATH_LEN` characters;
/// - a slice whose step is zero;
/// - inside the parentheses of a filter: a bracket that holds anything but
///   one quoted string, or that follows two points; a comma; a path from the
///   root; and a number that is not known to be within the range of floating
///   point numbers.
pub open spec fn path_supported(path: Seq<char>) -> bool {
    path.len() <= MAX_PATH_LEN && scanned(path).ok
}

fn special(c: char) -> (r: bool)
    ensures
        r == is_special(c),
{
    c == '$' || c == '.' || c == '*' || c == '[' || c == ']' || c == '(' || c == ')' || c == '@'
        || c == '?' || c == ',' || c == ':' || c == '<' || c == '>' || c == '=' || c == '&' || c
        == '|' || c == '!'
}

fn value_of(c: char) -> (r: u16)
    requires
        is_digit(c),
    ensures
        r == digit_value(c),
        r <= 9,
{
    let n: u32 = c as u32;
    (n - 0x30) as u16
}

fn next_in_quote(q: char, stage: QuoteStage, c: char) -> (r: Mode)
    ensures
        r == quote_next(q, stage, c),
{
    match stage {
        QuoteStage::First(escaped) => if c == q {
            if escaped {
                Mode::Quote(q, QuoteStage::Second)
            } else {
                Mode::Base
            }
        } else {
            Mode::Quote(q, QuoteStage::First(c == '\\'))
        },
        QuoteStage::Second => if c == q {
            Mode::Base
        } else {
            Mode::Quote(q, QuoteStage::Second)
        },
    }
}

fn bracket_space(b: Bracket) -> (r: Bracket)
    ensures
        r == bracket_after_space(b),
{
    match b {
        Bracket::Open => Bracket::Open,
        Bracket::OpenKey => Bracket::OpenKeySpace,
        Bracket::OpenKeySpace => Bracket::OpenKeySpace,
        Bracket::Colon => Bracket::Colon,
        Bracket::ColonKey => Bracket::ColonKeySpace,
        Bracket::ColonKeySpace => Bracket::ColonKeySpace,
        Bracket::StepExpect => Bracket::StepExpect,
        Bracket::StepZeros => Bracket::ZerosSpace,
        Bracket::ZerosSpace => Bracket::ZerosSpace,
        Bracket::InnerOpen => Bracket::InnerOpen,
        Bracket::InnerQuoted => Bracket::InnerQuoted,
        _ => Bracket::Far,
    }
}

fn bracket_colon(b: Bracket) -> (r: Bracket)
    ensures
        r == bracket_after_colon(b),
{
    match b {
        Bracket::Open => Bracket::Colon,
        Bracket::OpenKey => Bracket::Colon,
        Bracket::OpenKeySpace => Bracket::Colon,
        Bracket::Colon => Bracket::StepExpect,
        Bracket::ColonKey => Bracket::StepExpect,
        Bracket::ColonKeySpace => Bracket::StepExpect,
        _ => Bracket::Far,
    }
}

fn bracket_key(b: Bracket, c: char) -> (r: Bracket)
    ensures
        r == bracket_after_key(b, c),
{
    match b {
        Bracket::Open => Bracket::OpenKey,
        Bracket::OpenKey => Bracket::OpenKey,
        Bracket::Colon => Bracket::ColonKey,
        Bracket::ColonKey => Bracket::ColonKey,
        Bracket::StepExpect => if c == '+' {
            Bracket::StepPlus
        } else if c == '0' {
            Bracket::StepZeros
        } else {
            Bracket::StepOther
        },
        Bracket::StepPlus => if c == '0' {
            Bracket::StepZeros
        } else {
            Bracket::StepOther
        },
        Bracket::StepZeros => if c == '0' {
            Bracket::StepZeros
        } else {
            Bracket::StepOther
        },
        Bracket::StepOther => Bracket::StepOther,
        _ => Bracket::Far,
    }
}

fn next_number(stage: NumberStage, begins: bool, dots: u8, c: char) -> (r: Option<NumberStage>)
    ensures
        r == number_next(stage, begins, dots, c),
{
    let exponent = c == 'e' || c == 'E';
    let numeral = digit(c);
    match stage {
        NumberStage::Off => if begins && dots == 0 && c == '-' {
            Some(NumberStage::Sign)
        } else if begins && dots == 0 && numeral {
            Some(NumberStage::Int(1))
        } else {
            Some(NumberStage::Off)
        },
        NumberStage::Sign => if numeral {
            Some(NumberStage::Int(1))
        } else {
            None
        },
        NumberStage::Int(d) => if numeral && d < MAX_DIGITS {
            Some(NumberStage::Int(d + 1))
        } else if exponent {
            Some(NumberStage::ExpStart(d))
        } else {
            None
        },
        NumberStage::Dot(d) => if numeral {
            Some(NumberStage::Frac(d))
        } else if exponent {
            Some(NumberStage::ExpStart(d))
        } else {
            None
        },
        NumberStage::Frac(d) => if numeral {
            Some(NumberStage::Frac(d))
        } else if exponent {
            Some(NumberStage::ExpStart(d))
        } else {
            None
        },
        NumberStage::ExpStart(d) => if c == '-' {
            Some(NumberStage::ExpNeg)
        } else if c == '+' {
            Some(NumberStage::ExpPos(d, 0))
        } else if numeral && d <= MAX_MAGNITUDE && d + value_of(c) <= MAX_MAGNITUDE {
            Some(NumberStage::ExpPos(d, value_of(c)))
        } else {
            None
        },
        NumberStage::ExpNeg => if numeral {
            Some(NumberStage::ExpNeg)
        } else {
            None
        },
        NumberStage::ExpPos(d, e) => if numeral && e <= MAX_MAGNITUDE && d <= MAX_MAGNITUDE && d
            + 10 * e + value_of(c) <= MAX_MAGNITUDE {
            Some(NumberStage::ExpPos(d, 10 * e + value_of(c)))
        } else {
            None
        },
    }
}

fn scan_next(s: PathScan, c: char) -> (r: PathScan)
    ensures
        r == scan_char(s, c),
{
    if !s.ok {
        return s;
    }
    let inside = s.depth > 0;
    let dollar = match s.mode {
        Mode::Dollar(_) => true,
        _ => false,
    };
    let root = match s.mode {
        Mode::Dollar(alone) => alone && inside,
        _ => false,
    };
    let base = match s.mode {
        Mode::Base => true,
        _ => false,
    };
    match s.mode {
        Mode::Quote(q, stage) => {
            return PathScan {
                ok: s.ok,
                mode: next_in_quote(q, stage, c),
                depth: s.depth,
                bracket: s.bracket,
                number: s.number,
                dots: s.dots,
            };
        },
        _ => {},
    }
    if space(c) {
        PathScan {
            ok: !root,
            mode: Mode::Base,
            depth: s.depth,
            bracket: bracket_space(s.bracket),
            number: NumberStage::Off,
            dots: 0,
        }
    } else if c == '$' {
        PathScan {
            ok: s.bracket != Bracket::InnerOpen,
            mode: Mode::Dollar(!dollar),
            depth: s.depth,
            bracket: Bracket::Far,
            number: NumberStage::Off,
            dots: 0,
        }
    } else if special(c) {
        PathScan {
            ok: !root && !(inside && c == ',') && !(inside && c == '[' && s.dots >= 2) && !(c
                == ']' && (s.bracket == Bracket::StepZeros || s.bracket == Bracket::ZerosSpace))
                && s.bracket != Bracket::InnerOpen && !(inside && c == '(' && s.depth as usize
                >= MAX_PATH_LEN),
            mode: Mode::Base,
            depth: if c == '(' && !inside && s.bracket == Bracket::Question {
                1
            } else if c == '(' && inside && (s.depth as usize) < MAX_PATH_LEN {
                s.depth + 1
            } else if c == ')' && inside {
                s.depth - 1
            } else {
                s.depth
            },
            bracket: if c == '[' {
                if inside {
                    Bracket::InnerOpen
                } else {
                    Bracket::Open
                }
            } else if c == ':' {
                bracket_colon(s.bracket)
            } else if c == '?' && s.bracket == Bracket::Open {
                Bracket::Question
            } else {
                Bracket::Far
            },
            number: if c == '.' && inside {
                match s.number {
                    NumberStage::Sign => NumberStage::Dot(0),
                    NumberStage::Int(d) => NumberStage::Dot(d),
                    _ => NumberStage::Off,
                }
            } else {
                NumberStage::Off
            },
            dots: if c == '.' {
                if s.dots == 0 {
                    1
                } else {
                    2
                }
            } else {
                0
            },
        }
    } else if (c == '\'' || c == '"') && base {
        PathScan {
            ok: true,
            mode: Mode::Quote(c, QuoteStage::First(false)),
            depth: s.depth,
            bracket: if s.bracket == Bracket::InnerOpen {
                Bracket::InnerQuoted
            } else {
                Bracket::Far
            },
            number: NumberStage::Off,
            dots: 0,
        }
    } else {
        let number = if inside && !dollar {
            next_number(s.number, base, s.dots, c)
        } else {
            Some(NumberStage::Off)
        };
        PathScan {
            ok: s.bracket != Bracket::InnerOpen && number.is_some(),
            mode: if dollar {
                Mode::Dollar(false)
            } else {
                Mode::Key
            },
            depth: s.depth,
            bracket: if dollar {
                Bracket::Far
            } else {
                bracket_key(s.bracket, c)
            },
            number: match number {
                Some(n) => n,
                None => NumberStage::Off,
            },
            dots: 0,
        }
    }
}

/// Whether a path expression is handed to the evaluator.
pub fn path_is_supported(path: &str) -> (r: bool)
    ensures
        r == path_supported(path@),
{
    let v = chars_of(path);
    let n = v.len();
    if n > MAX_PATH_LEN {
        return false;
    }
    let mut state = PathScan {
        ok: true,
        mode: Mode::Base,
        depth: 0,
        bracket: Bracket::Far,
        number: NumberStage::Off,
        dots: 0,
    };
    let mut i: usize = 0;
    while i < n
        invariant
            i <= n == v@.len(),
            state == scanned(v@.take(i as int)),
        decreases n - i,
    {
        assert(v@.take(i + 1).drop_last() =~= v@.take(i as int));
        assert(v@.take(i + 1).last() == v@[i as int]);
        state = scan_next(state, v[i]);
        i += 1;
    }
    assert(v@.take(n as int) =~= v@);
    state.ok
}

/// `jsonpath_lib::select` on the document parsed by `serde_json::from_str`,
/// each match rendered by `serde_json::Value`'s `Display` (compact JSON).
/// The evaluator aborts on a slice with step 0 and, inside a filter, on keys,
/// a slice, a union, an index or a wildcard in brackets, on a number beyond
/// floating point, and on a path from the root; `path_supported` leaves
/// those out.
#[verifier::external_body]
pub(crate) fn select_json(body: &str, path: &str) -> (r: Result<Vec<String>, SelectFailure>)
    requires
        path_supported(path@),
    ensures
        match r {
            Ok(found) => json_error(body@) is None && json_path_select(body@, path@) == Ok::<
                Seq<Seq<char>>,
                Seq<char>,
            >(texts(found@)),
            Err(SelectFailure::Malformed(e)) => json_error(body@) == Some(e@),
            Err(SelectFailure::BadPath(e)) => json_error(body@) is None && json_path_select(
                body@,
                path@,
            ) == Err::<Seq<Seq<char>>, Seq<char>>(e@),
        },
{
    let json: serde_json::Value = match serde_json::from_str(body) {
        Ok(v) => v,
        Err(e) => return Err(SelectFailure::Malformed(e.to_string())),
    };
    match jsonpath_lib::select(&json, path) {
        Ok(found) => Ok(found.iter().map(|v| v.to_string()).collect()),
        Err(e) => Err(SelectFailure::BadPath(e.to_string())),
    }
}

/// `serde_json::Value::pointer` followed by `as_str`, on the parsed document.
#[verifier::external_body]
pub(crate) fn str_at(body: &str, pointer: &str) -> (r: Option<String>)
    ensures
        opt_text(r) == json_str_at(body@, pointer@),
{
    let json: serde_json::Value = serde_json::from_str(body).ok()?;
    json.pointer(pointer)?.as_str().map(|s| s.to_string())
}

/// `serde_json::Value::pointer` followed by `as_u64`, on the parsed document.
#[verifier::external_body]
pub(crate) fn u64_at(body: &str, pointer: &str) -> (r: Option<u64>)
    ensures
        r == json_u64_at(body@, pointer@),
{
    let json: serde_json::Value = serde_json::from_str(body).ok()?;
    json.pointer(pointer)?.as_u64()
}

/// `serde_json::Value::pointer` followed by `as_i64`, on the parsed document.
#[verifier::external_body]
pub(crate) fn i64_at(body: &str, pointer: &str) -> (r: Option<i64>)
    ensures
        r == json_i64_at(body@, pointer@),
{
    let json: serde_json::Value = serde_json::from_str(body).ok()?;
    json.pointer(pointer)?.as_i64()
}

/// `serde_json::Value::pointer` followed by `as_array` and the array's length.
#[verifier::external_body]
pub(crate) fn array_len_at(body: &str, pointer: &str) -> (r: Option<usize>)
    ensures
        match r {
            Some(n) => json_array_len_at(body@, pointer@) == Some(n as nat),
            None => json_array_len_at(body@, pointer@) is None,
        },
{
    let json: serde_json::Value = serde_json::from_str(body).ok()?;
    json.pointer(pointer)?.as_array().map(|a| a.len())
}

/// `serde_json::Value::pointer`: whether the parsed document holds a value there.
#[verifier::external_body]
pub(crate) fn has_value_at(body: &str, pointer: &str) -> (r: bool)
    ensures
        r == json_has(body@, pointer@),
{
    match serde_json::from_str::<serde_json::Value>(body) {
        Ok(json) => json.pointer(pointer).is_some(),
        Err(_) => false,
    }
}

/// `serde_json::Value::get` with each of `keys` in turn, from the root of the
/// parsed document, followed by `as_str`.
#[verifier::external_body]
fn member_str(body: &str, keys: &Vec<String>) -> (r: Option<String>)
    ensures
        opt_text(r) == json_member_str(body@, texts(keys@)),
{
    let json: serde_json::Value = serde_json::from_str(body).ok()?;
    let found = keys.iter().try_fold(&json, |v, k| v.get(k.as_str()))?;
    found.as_str().map(|s| s.to_string())
}

/// `serde_json::Value::get` with each of `keys` in turn, from the root of the
/// parsed document, rendered by `serde_json::Value`'s `Display`.
#[verifier::external_body]
fn member_json(body: &str, keys: &Vec<String>) -> (r: Option<String>)
    ensures
        opt_text(r) == json_member_json(body@, texts(keys@)),
{
    let json: serde_json::Value = serde_json::from_str(body).ok()?;
    let found = keys.iter().try_fold(&json, |v, k| v.get(k.as_str()))?;
    Some(found.to_string())
}

/// What the document holds where the members `keys` lead, as it is shown: a
/// string bare, any other value in compact JSON notation.
pub fn member_text(body: &str, keys: &Vec<String>) -> (r: Option<String>)
    ensures
        opt_text(r) == json_member_text(body@, texts(keys@)),
{
    match member_str(body, keys) {
        Some(s) => Some(s),
        None => member_json(body, keys),
    }
}

} // verus!
