use vstd::prelude::*;
use vstd::string::{StrSliceExecFns, StringExecFns};

verus! {

/// How many times the client tries to reach the server before giving up.
pub const MAX_CONNECT_ATTEMPTS: u32 = 5;

/// Seconds the client waits between two connection attempts.
pub const RETRY_DELAY_SECS: u64 = 2;

/// After `failed` failed attempts, whether the client tries again.
pub fn should_retry(failed: u32) -> (r: bool)
    ensures
        r == (failed < MAX_CONNECT_ATTEMPTS),
{
    failed < MAX_CONNECT_ATTEMPTS
}

/// One line typed at the client prompt.
#[derive(Clone, Debug)]
pub enum Command {
    /// A blank line.
    Empty,
    /// `list`: show the known tickers.
    List,
    /// `quit` or `exit`.
    Quit,
    /// `stats <ticker>`.
    Stats { ticker: String },
    /// `<ticker>`: one price.
    Price { ticker: String },
    /// `<ticker> <count>`: several prices.
    Prices { ticker: String, count: i32 },
    /// `<ticker> <word>` where the word is not a 32-bit integer.
    BadCount,
    /// Three or more words.
    Unrecognized,
}

/// What `str::trim` returns: the string without leading and trailing white space.
pub uninterp spec fn trimmed(s: Seq<char>) -> Seq<char>;

/// What `str::split_whitespace` yields: the words of the string, in order.
pub uninterp spec fn words(s: Seq<char>) -> Seq<Seq<char>>;

/// Whether every character is an ASCII digit, and there is at least one.
pub open spec fn all_digits(s: Seq<char>) -> bool {
    s.len() > 0 && forall|i: int| 0 <= i < s.len() ==> '0' <= #[trigger] s[i] <= '9'
}

/// The value of a string of ASCII digits.
pub open spec fn digits_value(s: Seq<char>) -> int
    decreases s.len(),
{
    if s.len() == 0 {
        0
    } else {
        digits_value(s.drop_last()) * 10 + (s.last() as u32 - '0' as u32)
    }
}

/// The integer written as an optional `+` or `-` followed by ASCII digits.
pub open spec fn signed_decimal(s: Seq<char>) -> Option<int> {
    if s.len() > 0 && (s[0] == '+' || s[0] == '-') && all_digits(s.drop_first()) {
        if s[0] == '-' {
            Some(-digits_value(s.drop_first()))
        } else {
            Some(digits_value(s.drop_first()))
        }
    } else if all_digits(s) {
        Some(digits_value(s))
    } else {
        None
    }
}

/// A 32-bit integer in decimal notation, if the string is one and it fits.
pub open spec fn i32_of(s: Seq<char>) -> Option<i32> {
    match signed_decimal(s) {
        Some(v) => if i32::MIN <= v <= i32::MAX {
            Some(v as i32)
        } else {
            None
        },
        None => None,
    }
}

/// Relies on `str::trim`, which removes leading and trailing white space.
#[verifier::external_body]
fn trim<'a>(s: &'a str) -> (r: &'a str)
    ensures
        r@ == trimmed(s@),
{
    s.trim()
}

/// Relies on `str::split_whitespace`, which yields the words of a string.
#[verifier::external_body]
fn split_words<'a>(s: &'a str) -> (r: Vec<&'a str>)
    ensures
        r@.len() == words(s@).len(),
        forall|i: int| 0 <= i < r@.len() ==> #[trigger] r@[i]@ == words(s@)[i],
{
    s.split_whitespace().collect()
}

/// Relies on `<i32 as FromStr>::from_str`, documented to accept an optional
/// sign followed by digits only, and to fail on overflow.
#[verifier::external_body]
fn parse_i32(s: &str) -> (r: Option<i32>)
    ensures
        r == i32_of(s@),
{
    s.parse::<i32>().ok()
}

/// The command a trimmed, non-empty line `t` with words `ws` stands for.
pub open spec fn command_matches(c: Command, t: Seq<char>, ws: Seq<Seq<char>>) -> bool {
    if t.len() == 0 {
        c is Empty
    } else if t == "list"@ {
        c is List
    } else if t == "quit"@ || t == "exit"@ {
        c is Quit
    } else if t.len() >= 6 && t.take(6) == "stats "@ {
        c matches Command::Stats { ticker } && ticker@ == t.skip(6)
    } else if ws.len() == 2 {
        match i32_of(ws[1]) {
            Some(n) => c matches Command::Prices { ticker, count } && ticker@ == ws[0] && count == n,
            None => c is BadCount,
        }
    } else if ws.len() == 1 {
        c matches Command::Price { ticker } && ticker@ == ws[0]
    } else {
        c is Unrecognized
    }
}

/// Reads a trimmed line whose words are `ws`.
pub fn interpret(t: &str, ws: &Vec<&str>) -> (c: Command)
    ensures
        command_matches(c, t@, ws@.map_values(|w: &str| w@)),
{
    let n = t.unicode_len();
    if n == 0 {
        return Command::Empty;
    }
    let line = String::from_str(t);
    if line == String::from_str("list") {
        return Command::List;
    }
    if line == String::from_str("quit") || line == String::from_str("exit") {
        return Command::Quit;
    }
    if n >= 6 && String::from_str(t.substring_char(0, 6)) == String::from_str("stats ") {
        return Command::Stats { ticker: String::from_str(t.substring_char(6, n)) };
    }
    let ghost views = ws@.map_values(|w: &str| w@);
    if ws.len() == 2 {
        assert(views[1] == ws@[1]@);
        match parse_i32(ws[1]) {
            Some(count) => Command::Prices { ticker: String::from_str(ws[0]), count },
            None => Command::BadCount,
        }
    } else if ws.len() == 1 {
        Command::Price { ticker: String::from_str(ws[0]) }
    } else {
        Command::Unrecognized
    }
}

/// Reads one line typed at the prompt.
pub fn parse_command(line: &str) -> (c: Command)
    ensures
        command_matches(
            c,
            trimmed(line@),
            words(trimmed(line@)),
        ),
{
    let t = trim(line);
    let ws = split_words(t);
    let c = interpret(t, &ws);
    assert(ws@.map_values(|w: &str| w@) =~= words(t@));
    c
}

} // verus!
