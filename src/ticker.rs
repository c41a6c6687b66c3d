use vstd::prelude::*;
use vstd::string::StringExecFns;

use crate::error::ServiceError;

verus! {

/// Number of symbols the service knows.
pub const TICKER_COUNT: usize = 10;

/// The fixed universe of ticker symbols, in the order they are listed.
pub open spec fn known_tickers() -> Seq<Seq<char>> {
    seq![
        "AAPL"@, "MSFT"@, "GOOG"@, "AMZN"@, "META"@,
        "NFLX"@, "TSLA"@, "NVDA"@, "AMD"@, "INTC"@,
    ]
}

/// Whether `t` is one of the known symbols (exactly, with no case folding).
pub open spec fn is_known(t: Seq<char>) -> bool {
    known_tickers().contains(t)
}

/// What `str::to_uppercase` returns for a string with these characters.
pub uninterp spec fn upper_of(s: Seq<char>) -> Seq<char>;

/// Relies on `str::to_uppercase`: its result is a function of the characters alone.
#[verifier::external_body]
fn to_upper(s: &str) -> (r: String)
    ensures
        r@ == upper_of(s@),
{
    s.to_uppercase()
}

/// The known symbols, in listing order.
pub fn ticker_list() -> (r: Vec<String>)
    ensures
        r@.len() == known_tickers().len(),
        forall|i: int| 0 <= i < r@.len() ==> #[trigger] r@[i]@ == known_tickers()[i],
{
    let mut v: Vec<String> = Vec::new();
    v.push(String::from_str("AAPL"));
    v.push(String::from_str("MSFT"));
    v.push(String::from_str("GOOG"));
    v.push(String::from_str("AMZN"));
    v.push(String::from_str("META"));
    v.push(String::from_str("NFLX"));
    v.push(String::from_str("TSLA"));
    v.push(String::from_str("NVDA"));
    v.push(String::from_str("AMD"));
    v.push(String::from_str("INTC"));
    v
}

/// Whether `t` is exactly one of the known symbols.
pub fn is_known_ticker(t: &String) -> (r: bool)
    ensures
        r == is_known(t@),
{
    let list = ticker_list();
    let mut i: usize = 0;
    while i < list.len()
        invariant
            i <= list@.len(),
            list@.len() == known_tickers().len(),
            forall|k: int| 0 <= k < list@.len() ==> #[trigger] list@[k]@ == known_tickers()[k],
            forall|k: int| 0 <= k < i ==> known_tickers()[k] != t@,
        decreases list@.len() - i,
    {
        if list[i] == *t {
            assert(known_tickers()[i as int] == t@);
            return true;
        }
        i = i + 1;
    }
    assert(!known_tickers().contains(t@)) by {
        if known_tickers().contains(t@) {
            let k = choose|k: int| 0 <= k < known_tickers().len() && known_tickers()[k] == t@;
            assert(known_tickers()[k] != t@);
        }
    }
    false
}

/// Accepts an already upper-cased symbol if it is known, and rejects it with
/// `InvalidTicker` otherwise.
pub fn check_ticker(upper: String) -> (r: Result<String, ServiceError>)
    ensures
        match r {
            Ok(t) => is_known(upper@) && t@ == upper@,
            Err(e) => !is_known(upper@) && (e matches ServiceError::InvalidTicker { ticker }
                && ticker@ == upper@),
        },
{
    if is_known_ticker(&upper) {
        Ok(upper)
    } else {
        Err(ServiceError::InvalidTicker { ticker: upper })
    }
}

/// Upper-cases a requested symbol and accepts it if it is known.
pub fn validate_ticker(raw: &str) -> (r: Result<String, ServiceError>)
    ensures
        match r {
            Ok(t) => is_known(upper_of(raw@)) && t@ == upper_of(raw@),
            Err(e) => !is_known(upper_of(raw@)) && (e matches ServiceError::InvalidTicker { ticker }
                && ticker@ == upper_of(raw@)),
        },
{
    check_ticker(to_upper(raw))
}

} // verus!
