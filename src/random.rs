use rand::Rng;
use vstd::prelude::*;

use crate::ticker::{is_known, known_tickers, ticker_list, TICKER_COUNT};

verus! {

/// Lowest price a generated quote can have, in cents ($10.00).
pub const MIN_PRICE_CENTS: u32 = 1000;

/// Generated quotes stay below this price, in cents ($1000.00).
pub const MAX_PRICE_CENTS: u32 = 100000;

/// Whether a price (in cents) lies in the range generated quotes come from.
pub open spec fn in_price_range(p: u32) -> bool {
    MIN_PRICE_CENTS <= p < MAX_PRICE_CENTS
}

/// Relies on rand's `thread_rng().gen_range(lo..hi)`: a value of the
/// half-open range `lo..hi`. It panics on an empty range, which `requires`
/// rules out.
#[verifier::external_body]
fn random_in(lo: u32, hi: u32) -> (r: u32)
    requires
        lo < hi,
    ensures
        lo <= r < hi,
{
    rand::thread_rng().gen_range(lo..hi)
}

/// A random quote in cents, in `[MIN_PRICE_CENTS, MAX_PRICE_CENTS)`.
pub fn random_price() -> (r: u32)
    ensures
        in_price_range(r),
{
    random_in(MIN_PRICE_CENTS, MAX_PRICE_CENTS)
}

/// A random known ticker together with a random quote for it.
pub fn generate_random_ticker_and_price() -> (r: (String, u32))
    ensures
        is_known(r.0@),
        in_price_range(r.1),
{
    let mut list = ticker_list();
    let i = random_in(0, TICKER_COUNT as u32) as usize;
    let ticker = list.swap_remove(i);
    assert(known_tickers()[i as int] == ticker@);
    (ticker, random_price())
}

} // verus!
