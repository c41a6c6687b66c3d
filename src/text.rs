use vstd::prelude::*;
use vstd::string::StringExecFns;

verus! {

/// The character of a decimal digit (`d < 10`).
pub open spec fn digit_char(d: nat) -> char {
    if d == 0 { '0' }
    else if d == 1 { '1' }
    else if d == 2 { '2' }
    else if d == 3 { '3' }
    else if d == 4 { '4' }
    else if d == 5 { '5' }
    else if d == 6 { '6' }
    else if d == 7 { '7' }
    else if d == 8 { '8' }
    else { '9' }
}

/// The decimal notation of `n`, without leading zeros ("0" for zero).
pub open spec fn decimal(n: nat) -> Seq<char>
    decreases n,
{
    if n < 10 {
        seq![digit_char(n)]
    } else {
        decimal(n / 10).push(digit_char(n % 10))
    }
}

/// A price in cents written as dollars with exactly two decimals ("150.50").
pub open spec fn money(cents: nat) -> Seq<char> {
    decimal(cents / 100) + seq!['.', digit_char((cents % 100) / 10), digit_char(cents % 10)]
}

/// The message that announces one price of a ticker.
pub open spec fn price_message(ticker: Seq<char>, cents: nat) -> Seq<char> {
    "Current price for "@ + ticker + ": $"@ + money(cents) + "\n"@
}

/// The summary that accompanies a batch of prices.
pub open spec fn batch_message(ticker: Seq<char>, count: nat) -> Seq<char> {
    "Generated "@ + decimal(count) + " prices for "@ + ticker
}

fn digit_str(d: u64) -> (r: &'static str)
    requires
        d < 10,
    ensures
        r@ == seq![digit_char(d as nat)],
{
    if d == 0 {
        proof { reveal_strlit("0"); }
        "0"
    } else if d == 1 {
        proof { reveal_strlit("1"); }
        "1"
    } else if d == 2 {
        proof { reveal_strlit("2"); }
        "2"
    } else if d == 3 {
        proof { reveal_strlit("3"); }
        "3"
    } else if d == 4 {
        proof { reveal_strlit("4"); }
        "4"
    } else if d == 5 {
        proof { reveal_strlit("5"); }
        "5"
    } else if d == 6 {
        proof { reveal_strlit("6"); }
        "6"
    } else if d == 7 {
        proof { reveal_strlit("7"); }
        "7"
    } else if d == 8 {
        proof { reveal_strlit("8"); }
        "8"
    } else {
        proof { reveal_strlit("9"); }
        "9"
    }
}

/// Appends the decimal notation of `n` to `out`.
pub fn push_decimal(out: &mut String, n: u64)
    ensures
        final(out)@ == old(out)@ + decimal(n as nat),
    decreases n,
{
    if n >= 10 {
        push_decimal(out, n / 10);
        out.append(digit_str(n % 10));
        assert(decimal(n as nat) == decimal((n / 10) as nat).push(digit_char((n % 10) as nat)));
    } else {
        out.append(digit_str(n));
    }
}

/// Appends a price in cents as dollars with two decimals.
pub fn push_money(out: &mut String, cents: u32)
    ensures
        final(out)@ == old(out)@ + money(cents as nat),
{
    let ghost start = out@;
    push_decimal(out, (cents / 100) as u64);
    proof { reveal_strlit("."); }
    out.append(".");
    out.append(digit_str(((cents % 100) / 10) as u64));
    out.append(digit_str((cents % 10) as u64));
    assert(out@ =~= start + money(cents as nat));
}

/// The message announcing `price` (in cents) for `ticker`, such as
/// "Current price for AAPL: $150.50\n".
pub fn format_price(ticker: &str, price: u32) -> (r: String)
    ensures
        r@ == price_message(ticker@, price as nat),
{
    let mut out = String::from_str("Current price for ");
    out.append(ticker);
    out.append(": $");
    push_money(&mut out, price);
    out.append("\n");
    assert(out@ =~= price_message(ticker@, price as nat));
    out
}

/// The summary for a batch of `count` prices of `ticker`.
pub fn format_batch(ticker: &str, count: u64) -> (r: String)
    ensures
        r@ == batch_message(ticker@, count as nat),
{
    let mut out = String::from_str("Generated ");
    push_decimal(&mut out, count);
    out.append(" prices for ");
    out.append(ticker);
    assert(out@ =~= batch_message(ticker@, count as nat));
    out
}

} // verus!
