use vstd::prelude::*;
use vstd::string::StringExecFns;

verus! {

/// Largest value a recorded price (in cents) can take.
pub open spec fn price_max() -> int {
    u32::MAX as int
}

/// Sum of a price series.
pub open spec fn sum(s: Seq<u32>) -> int
    decreases s.len(),
{
    if s.len() == 0 {
        0
    } else {
        sum(s.drop_last()) + s.last()
    }
}

/// Sum of the squares of a price series.
pub open spec fn sum_of_squares(s: Seq<u32>) -> int
    decreases s.len(),
{
    if s.len() == 0 {
        0
    } else {
        sum_of_squares(s.drop_last()) + s.last() * s.last()
    }
}

/// For any pivot `p`, the sum of squared distances to `p` is
/// `sum_of_squares - 2 p sum + n p^2`, which is never negative.
proof fn lemma_spread_around(s: Seq<u32>, p: int)
    ensures
        sum_of_squares(s) - 2 * p * sum(s) + s.len() * p * p >= 0,
    decreases s.len(),
{
    if s.len() > 0 {
        let r = s.drop_last();
        let x = s.last() as int;
        lemma_spread_around(r, p);
        let (q, t, n) = (sum_of_squares(r), sum(r), r.len() as int);
        assert((q + x * x) - 2 * p * (t + x) + (n + 1) * p * p
            == (q - 2 * p * t + n * p * p) + (x - p) * (x - p)) by (nonlinear_arith);
        assert((x - p) * (x - p) >= 0) by (nonlinear_arith);
    }
}

/// The population variance of a series is never negative: with `n` prices,
/// `n * sum_of_squares >= sum * sum`, so its standard deviation
/// `sqrt(n * sum_of_squares - sum^2) / n` is defined.
pub proof fn lemma_variance_nonnegative(s: Seq<u32>)
    ensures
        s.len() * sum_of_squares(s) >= sum(s) * sum(s),
    decreases s.len(),
{
    if s.len() > 0 {
        let r = s.drop_last();
        let x = s.last() as int;
        lemma_variance_nonnegative(r);
        lemma_spread_around(r, x);
        let (q, t, n) = (sum_of_squares(r), sum(r), r.len() as int);
        assert((n + 1) * (q + x * x) - (t + x) * (t + x)
            == (n * q - t * t) + (q - 2 * x * t + n * x * x)) by (nonlinear_arith);
    }
}

/// An exact non-negative fraction `numer / denom`.
#[derive(PartialEq, Eq, Structural, Clone, Copy, Debug)]
pub struct Ratio {
    pub numer: u128,
    pub denom: u128,
}

/// The exact first and second moments of a price series: its length, its
/// sum and its sum of squares. The mean is `sum / count`; the population
/// variance is `(count * sum_of_squares - sum * sum) / (count * count)`.
#[derive(PartialEq, Eq, Structural, Clone, Copy, Debug)]
pub struct PriceSummary {
    pub count: u64,
    pub sum: u128,
    pub sum_of_squares: u128,
}

impl PriceSummary {
    /// The summary of exactly this series.
    pub open spec fn describes(self, s: Seq<u32>) -> bool {
        &&& self.count == s.len()
        &&& self.sum == sum(s)
        &&& self.sum_of_squares == sum_of_squares(s)
    }
}

/// Computes the exact moments of a series; no sum can overflow, since each
/// price is below 2^32 and the series is shorter than 2^64.
pub fn summarize(prices: &Vec<u32>) -> (r: PriceSummary)
    ensures
        r.describes(prices@),
{
    let n = prices.len();
    let mut total: u128 = 0;
    let mut squares: u128 = 0;
    let mut i: usize = 0;
    while i < n
        invariant
            n == prices@.len(),
            i <= n,
            total == sum(prices@.take(i as int)),
            squares == sum_of_squares(prices@.take(i as int)),
            total <= i * price_max(),
            squares <= i * (price_max() * price_max()),
        decreases n - i,
    {
        let p = prices[i];
        assert(prices@.take(i + 1).drop_last() =~= prices@.take(i as int));
        assert(total + p <= (i + 1) * price_max()) by (nonlinear_arith)
            requires
                total <= i * price_max(),
                p <= price_max(),
        ;
        assert((i + 1) * price_max() <= u128::MAX) by (nonlinear_arith)
            requires
                i < n,
                n <= usize::MAX,
                usize::MAX <= u64::MAX,
                price_max() == u32::MAX,
        ;
        assert(p * p <= price_max() * price_max()) by (nonlinear_arith)
            requires
                p <= price_max(),
        ;
        assert(squares + p * p <= (i + 1) * (price_max() * price_max())) by (nonlinear_arith)
            requires
                squares <= i * (price_max() * price_max()),
                p * p <= price_max() * price_max(),
        ;
        assert((i + 1) * (price_max() * price_max()) <= u128::MAX) by (nonlinear_arith)
            requires
                i < n,
                n <= usize::MAX,
                usize::MAX <= u64::MAX,
                price_max() == u32::MAX,
        ;
        total = total + p as u128;
        squares = squares + (p as u128) * (p as u128);
        i = i + 1;
    }
    assert(prices@.take(n as int) =~= prices@);
    PriceSummary { count: n as u64, sum: total, sum_of_squares: squares }
}

/// The recorded prices of one ticker; never empty.
struct Series {
    ticker: String,
    prices: Vec<u32>,
}

/// Append-only price history, one series per ticker, in cents.
pub struct PriceTracker {
    entries: Vec<Series>,
}

impl PriceTracker {
    spec fn has(&self, t: Seq<char>) -> bool {
        exists|i: int| 0 <= i < self.entries@.len() && #[trigger] self.entries@[i].ticker@ == t
    }

    spec fn index_of(&self, t: Seq<char>) -> int {
        choose|i: int| 0 <= i < self.entries@.len() && #[trigger] self.entries@[i].ticker@ == t
    }

    /// Series keys are distinct and no series is empty.
    pub closed spec fn wf(&self) -> bool {
        &&& forall|i: int, j: int|
            0 <= i < self.entries@.len() && 0 <= j < self.entries@.len() && i != j
                ==> #[trigger] self.entries@[i].ticker@ != #[trigger] self.entries@[j].ticker@
        &&& forall|i: int| 0 <= i < self.entries@.len() ==> #[trigger] self.entries@[i].prices@.len() > 0
    }

    /// The series of `t`, or the empty series if nothing was recorded for it.
    pub open spec fn prices_of(&self, t: Seq<char>) -> Seq<u32> {
        if self@.contains_key(t) {
            self@[t]
        } else {
            Seq::empty()
        }
    }

    proof fn lemma_index(&self, i: int)
        requires
            self.wf(),
            0 <= i < self.entries@.len(),
        ensures
            self.has(self.entries@[i].ticker@),
            self.index_of(self.entries@[i].ticker@) == i,
            self@.contains_key(self.entries@[i].ticker@),
            self@[self.entries@[i].ticker@] == self.entries@[i].prices@,
    {
        let t = self.entries@[i].ticker@;
        assert(self.has(t));
        let k = self.index_of(t);
        assert(self.entries@[k].ticker@ == t);
    }

    fn find(&self, t: &String) -> (r: Option<usize>)
        ensures
            match r {
                Some(i) => i < self.entries@.len() && self.entries@[i as int].ticker@ == t@,
                None => !self@.contains_key(t@),
            },
    {
        let mut i: usize = 0;
        while i < self.entries.len()
            invariant
                i <= self.entries@.len(),
                forall|k: int| 0 <= k < i ==> #[trigger] self.entries@[k].ticker@ != t@,
            decreases self.entries@.len() - i,
        {
            if self.entries[i].ticker == *t {
                return Some(i);
            }
            i = i + 1;
        }
        None
    }

    /// An empty tracker.
    pub fn new() -> (r: Self)
        ensures
            r.wf(),
            r@ == Map::<Seq<char>, Seq<u32>>::empty(),
    {
        let r = PriceTracker { entries: Vec::new() };
        assert(r@ =~= Map::<Seq<char>, Seq<u32>>::empty());
        r
    }

    /// Appends `price` to the series of `ticker`, creating the series if needed.
    pub fn add_price(&mut self, ticker: &str, price: u32)
        requires
            old(self).wf(),
        ensures
            final(self).wf(),
            final(self)@ == old(self)@.insert(ticker@, old(self).prices_of(ticker@).push(price)),
    {
        let key = String::from_str(ticker);
        let ghost before = *self;
        let ghost idx: int;
        match self.find(&key) {
            Some(i) => {
                let mut prices: Vec<u32> = Vec::new();
                std::mem::swap(&mut prices, &mut self.entries[i].prices);
                prices.push(price);
                std::mem::swap(&mut prices, &mut self.entries[i].prices);
                proof { idx = i as int; }
            },
            None => {
                let mut prices: Vec<u32> = Vec::new();
                prices.push(price);
                self.entries.push(Series { ticker: key, prices });
                proof { idx = before.entries@.len() as int; }
            },
        }
        proof {
            let after = *self;
            let expect = before@.insert(ticker@, before.prices_of(ticker@).push(price));
            assert(after.wf());
            assert(0 <= idx < after.entries@.len());
            assert(after.entries@[idx].ticker@ == ticker@);
            assert(after.entries@[idx].prices@ == before.prices_of(ticker@).push(price)) by {
                if idx < before.entries@.len() {
                    before.lemma_index(idx);
                }
            }
            assert forall|k: int| 0 <= k < after.entries@.len() && k != idx
                implies #[trigger] after.entries@[k] == before.entries@[k] by {}
            after.lemma_index(idx);
            assert forall|t: Seq<char>| #[trigger] expect.contains_key(t)
                implies after@.contains_key(t) && after@[t] == expect[t] by {
                if t != ticker@ {
                    let k = before.index_of(t);
                    assert(before.has(t));
                    before.lemma_index(k);
                    after.lemma_index(k);
                }
            }
            assert forall|t: Seq<char>| #[trigger] after@.contains_key(t)
                implies expect.contains_key(t) by {
                if t != ticker@ {
                    let k = after.index_of(t);
                    assert(after.has(t));
                    assert(after.entries@[k].ticker@ == t);
                    assert(k != idx);
                    before.lemma_index(k);
                }
            }
            assert(after@ =~= expect);
        }
    }

    /// The series recorded for `ticker`, if any price was ever recorded for it.
    pub fn get_prices(&self, ticker: &str) -> (r: Option<&Vec<u32>>)
        requires
            self.wf(),
        ensures
            match r {
                Some(v) => self@.contains_key(ticker@) && v@ == self@[ticker@] && v@.len() > 0,
                None => !self@.contains_key(ticker@),
            },
    {
        let key = String::from_str(ticker);
        match self.find(&key) {
            Some(i) => {
                proof { self.lemma_index(i as int); }
                Some(&self.entries[i].prices)
            },
            None => None,
        }
    }

    /// The exact moments of the series of `ticker`, if any price was ever
    /// recorded for it.
    pub fn summary(&self, ticker: &str) -> (r: Option<PriceSummary>)
        requires
            self.wf(),
        ensures
            match r {
                Some(m) => self@.contains_key(ticker@) && m.describes(self@[ticker@]) && m.count > 0,
                None => !self@.contains_key(ticker@),
            },
    {
        match self.get_prices(ticker) {
            Some(prices) => Some(summarize(prices)),
            None => None,
        }
    }

    /// The mean of the series of `ticker` in cents, as the exact fraction
    /// sum / count, if any price was ever recorded for it.
    pub fn average(&self, ticker: &str) -> (r: Option<Ratio>)
        requires
            self.wf(),
        ensures
            match r {
                Some(q) => self@.contains_key(ticker@) && q.numer == sum(self@[ticker@])
                    && q.denom == self@[ticker@].len() && q.denom > 0,
                None => !self@.contains_key(ticker@),
            },
    {
        match self.summary(ticker) {
            Some(m) => Some(Ratio { numer: m.sum, denom: m.count as u128 }),
            None => None,
        }
    }
}

impl View for PriceTracker {
    type V = Map<Seq<char>, Seq<u32>>;

    closed spec fn view(&self) -> Map<Seq<char>, Seq<u32>> {
        Map::new(|t: Seq<char>| self.has(t), |t: Seq<char>| self.entries@[self.index_of(t)].prices@)
    }
}

} // verus!
