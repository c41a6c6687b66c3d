use vstd::prelude::*;

use crate::error::ServiceError;
use crate::random::{in_price_range, random_price};
use crate::registry::{ClientId, ConnectionRegistry, RegistryView, STALE_AFTER_MS};
use crate::session::StreamSession;
use crate::shutdown::{
    IdleMonitor, MonitorState, ShutdownPolicy, ShutdownSignal, IDLE_SAMPLES, MIN_TOTAL_CONNECTIONS,
};
use crate::text::{batch_message, format_batch, format_price, price_message};
use crate::ticker::{is_known, known_tickers, ticker_list, upper_of, validate_ticker};
use crate::tracker::{PriceSummary, PriceTracker};

verus! {

/// Which rule decides that the idle server shuts down.
#[derive(PartialEq, Eq, Structural, Clone, Copy, Debug)]
pub enum ShutdownMode {
    /// The departure that empties the live set signals shutdown at once.
    OnLastDeparture,
    /// Periodic samples of the live set signal shutdown after enough idle ones.
    AfterIdleSamples,
}

/// One quote of one ticker.
#[derive(Clone, Debug)]
pub struct PriceReply {
    pub ticker: String,
    /// The price in cents.
    pub price: u32,
    pub formatted_message: String,
}

/// A batch of quotes of one ticker.
#[derive(Clone, Debug)]
pub struct MultiplePricesReply {
    pub ticker: String,
    /// The prices in cents, in the order they were generated.
    pub prices: Vec<u32>,
    pub formatted_message: String,
}

/// The whole recorded history of one ticker and its exact moments.
#[derive(Clone, Debug)]
pub struct StatsReply {
    pub ticker: String,
    /// Every price recorded for the ticker, in cents, oldest first.
    pub prices: Vec<u32>,
    pub summary: PriceSummary,
}

/// What the service holds, abstractly.
pub struct ServiceView {
    pub prices: Map<Seq<char>, Seq<u32>>,
    pub registry: RegistryView,
    pub shutdown: bool,
    pub monitor: MonitorState,
    pub mode: ShutdownMode,
}

impl ServiceView {
    /// The recorded series of `t`, empty if there is none.
    pub open spec fn history(self, t: Seq<char>) -> Seq<u32> {
        if self.prices.contains_key(t) {
            self.prices[t]
        } else {
            Seq::empty()
        }
    }

    /// This state with `fresh` appended to the series of `t`.
    pub open spec fn record(self, t: Seq<char>, fresh: Seq<u32>) -> ServiceView {
        ServiceView {
            prices: self.prices.insert(t, self.history(t) + fresh),
            registry: self.registry,
            shutdown: self.shutdown,
            monitor: self.monitor,
            mode: self.mode,
        }
    }

    /// This state with another registry.
    pub open spec fn with_registry(self, registry: RegistryView) -> ServiceView {
        ServiceView {
            prices: self.prices,
            registry,
            shutdown: self.shutdown,
            monitor: self.monitor,
            mode: self.mode,
        }
    }

    /// Whether unregistering `id` empties the live set of a server that has
    /// seen enough connections to shut down.
    pub open spec fn last_departure(self, id: ClientId) -> bool {
        &&& self.registry.clients.contains_key(id)
        &&& self.registry.clients.remove(id).len() == 0
        &&& self.registry.total >= self.monitor.policy.min_total_connections
    }
}

/// Recording prices for a ticker grows its series by exactly the recorded
/// prices, keeps the earlier series as a prefix and leaves every other
/// ticker's series as it was.
pub proof fn lemma_history_grows(v: ServiceView, t: Seq<char>, fresh: Seq<u32>)
    ensures
        v.record(t, fresh).history(t).len() == v.history(t).len() + fresh.len(),
        v.record(t, fresh).history(t).take(v.history(t).len() as int) == v.history(t),
        forall|u: Seq<char>| u != t ==> #[trigger] v.record(t, fresh).history(u) == v.history(u),
{
    assert(v.record(t, fresh).history(t).take(v.history(t).len() as int) =~= v.history(t));
}

/// The service core: price history, connection bookkeeping and the shutdown
/// decision, behind the request handlers.
pub struct StockServiceImpl {
    tracker: PriceTracker,
    registry: ConnectionRegistry,
    signal: ShutdownSignal,
    monitor: IdleMonitor,
    mode: ShutdownMode,
}

impl View for StockServiceImpl {
    type V = ServiceView;

    closed spec fn view(&self) -> ServiceView {
        ServiceView {
            prices: self.tracker@,
            registry: self.registry@,
            shutdown: self.signal.is_raised(),
            monitor: self.monitor@,
            mode: self.mode,
        }
    }
}

/// Copies a series element by element.
fn copy_prices(v: &Vec<u32>) -> (r: Vec<u32>)
    ensures
        r@ == v@,
{
    let mut r: Vec<u32> = Vec::with_capacity(v.len());
    let mut i: usize = 0;
    while i < v.len()
        invariant
            i <= v@.len(),
            r@ == v@.take(i as int),
        decreases v@.len() - i,
    {
        r.push(v[i]);
        i = i + 1;
        assert(r@ =~= v@.take(i as int));
    }
    assert(v@.take(v@.len() as int) =~= v@);
    r
}

impl StockServiceImpl {
    /// The parts are well formed.
    pub closed spec fn wf(&self) -> bool {
        &&& self.tracker.wf()
        &&& self.registry.wf()
    }

    /// A service with no history and no client, shutting down on the last
    /// departure under the standard thresholds and staleness window.
    pub fn new() -> (r: Self)
        ensures
            r.wf(),
            r@.prices == Map::<Seq<char>, Seq<u32>>::empty(),
            r@.registry.clients == Map::<ClientId, u64>::empty(),
            r@.registry.total == 0,
            r@.registry.stale_after == STALE_AFTER_MS,
            !r@.shutdown,
            r@.monitor.policy.min_total_connections == MIN_TOTAL_CONNECTIONS,
            r@.monitor.policy.idle_samples == IDLE_SAMPLES,
            r@.monitor.streak == 0,
            !r@.monitor.fired,
            r@.mode == ShutdownMode::OnLastDeparture,
    {
        Self::with_policy(ShutdownPolicy::standard(), ShutdownMode::OnLastDeparture, STALE_AFTER_MS)
    }

    /// A service with no history and no client, under the given shutdown
    /// rule, in which a client goes stale after `stale_after` milliseconds
    /// without activity.
    pub fn with_policy(policy: ShutdownPolicy, mode: ShutdownMode, stale_after: u64) -> (r: Self)
        ensures
            r.wf(),
            r@.prices == Map::<Seq<char>, Seq<u32>>::empty(),
            r@.registry.clients == Map::<ClientId, u64>::empty(),
            r@.registry.total == 0,
            r@.registry.stale_after == stale_after,
            !r@.shutdown,
            r@.monitor == (MonitorState { policy, streak: 0, fired: false }),
            r@.mode == mode,
    {
        StockServiceImpl {
            tracker: PriceTracker::new(),
            registry: ConnectionRegistry::new(stale_after),
            signal: ShutdownSignal::new(),
            monitor: IdleMonitor::new(policy),
            mode,
        }
    }

    /// Records a client's first contact, at `now`; later contacts change
    /// nothing. Returns whether this was a first contact.
    pub fn register_client(&mut self, id: ClientId, now: u64) -> (inserted: bool)
        requires
            old(self).wf(),
        ensures
            final(self).wf(),
            inserted == !old(self)@.registry.clients.contains_key(id),
            final(self)@ == old(self)@.with_registry(old(self)@.registry.after_register(id, now)),
    {
        self.registry.register(id, now)
    }

    /// Records that a known client was active at `now`.
    pub fn touch_client(&mut self, id: ClientId, now: u64)
        requires
            old(self).wf(),
        ensures
            final(self).wf(),
            final(self)@ == old(self)@.with_registry(old(self)@.registry.after_touch(id, now)),
    {
        self.registry.touch(id, now)
    }

    /// The hook run before every call: registers the caller on first
    /// contact and refreshes it on every later one. Returns whether this was
    /// a first contact.
    pub fn observe_call(&mut self, id: ClientId, now: u64) -> (first: bool)
        requires
            old(self).wf(),
        ensures
            final(self).wf(),
            first == !old(self)@.registry.clients.contains_key(id),
            final(self)@ == old(self)@.with_registry(
                if first {
                    old(self)@.registry.after_register(id, now)
                } else {
                    old(self)@.registry.after_touch(id, now)
                },
            ),
    {
        if self.registry.is_registered(id) {
            self.registry.touch(id, now);
            false
        } else {
            self.registry.register(id, now)
        }
    }

    /// Forgets a client. Under `OnLastDeparture`, the departure that empties
    /// the live set of a server with enough lifetime connections raises the
    /// shutdown signal. Returns true exactly when this call raised it.
    pub fn unregister_client(&mut self, id: ClientId) -> (shutdown_now: bool)
        requires
            old(self).wf(),
        ensures
            final(self).wf(),
            final(self)@.prices == old(self)@.prices,
            final(self)@.registry == old(self)@.registry.after_unregister(id),
            final(self)@.monitor == old(self)@.monitor,
            final(self)@.mode == old(self)@.mode,
            ({
                let fire = old(self)@.mode == ShutdownMode::OnLastDeparture
                    && old(self)@.last_departure(id);
                &&& final(self)@.shutdown == (old(self)@.shutdown || fire)
                &&& shutdown_now == (fire && !old(self)@.shutdown)
            }),
    {
        proof { self.registry.lemma_live_within_total(); }
        let removed = self.registry.unregister(id);
        let active = self.registry.live_count();
        let total = self.registry.total_connections();
        if removed && self.mode == ShutdownMode::OnLastDeparture
            && self.monitor.policy().idle(active, total) {
            self.signal.raise()
        } else {
            false
        }
    }

    /// Takes one periodic sample, at `now`, of the live set. Under
    /// `AfterIdleSamples`, clients stale at `now` are dropped first, and
    /// enough idle samples in a row raise the shutdown signal; under
    /// `OnLastDeparture` nothing changes. Returns true exactly when this
    /// call raised the signal.
    pub fn poll_idle(&mut self, now: u64) -> (shutdown_now: bool)
        requires
            old(self).wf(),
        ensures
            final(self).wf(),
            final(self)@.prices == old(self)@.prices,
            final(self)@.mode == old(self)@.mode,
            old(self)@.mode == ShutdownMode::OnLastDeparture ==> final(self)@ == old(self)@
                && !shutdown_now,
            old(self)@.mode == ShutdownMode::AfterIdleSamples ==> ({
                let swept = old(self)@.registry.after_sweep(now);
                let active = swept.clients.len();
                let total = old(self)@.registry.total as nat;
                let fire = old(self)@.monitor.fires(active, total);
                &&& final(self)@.registry == swept
                &&& final(self)@.monitor == old(self)@.monitor.step(active, total)
                &&& final(self)@.shutdown == (old(self)@.shutdown || fire)
                &&& shutdown_now == (fire && !old(self)@.shutdown)
            }),
    {
        if self.mode == ShutdownMode::OnLastDeparture {
            return false;
        }
        let active = self.registry.active_count(now);
        let total = self.registry.total_connections();
        if self.monitor.sample(active, total) {
            self.signal.raise()
        } else {
            false
        }
    }

    /// Whether `id` is currently connected.
    pub fn is_client_registered(&self, id: ClientId) -> (r: bool)
        requires
            self.wf(),
        ensures
            r == self@.registry.clients.contains_key(id),
    {
        self.registry.is_registered(id)
    }

    /// How many clients are currently connected.
    pub fn active_clients(&self) -> (r: usize)
        requires
            self.wf(),
        ensures
            r == self@.registry.clients.len(),
    {
        self.registry.live_count()
    }

    /// How many distinct connections were ever registered.
    pub fn total_connections(&self) -> (r: u64)
        ensures
            r == self@.registry.total,
    {
        self.registry.total_connections()
    }

    /// Whether the shutdown signal has been raised.
    pub fn shutdown_requested(&self) -> (r: bool)
        ensures
            r == self@.shutdown,
    {
        self.signal.raised()
    }

    /// The known ticker symbols.
    pub fn get_ticker_list(&self) -> (r: Vec<String>)
        ensures
            r@.len() == known_tickers().len(),
            forall|i: int| 0 <= i < r@.len() ==> #[trigger] r@[i]@ == known_tickers()[i],
    {
        ticker_list()
    }

    /// Records one random quote for an already validated ticker.
    pub fn quote(&mut self, ticker: String) -> (r: PriceReply)
        requires
            old(self).wf(),
        ensures
            final(self).wf(),
            r.ticker@ == ticker@,
            in_price_range(r.price),
            r.formatted_message@ == price_message(ticker@, r.price as nat),
            final(self)@ == old(self)@.record(ticker@, seq![r.price]),
    {
        let price = random_price();
        let formatted_message = format_price(ticker.as_str(), price);
        self.tracker.add_price(ticker.as_str(), price);
        proof {
            assert(old(self).tracker.prices_of(ticker@).push(price)
                =~= old(self)@.history(ticker@) + seq![price]);
        }
        PriceReply { ticker, price, formatted_message }
    }

    /// One random quote for a ticker, named in any case. The quote is
    /// appended to the ticker's history.
    pub fn get_price(&mut self, ticker: &str) -> (r: Result<PriceReply, ServiceError>)
        requires
            old(self).wf(),
        ensures
            final(self).wf(),
            match r {
                Ok(reply) => {
                    &&& is_known(upper_of(ticker@))
                    &&& reply.ticker@ == upper_of(ticker@)
                    &&& in_price_range(reply.price)
                    &&& reply.formatted_message@ == price_message(reply.ticker@, reply.price as nat)
                    &&& final(self)@ == old(self)@.record(reply.ticker@, seq![reply.price])
                },
                Err(e) => {
                    &&& !is_known(upper_of(ticker@))
                    &&& e matches ServiceError::InvalidTicker { ticker: t } && t@ == upper_of(ticker@)
                    &&& final(self)@ == old(self)@
                },
            },
    {
        let t = validate_ticker(ticker)?;
        Ok(self.quote(t))
    }

    /// `count` random quotes for a ticker, named in any case. The quotes are
    /// appended to the ticker's history in the order they were generated.
    pub fn get_multiple_prices(&mut self, ticker: &str, count: i32) -> (r: Result<
        MultiplePricesReply,
        ServiceError,
    >)
        requires
            old(self).wf(),
        ensures
            final(self).wf(),
            match r {
                Ok(reply) => {
                    &&& is_known(upper_of(ticker@))
                    &&& count > 0
                    &&& reply.ticker@ == upper_of(ticker@)
                    &&& reply.prices@.len() == count
                    &&& forall|i: int| 0 <= i < count ==> in_price_range(#[trigger] reply.prices@[i])
                    &&& reply.formatted_message@ == batch_message(reply.ticker@, count as nat)
                    &&& final(self)@ == old(self)@.record(reply.ticker@, reply.prices@)
                },
                Err(e) => {
                    &&& final(self)@ == old(self)@
                    &&& if !is_known(upper_of(ticker@)) {
                        e matches ServiceError::InvalidTicker { ticker: t } && t@ == upper_of(ticker@)
                    } else {
                        count <= 0 && e == (ServiceError::NonPositiveCount { count })
                    }
                },
            },
    {
        let t = validate_ticker(ticker)?;
        if count <= 0 {
            return Err(ServiceError::NonPositiveCount { count });
        }
        let n = count as usize;
        let mut prices: Vec<u32> = Vec::with_capacity(n);
        let mut i: usize = 0;
        while i < n
            invariant
                n == count,
                i <= n,
                prices@.len() == i,
                forall|k: int| 0 <= k < i ==> in_price_range(#[trigger] prices@[k]),
                self.wf(),
                i == 0 ==> self@ == old(self)@,
                i > 0 ==> self@ == old(self)@.record(t@, prices@),
            decreases n - i,
        {
            let price = random_price();
            let ghost before = self@;
            self.tracker.add_price(t.as_str(), price);
            prices.push(price);
            i = i + 1;
            proof {
                assert(old(self)@.history(t@) + prices@ =~= before.history(t@) + seq![price]);
                assert(self@.prices =~= old(self)@.record(t@, prices@).prices);
            }
        }
        let formatted_message = format_batch(t.as_str(), n as u64);
        Ok(MultiplePricesReply { ticker: t, prices, formatted_message })
    }

    /// The full history of a ticker, named in any case, and its exact moments.
    pub fn get_stats(&self, ticker: &str) -> (r: Result<StatsReply, ServiceError>)
        requires
            self.wf(),
        ensures
            match r {
                Ok(reply) => {
                    &&& is_known(upper_of(ticker@))
                    &&& self@.prices.contains_key(upper_of(ticker@))
                    &&& reply.ticker@ == upper_of(ticker@)
                    &&& reply.prices@ == self@.prices[upper_of(ticker@)]
                    &&& reply.prices@.len() > 0
                    &&& reply.summary.describes(reply.prices@)
                },
                Err(e) => if !is_known(upper_of(ticker@)) {
                    e matches ServiceError::InvalidTicker { ticker: t } && t@ == upper_of(ticker@)
                } else {
                    &&& !self@.prices.contains_key(upper_of(ticker@))
                    &&& e matches ServiceError::NoHistory { ticker: t } && t@ == upper_of(ticker@)
                },
            },
    {
        let t = validate_ticker(ticker)?;
        match self.tracker.get_prices(t.as_str()) {
            Some(series) => {
                let prices = copy_prices(series);
                let summary = crate::tracker::summarize(&prices);
                Ok(StatsReply { ticker: t, prices, summary })
            },
            None => Err(ServiceError::NoHistory { ticker: t }),
        }
    }

    /// Opens a streaming session for a ticker, named in any case, on behalf
    /// of `client`. The ticker is checked here, once.
    pub fn stream_prices(&self, ticker: &str, client: ClientId) -> (r: Result<
        StreamSession,
        ServiceError,
    >)
        ensures
            match r {
                Ok(s) => {
                    &&& is_known(upper_of(ticker@))
                    &&& s.view_ticker() == upper_of(ticker@)
                    &&& s.view_client() == client
                    &&& s.is_open()
                },
                Err(e) => {
                    &&& !is_known(upper_of(ticker@))
                    &&& e matches ServiceError::InvalidTicker { ticker: t } && t@ == upper_of(ticker@)
                },
            },
    {
        let t = validate_ticker(ticker)?;
        Ok(StreamSession::new(t, client))
    }
}

} // verus!
