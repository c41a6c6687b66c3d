use vstd::prelude::*;

use crate::random::in_price_range;
use crate::registry::ClientId;
use crate::service::{PriceReply, ShutdownMode, StockServiceImpl};
use crate::text::price_message;

verus! {

/// What a streaming session does after an attempt to deliver an update.
#[derive(PartialEq, Eq, Structural, Clone, Copy, Debug)]
pub enum SessionStep {
    /// The update was delivered: wait for the next tick.
    Continue,
    /// The consumer is gone: the client was unregistered and the session
    /// ends. `shutdown` tells whether that departure raised the shutdown signal.
    Stop { shutdown: bool },
}

/// The decisions of one price stream: on each tick a new quote is recorded
/// and handed out; a failed delivery ends the session and unregisters its
/// client. Waiting for ticks and delivering happen outside.
pub struct StreamSession {
    ticker: String,
    client: ClientId,
    open: bool,
}

impl StreamSession {
    pub closed spec fn view_ticker(&self) -> Seq<char> {
        self.ticker@
    }

    pub closed spec fn view_client(&self) -> ClientId {
        self.client
    }

    pub closed spec fn is_open(&self) -> bool {
        self.open
    }

    /// A running session for a ticker that has already been validated.
    pub(crate) fn new(ticker: String, client: ClientId) -> (r: Self)
        ensures
            r.view_ticker() == ticker@,
            r.view_client() == client,
            r.is_open(),
    {
        StreamSession { ticker, client, open: true }
    }

    /// The streamed ticker.
    pub fn ticker(&self) -> (r: &String)
        ensures
            r@ == self.view_ticker(),
    {
        &self.ticker
    }

    /// The client the stream belongs to.
    pub fn client(&self) -> (r: ClientId)
        ensures
            r == self.view_client(),
    {
        self.client
    }

    /// Whether the session still runs.
    pub fn open(&self) -> (r: bool)
        ensures
            r == self.is_open(),
    {
        self.open
    }

    /// The work of one tick: a new quote, appended to the ticker's history
    /// after every earlier one, to be delivered next.
    pub fn next_update(&self, service: &mut StockServiceImpl) -> (r: PriceReply)
        requires
            self.is_open(),
            old(service).wf(),
        ensures
            final(service).wf(),
            r.ticker@ == self.view_ticker(),
            in_price_range(r.price),
            r.formatted_message@ == price_message(r.ticker@, r.price as nat),
            final(service)@ == old(service)@.record(self.view_ticker(), seq![r.price]),
    {
        service.quote(self.ticker.clone())
    }

    /// Reacts to the outcome of a delivery made at `now`. A delivered update
    /// counts as activity of the client. A failed one means the consumer is
    /// gone: the client is unregistered, which may raise the shutdown
    /// signal, and the session ends.
    pub fn after_send(&mut self, delivered: bool, now: u64, service: &mut StockServiceImpl) -> (step: SessionStep)
        requires
            old(self).is_open(),
            old(service).wf(),
        ensures
            final(service).wf(),
            final(self).view_ticker() == old(self).view_ticker(),
            final(self).view_client() == old(self).view_client(),
            delivered ==> {
                &&& step == SessionStep::Continue
                &&& final(self).is_open()
                &&& final(service)@ == old(service)@.with_registry(
                    old(service)@.registry.after_touch(old(self).view_client(), now),
                )
            },
            !delivered ==> {
                &&& !final(self).is_open()
                &&& !final(service)@.registry.clients.contains_key(old(self).view_client())
                &&& final(service)@.registry == old(service)@.registry.after_unregister(
                    old(self).view_client(),
                )
                &&& final(service)@.prices == old(service)@.prices
                &&& step == (SessionStep::Stop {
                    shutdown: !old(service)@.shutdown && old(service)@.mode
                        == ShutdownMode::OnLastDeparture && old(service)@.last_departure(
                        old(self).view_client(),
                    ),
                })
            },
    {
        if delivered {
            service.touch_client(self.client, now);
            SessionStep::Continue
        } else {
            let shutdown = service.unregister_client(self.client);
            self.open = false;
            SessionStep::Stop { shutdown }
        }
    }
}

} // verus!
