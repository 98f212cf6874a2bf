//! Shared price state and the feeds that fill it.
//!
//! Two cells hold the latest price of the asset: one for the venue where it
//! trades, one for the reference source. Each cell has one writer and any
//! number of readers, and no lock. A cell holds zero until its feed has
//! delivered a first price.
//!
//! A feed is driven from outside: the embedding program owns the connection,
//! reports what happened on it as a [`FeedEvent`], and carries out the
//! [`FeedAction`] it gets back.

use std::sync::Arc;
use std::sync::atomic::AtomicI64;
use std::sync::atomic::Ordering;
use vstd::prelude::*;
use vstd::string::StringExecFns;
use crate::config::Config;
use crate::fixed::{double_micros, micros_from_double};
use crate::outside::{json_number_field, json_string_literal, number_field_bits, string_literal};
use crate::outside::{is_absolute_url, random_sample, url_parses};

verus! {

/// What a cell holds before its feed has delivered a price.
pub const UNINITIALIZED_PRICE: i64 = 0;

/// Pause between losing a connection and opening the next, in milliseconds,
/// unless set otherwise.
pub const RECONNECT_BACKOFF_MS: u64 = 1000;

/// The two price cells.
pub struct PriceFeeds {
    /// Price on the venue where orders are placed.
    pub polymarket_btc: Arc<AtomicI64>,
    /// Price from the reference source.
    pub oracle_btc: Arc<AtomicI64>,
}

impl PriceFeeds {
    /// Two fresh cells, both uninitialized.
    pub fn new() -> Self {
        PriceFeeds {
            polymarket_btc: Arc::new(AtomicI64::new(UNINITIALIZED_PRICE)),
            oracle_btc: Arc::new(AtomicI64::new(UNINITIALIZED_PRICE)),
        }
    }
}

/// Publishes a price to a cell. The store has release ordering, so a reader
/// that sees the price also sees everything its writer did before.
pub fn store_price(cell: &AtomicI64, price: i64) {
    cell.store(price, Ordering::Release);
}

/// Reads the latest price of a cell, with acquire ordering. Other threads
/// write the cell, so nothing is known of the value read.
pub fn load_price(cell: &AtomicI64) -> i64 {
    cell.load(Ordering::Acquire)
}

/// The price that an inbound message carries: the number under `price`,
/// in units, where the message has one that units can express.
pub open spec fn message_price(text: Seq<char>) -> Option<i64> {
    match json_number_field(text, "price"@) {
        Some(bits) => double_micros(bits),
        None => None,
    }
}

/// Extracts the price from an inbound message.
pub fn price_from_message(text: &str) -> (r: Option<i64>)
    ensures
        r == message_price(text@),
{
    match number_field_bits(text, "price") {
        Some(bits) => micros_from_double(bits),
        None => None,
    }
}

/// The subscription request around an asset identifier that is already
/// written as a JSON string literal.
pub open spec fn subscription_frame(quoted_asset: Seq<char>) -> Seq<char> {
    "{\"assets_ids\":["@ + quoted_asset + "],\"type\":\"market\"}"@
}

/// Frames the subscription request around a quoted asset identifier.
pub fn frame_subscription(quoted_asset: &str) -> (r: String)
    ensures
        r@ == subscription_frame(quoted_asset@),
{
    let mut message = String::from_str("{\"assets_ids\":[");
    message.append(quoted_asset);
    message.append("],\"type\":\"market\"}");
    message
}

/// The subscription request for an asset: market data for that one asset.
pub fn subscription_message(asset_id: &str) -> (r: String)
    ensures
        r@ == subscription_frame(json_string_literal(asset_id@)),
{
    let quoted = string_literal(asset_id);
    frame_subscription(quoted.as_str())
}

/// Where a feed stands in its connection cycle.
#[derive(Debug, Clone, Copy, PartialEq, Eq, Structural)]
pub enum FeedState {
    /// A connection attempt is under way.
    Connecting,
    /// The connection is open and the subscription request is being sent.
    Subscribing,
    /// Subscribed: inbound frames are awaited.
    Streaming,
    /// The connection is closed and the backoff pause is running.
    BackingOff,
}

/// What happened on the connection since the last action.
#[derive(Debug, Clone, PartialEq, Eq)]
pub enum FeedEvent {
    /// The connection attempt succeeded.
    Connected,
    /// The connection attempt failed.
    ConnectFailed,
    /// The subscription request was sent.
    Subscribed,
    /// A text frame arrived.
    Text(String),
    /// A ping frame arrived, with its payload.
    Ping(Vec<u8>),
    /// A frame of any other kind arrived.
    Other,
    /// Sending or receiving failed.
    TransportError,
    /// The peer ended the stream.
    StreamEnded,
    /// The backoff pause is over.
    BackoffElapsed,
}

/// What the embedding program does next.
#[derive(Debug, Clone, PartialEq, Eq)]
pub enum FeedAction {
    /// Open a connection to this URL, then report `Connected` or
    /// `ConnectFailed`.
    Connect(String),
    /// Send this text frame, then report `Subscribed` or `TransportError`.
    Subscribe(String),
    /// Await the next inbound frame and report it.
    Receive,
    /// Answer the ping with a pong of this payload, whatever becomes of the
    /// send, then await the next inbound frame and report it.
    Pong(Vec<u8>),
    /// Close the connection, pause for this many milliseconds, then report
    /// `BackoffElapsed`.
    Backoff(u64),
}

/// The state that follows `state` on `event`. Each step of the cycle has one
/// event that advances it; a failure, or an event that arrives out of turn,
/// leads to the backoff pause, from where the cycle starts over.
pub open spec fn feed_next_state(state: FeedState, event: FeedEvent) -> FeedState {
    match (state, event) {
        (FeedState::Connecting, FeedEvent::Connected) => FeedState::Subscribing,
        (FeedState::Subscribing, FeedEvent::Subscribed) => FeedState::Streaming,
        (FeedState::Streaming, FeedEvent::Text(_)) => FeedState::Streaming,
        (FeedState::Streaming, FeedEvent::Ping(_)) => FeedState::Streaming,
        (FeedState::Streaming, FeedEvent::Other) => FeedState::Streaming,
        (FeedState::BackingOff, FeedEvent::BackoffElapsed) => FeedState::Connecting,
        _ => FeedState::BackingOff,
    }
}

/// The price that a step publishes to the cell: the one that a text frame
/// carries while streaming, and none otherwise.
pub open spec fn feed_published(state: FeedState, event: FeedEvent) -> Option<i64> {
    match (state, event) {
        (FeedState::Streaming, FeedEvent::Text(text)) => message_price(text@),
        _ => None,
    }
}

/// Whether `action` is the action that answers `event` in `state`, for a
/// feed of the asset `asset_id` at `ws_url` that pauses for `backoff_ms`.
pub open spec fn feed_action_fits(
    state: FeedState,
    event: FeedEvent,
    ws_url: Seq<char>,
    asset_id: Seq<char>,
    backoff_ms: u64,
    action: FeedAction,
) -> bool {
    match (state, event) {
        (FeedState::Connecting, FeedEvent::Connected) => action matches FeedAction::Subscribe(m)
            && m@ == subscription_frame(json_string_literal(asset_id)),
        (FeedState::Subscribing, FeedEvent::Subscribed) => action is Receive,
        (FeedState::Streaming, FeedEvent::Text(_)) => action is Receive,
        (FeedState::Streaming, FeedEvent::Ping(payload)) => action matches FeedAction::Pong(p)
            && p@ == payload@,
        (FeedState::Streaming, FeedEvent::Other) => action is Receive,
        (FeedState::BackingOff, FeedEvent::BackoffElapsed) => action matches FeedAction::Connect(u)
            && u@ == ws_url,
        _ => action == FeedAction::Backoff(backoff_ms),
    }
}

/// The outcome of one step of a feed.
#[derive(Debug, Clone, PartialEq, Eq)]
pub struct FeedStep {
    /// What to do next.
    pub action: FeedAction,
    /// The price that the step published to the cell, if any.
    pub published: Option<i64>,
}

/// Mirrors the prices of one venue into one cell.
///
/// The ingestor never fails: whatever goes wrong on the connection ends in
/// a pause and a new connection.
pub struct PriceFeedIngestor {
    ws_url: String,
    asset_id: String,
    shared_price: Arc<AtomicI64>,
    backoff_ms: u64,
    state: FeedState,
}

impl PriceFeedIngestor {
    /// The URL that the feed connects to.
    pub closed spec fn url(&self) -> Seq<char> {
        self.ws_url@
    }

    /// The asset that the feed subscribes to.
    pub closed spec fn asset(&self) -> Seq<char> {
        self.asset_id@
    }

    /// Pause between losing a connection and opening the next, in
    /// milliseconds.
    pub closed spec fn backoff(&self) -> u64 {
        self.backoff_ms
    }

    /// Where the feed stands in its cycle.
    pub closed spec fn phase(&self) -> FeedState {
        self.state
    }

    /// The cell that the feed writes to.
    pub closed spec fn cell(&self) -> Arc<AtomicI64> {
        self.shared_price
    }

    /// An ingestor for the venue at `ws_url`, subscribing to `asset_id` and
    /// writing to `shared_price`. There is none where `ws_url` is not an
    /// absolute URL. The ingestor starts by connecting and pauses for
    /// [`RECONNECT_BACKOFF_MS`] after a failure.
    pub fn for_venue(ws_url: &str, asset_id: &str, shared_price: Arc<AtomicI64>) -> (r: Option<Self>)
        ensures
            r is Some <==> url_parses(ws_url@),
            r matches Some(feed) ==> feed.url() == ws_url@ && feed.asset() == asset_id@ && feed.cell()
                == shared_price && feed.backoff() == RECONNECT_BACKOFF_MS && feed.phase()
                == FeedState::Connecting,
    {
        if !is_absolute_url(ws_url) {
            return None;
        }
        Some(
            PriceFeedIngestor {
                ws_url: String::from_str(ws_url),
                asset_id: String::from_str(asset_id),
                shared_price,
                backoff_ms: RECONNECT_BACKOFF_MS,
                state: FeedState::Connecting,
            },
        )
    }

    /// An ingestor for the venue where orders are placed: it connects to
    /// the venue's streaming URL and subscribes to the configured asset.
    pub fn new(config: &Config, shared_price: Arc<AtomicI64>) -> (r: Option<Self>)
        ensures
            r is Some <==> url_parses(config.polymarket.ws_url@),
            r matches Some(feed) ==> feed.url() == config.polymarket.ws_url@ && feed.asset()
                == config.polymarket.btc_contract_id@ && feed.cell() == shared_price && feed.backoff()
                == RECONNECT_BACKOFF_MS && feed.phase() == FeedState::Connecting,
    {
        Self::for_venue(config.polymarket.ws_url.as_str(), config.polymarket.btc_contract_id.as_str(), shared_price)
    }

    /// An ingestor for the reference source: it connects to the streaming
    /// URL of the reference source and subscribes to the configured asset.
    pub fn for_oracle(config: &Config, shared_price: Arc<AtomicI64>) -> (r: Option<Self>)
        ensures
            r is Some <==> url_parses(config.oracles.tradingview_ws_url@),
            r matches Some(feed) ==> feed.url() == config.oracles.tradingview_ws_url@ && feed.asset()
                == config.polymarket.btc_contract_id@ && feed.cell() == shared_price && feed.backoff()
                == RECONNECT_BACKOFF_MS && feed.phase() == FeedState::Connecting,
    {
        Self::for_venue(
            config.oracles.tradingview_ws_url.as_str(),
            config.polymarket.btc_contract_id.as_str(),
            shared_price,
        )
    }

    /// Sets the pause between losing a connection and opening the next.
    pub fn set_backoff(&mut self, millis: u64)
        ensures
            final(self).backoff() == millis,
            final(self).url() == old(self).url(),
            final(self).asset() == old(self).asset(),
            final(self).cell() == old(self).cell(),
            final(self).phase() == old(self).phase(),
    {
        self.backoff_ms = millis;
    }

    /// Where the feed stands in its cycle.
    pub fn state(&self) -> (r: FeedState)
        ensures
            r == self.phase(),
    {
        self.state
    }

    /// The first action of a new ingestor: open the connection.
    pub fn start(&self) -> (action: FeedAction)
        ensures
            action matches FeedAction::Connect(u) && u@ == self.url(),
    {
        FeedAction::Connect(self.ws_url.clone())
    }

    /// Takes one event and says what to do next.
    ///
    /// A text frame that carries a price publishes it to the cell; one that
    /// carries none is skipped. A ping is answered. A failure of any kind
    /// closes the connection and starts the backoff pause.
    pub fn on_event(&mut self, event: FeedEvent) -> (step: FeedStep)
        ensures
            final(self).phase() == feed_next_state(old(self).phase(), event),
            final(self).url() == old(self).url(),
            final(self).asset() == old(self).asset(),
            final(self).cell() == old(self).cell(),
            final(self).backoff() == old(self).backoff(),
            step.published == feed_published(old(self).phase(), event),
            feed_action_fits(
                old(self).phase(),
                event,
                old(self).url(),
                old(self).asset(),
                old(self).backoff(),
                step.action,
            ),
    {
        let state = self.state;
        match (state, event) {
            (FeedState::Connecting, FeedEvent::Connected) => {
                self.state = FeedState::Subscribing;
                let request = subscription_message(self.asset_id.as_str());
                FeedStep { action: FeedAction::Subscribe(request), published: None }
            },
            (FeedState::Subscribing, FeedEvent::Subscribed) => {
                self.state = FeedState::Streaming;
                FeedStep { action: FeedAction::Receive, published: None }
            },
            (FeedState::Streaming, FeedEvent::Text(text)) => {
                let price = price_from_message(text.as_str());
                if let Some(p) = price {
                    store_price(&self.shared_price, p);
                }
                FeedStep { action: FeedAction::Receive, published: price }
            },
            (FeedState::Streaming, FeedEvent::Ping(payload)) => {
                FeedStep { action: FeedAction::Pong(payload), published: None }
            },
            (FeedState::Streaming, FeedEvent::Other) => {
                FeedStep { action: FeedAction::Receive, published: None }
            },
            (FeedState::BackingOff, FeedEvent::BackoffElapsed) => {
                self.state = FeedState::Connecting;
                FeedStep { action: FeedAction::Connect(self.ws_url.clone()), published: None }
            },
            _ => {
                self.state = FeedState::BackingOff;
                FeedStep { action: FeedAction::Backoff(self.backoff_ms), published: None }
            },
        }
    }
}

/// Whether the event reports a failure of the connection.
pub open spec fn is_feed_failure(event: FeedEvent) -> bool {
    event is ConnectFailed || event is TransportError || event is StreamEnded
}

/// A failure never ends a feed. In whatever state it strikes, the feed
/// pauses for its backoff time; once the pause is over it connects again,
/// subscribes again, and a text frame that carries a price is published
/// again.
pub proof fn lemma_feed_recovers_from_failure(
    state: FeedState,
    failure: FeedEvent,
    ws_url: String,
    asset_id: Seq<char>,
    backoff_ms: u64,
    text: String,
)
    requires
        is_feed_failure(failure),
    ensures
        feed_next_state(state, failure) == FeedState::BackingOff,
        feed_action_fits(state, failure, ws_url@, asset_id, backoff_ms, FeedAction::Backoff(backoff_ms)),
        feed_action_fits(
            FeedState::BackingOff,
            FeedEvent::BackoffElapsed,
            ws_url@,
            asset_id,
            backoff_ms,
            FeedAction::Connect(ws_url),
        ),
        feed_published(state, failure) is None,
        feed_next_state(FeedState::BackingOff, FeedEvent::BackoffElapsed) == FeedState::Connecting,
        feed_next_state(FeedState::Connecting, FeedEvent::Connected) == FeedState::Subscribing,
        feed_next_state(FeedState::Subscribing, FeedEvent::Subscribed) == FeedState::Streaming,
        feed_next_state(FeedState::Streaming, FeedEvent::Text(text)) == FeedState::Streaming,
        feed_published(FeedState::Streaming, FeedEvent::Text(text)) == message_price(text@),
{
}

/// Price at which the simulated reference source starts.
pub const ORACLE_START_PRICE: i64 = 60_000_000_000;

/// Width of the range from which the simulated source draws each move.
pub const ORACLE_STEP_RANGE: u64 = 100_000_000;

/// Pause between two moves of the simulated source, in milliseconds.
pub const ORACLE_TICK_MS: u64 = 100;

/// The move that a random sample stands for: at least fifty below and less
/// than fifty above, in whole units of the price.
pub open spec fn walk_offset(sample: u64) -> int {
    (sample % ORACLE_STEP_RANGE) as int - (ORACLE_STEP_RANGE / 2) as int
}

/// The price after one move, kept within what a cell can hold.
pub open spec fn walk_next(current: i64, sample: u64) -> i64 {
    let moved = current as int + walk_offset(sample);
    if moved > i64::MAX as int {
        i64::MAX
    } else if moved < i64::MIN as int {
        i64::MIN
    } else {
        moved as i64
    }
}

/// Moves a price by the offset that `sample` stands for.
pub fn random_walk_step(current: i64, sample: u64) -> (next: i64)
    ensures
        next == walk_next(current, sample),
{
    let drawn: u64 = sample % ORACLE_STEP_RANGE;
    let half: u64 = ORACLE_STEP_RANGE / 2;
    if drawn >= half {
        let up: i64 = (drawn - half) as i64;
        if current > i64::MAX - up {
            i64::MAX
        } else {
            current + up
        }
    } else {
        let down: i64 = (half - drawn) as i64;
        if current < i64::MIN + down {
            i64::MIN
        } else {
            current - down
        }
    }
}

/// A stand-in for the reference source: a price that walks at random.
pub struct SimulatedOracle {
    current_price: i64,
    shared_price: Arc<AtomicI64>,
}

impl SimulatedOracle {
    /// The price that the walk has reached.
    pub closed spec fn price(&self) -> i64 {
        self.current_price
    }

    /// The cell that the walk writes to.
    pub closed spec fn cell(&self) -> Arc<AtomicI64> {
        self.shared_price
    }

    /// A walk that starts at [`ORACLE_START_PRICE`] and writes to
    /// `shared_price`.
    pub fn new(shared_price: Arc<AtomicI64>) -> (r: Self)
        ensures
            r.price() == ORACLE_START_PRICE,
            r.cell() == shared_price,
    {
        SimulatedOracle { current_price: ORACLE_START_PRICE, shared_price }
    }

    /// The price that the walk has reached.
    pub fn current_price(&self) -> (r: i64)
        ensures
            r == self.price(),
    {
        self.current_price
    }

    /// Makes one random move and publishes the new price to the cell. The
    /// caller pauses for [`ORACLE_TICK_MS`] between two moves.
    pub fn tick(&mut self) -> (price: i64)
        ensures
            price == final(self).price(),
            final(self).cell() == old(self).cell(),
            exists|sample: u64| price == walk_next(old(self).price(), sample),
    {
        let sample: u64 = random_sample();
        let next = random_walk_step(self.current_price, sample);
        assert(next == walk_next(old(self).price(), sample));
        self.current_price = next;
        store_price(&self.shared_price, next);
        next
    }
}

} // verus!
