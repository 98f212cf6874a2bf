//! Order execution.
//!
//! The engine writes the order, hands it to the embedding program for
//! signing and submission over the pooled client, and turns what the
//! transport reports into a typed result. Nothing is retried here: what to
//! do about a failed order is the caller's decision.

use vstd::prelude::*;
use vstd::string::StringExecFns;
use crate::fixed::{decimal_text, format_micros};
use crate::outside::build_http_client;
use crate::strategy::{TradeDirection, TradeSignal};

verus! {

/// Idle connections that the client keeps open per host.
pub const POOL_MAX_IDLE_PER_HOST: usize = 100;

/// Round-trip time allowed to an order, in milliseconds.
pub const ORDER_TIMEOUT_MS: u64 = 500;

/// What the client of an engine is built with.
#[derive(Debug, Clone, Copy, PartialEq, Eq, Structural)]
pub struct ClientSettings {
    /// Idle connections that the client keeps open per host.
    pub max_idle_per_host: usize,
    /// Whether the client sends without delay.
    pub nodelay: bool,
    /// Round-trip time allowed to an order, in milliseconds.
    pub timeout_ms: u64,
}

/// The settings of the engine's own client: a pool of
/// [`POOL_MAX_IDLE_PER_HOST`] idle connections per host, no delay on
/// sending, and [`ORDER_TIMEOUT_MS`] for every order.
pub fn client_settings() -> (s: ClientSettings)
    ensures
        s == (ClientSettings {
            max_idle_per_host: POOL_MAX_IDLE_PER_HOST,
            nodelay: true,
            timeout_ms: ORDER_TIMEOUT_MS,
        }),
{
    ClientSettings { max_idle_per_host: POOL_MAX_IDLE_PER_HOST, nodelay: true, timeout_ms: ORDER_TIMEOUT_MS }
}

/// How an order ended.
#[derive(Debug, Clone, Copy, PartialEq, Eq, Structural)]
pub enum ExecutionOutcome {
    /// The venue accepted the order in time.
    Filled,
    /// The venue refused the order, or the transport failed.
    Failed,
    /// The order did not complete within the allowed time.
    TimedOut,
}

/// How an order ended, and how long it took.
#[derive(Debug, Clone, Copy, PartialEq, Eq, Structural)]
pub struct ExecutionResult {
    pub outcome: ExecutionOutcome,
    /// Time from submission to the report, in milliseconds.
    pub elapsed_latency_ms: u64,
}

/// What the transport reports of a submitted order.
#[derive(Debug, Clone, Copy, PartialEq, Eq, Structural)]
pub enum SubmissionReport {
    /// The venue answered and accepted the order.
    Accepted,
    /// The venue answered and refused the order.
    Refused,
    /// No answer: the transport failed.
    TransportError,
    /// No answer within the client's timeout.
    TimedOut,
}

/// The outcome that a report stands for after `elapsed_ms`. An order that
/// took the whole allowed time counts as timed out even where the venue
/// accepted it in the end.
pub open spec fn outcome_of(report: SubmissionReport, elapsed_ms: u64) -> ExecutionOutcome {
    match report {
        SubmissionReport::TimedOut => ExecutionOutcome::TimedOut,
        SubmissionReport::TransportError => ExecutionOutcome::Failed,
        SubmissionReport::Refused => ExecutionOutcome::Failed,
        SubmissionReport::Accepted => if elapsed_ms >= ORDER_TIMEOUT_MS {
            ExecutionOutcome::TimedOut
        } else {
            ExecutionOutcome::Filled
        },
    }
}

/// Turns the transport's report into a result.
pub fn conclude(report: SubmissionReport, elapsed_ms: u64) -> (r: ExecutionResult)
    ensures
        r.outcome == outcome_of(report, elapsed_ms),
        r.elapsed_latency_ms == elapsed_ms,
{
    let outcome = match report {
        SubmissionReport::TimedOut => ExecutionOutcome::TimedOut,
        SubmissionReport::TransportError => ExecutionOutcome::Failed,
        SubmissionReport::Refused => ExecutionOutcome::Failed,
        SubmissionReport::Accepted => if elapsed_ms >= ORDER_TIMEOUT_MS {
            ExecutionOutcome::TimedOut
        } else {
            ExecutionOutcome::Filled
        },
    };
    ExecutionResult { outcome, elapsed_latency_ms: elapsed_ms }
}

/// How the side of an order is written: `true` to buy, `false` to sell.
pub open spec fn side_text(direction: TradeDirection) -> Seq<char> {
    match direction {
        TradeDirection::Buy => "true"@,
        TradeDirection::Sell => "false"@,
    }
}

/// The order as it goes over the wire: a JSON object that names the action
/// and holds price, side and size. Price and size are decimal numbers with
/// six fractional digits.
pub open spec fn order_text(direction: TradeDirection, size: int, limit_price: int) -> Seq<char> {
    "{\"action\":\"CREATE_ORDER\",\"order\":{\"price\":"@ + decimal_text(limit_price) + ",\"side\":"@
        + side_text(direction) + ",\"size\":"@ + decimal_text(size) + "}}"@
}

/// Writes the order for a sized signal.
pub fn order_payload(signal: &TradeSignal, size: i128) -> (r: String)
    ensures
        r@ == order_text(signal.direction, size as int, signal.limit_price as int),
{
    let price = format_micros(signal.limit_price as i128);
    let amount = format_micros(size);
    let mut payload = String::from_str("{\"action\":\"CREATE_ORDER\",\"order\":{\"price\":");
    payload.append(price.as_str());
    payload.append(",\"side\":");
    match signal.direction {
        TradeDirection::Buy => payload.append("true"),
        TradeDirection::Sell => payload.append("false"),
    }
    payload.append(",\"size\":");
    payload.append(amount.as_str());
    payload.append("}}");
    payload
}

/// Places orders at one venue over a pooled client.
pub struct ExecutionEngine {
    http_client: reqwest::Client,
    rest_url: String,
    settings: ClientSettings,
}

impl ExecutionEngine {
    /// The URL of the venue's order endpoint.
    pub closed spec fn url(&self) -> Seq<char> {
        self.rest_url@
    }

    /// The client that the engine submits orders with.
    pub closed spec fn client(&self) -> reqwest::Client {
        self.http_client
    }

    /// The settings that the engine's client was built with.
    pub closed spec fn settings(&self) -> ClientSettings {
        self.settings
    }

    /// An engine for the venue at `url`. Its client is asked for with the
    /// settings of [`client_settings`]: a pool of idle connections per host,
    /// no delay on sending, and a bound on the round trip of every order.
    /// There is no engine where the client cannot be built. No request is
    /// made here.
    pub fn new(url: String) -> (r: Option<Self>)
        ensures
            r matches Some(engine) ==> engine.url() == url@ && engine.settings() == (ClientSettings {
                max_idle_per_host: POOL_MAX_IDLE_PER_HOST,
                nodelay: true,
                timeout_ms: ORDER_TIMEOUT_MS,
            }),
    {
        let settings = client_settings();
        let http_client = build_http_client(settings.max_idle_per_host, settings.nodelay, settings.timeout_ms);
        Self::with_client(http_client, settings, url)
    }

    /// An engine for the venue at `url` around a client that the caller has
    /// built with `settings`, where there is one.
    pub fn with_client(http_client: Option<reqwest::Client>, settings: ClientSettings, url: String) -> (r:
        Option<Self>)
        ensures
            r is Some <==> http_client is Some,
            r matches Some(engine) ==> engine.url() == url@ && Some(engine.client()) == http_client
                && engine.settings() == settings,
    {
        match http_client {
            Some(http_client) => Some(ExecutionEngine { http_client, rest_url: url, settings }),
            None => None,
        }
    }

    /// The client to submit orders with.
    pub fn http_client(&self) -> (r: &reqwest::Client)
        ensures
            *r == self.client(),
    {
        &self.http_client
    }

    /// The settings that the engine's client was built with.
    pub fn configured(&self) -> (r: ClientSettings)
        ensures
            r == self.settings(),
    {
        self.settings
    }

    /// The URL of the venue's order endpoint.
    pub fn rest_url(&self) -> (r: &str)
        ensures
            r@ == self.url(),
    {
        self.rest_url.as_str()
    }
}

} // verus!
