//! The arbitrage detector.
//!
//! The detector compares the tracked price with the reference price. The lag
//! between them is the distance of the reference from the tracked price,
//! relative to the tracked price. Where the lag exceeds the configured
//! threshold the detector raises one signal and then keeps silent for a
//! cooldown window, however long the divergence lasts.
//!
//! The detector is polled from outside: the embedding program hands in the
//! time, carries out the [`DetectorAction`] it gets back, and polls again.

use std::sync::Arc;
use std::sync::atomic::AtomicI64;
use vstd::prelude::*;
use crate::config::Config;
use crate::feeds::{load_price, UNINITIALIZED_PRICE};
use crate::fixed::{magnitude, SCALE};

verus! {

/// Pause while a feed has not delivered its first price, in milliseconds,
/// unless set otherwise.
pub const WARMUP_WAIT_MS: u64 = 10;

/// Time after a signal during which no further signal is raised, in
/// milliseconds, unless set otherwise.
pub const COOLDOWN_MS: u64 = 500;

/// Side of the corrective trade.
#[derive(Debug, Clone, Copy, PartialEq, Eq, Structural)]
pub enum TradeDirection {
    /// The tracked price is below the reference.
    Buy,
    /// The tracked price is at or above the reference.
    Sell,
}

/// A detected divergence, to be sized and executed once.
#[derive(Debug, Clone, Copy, PartialEq, Eq, Structural)]
pub struct TradeSignal {
    pub direction: TradeDirection,
    /// The tracked price at detection, in units.
    pub limit_price: i64,
    /// The reference price at detection, in units.
    pub oracle_reference: i64,
    /// Time of detection, in milliseconds on the caller's clock.
    pub created_at: u64,
}

/// What the embedding program does after a poll.
#[derive(Debug, Clone, Copy, PartialEq, Eq, Structural)]
pub enum DetectorAction {
    /// A feed is still warming up: pause for this many milliseconds, then
    /// poll again.
    WarmUp(u64),
    /// Hand the signal on, pause for this many milliseconds, then poll again.
    Emit(TradeSignal, u64),
    /// A signal was raised a moment ago: pause for this many milliseconds,
    /// then poll again.
    CoolDown(u64),
    /// Nothing to report: yield to the scheduler, then poll again.
    Yield,
}

/// Whether the lag between the two prices exceeds `threshold`, a fraction in
/// millionths: `|reference - tracked| / tracked > threshold`, decided
/// exactly. A tracked price below zero has a lag below zero, which exceeds
/// no threshold.
pub open spec fn lag_exceeds(market: int, reference: int, threshold: int) -> bool {
    market > 0 && magnitude(reference - market) * SCALE > threshold * market
}

/// The side that corrects the divergence.
pub open spec fn direction_of(market: int, reference: int) -> TradeDirection {
    if market < reference {
        TradeDirection::Buy
    } else {
        TradeDirection::Sell
    }
}

/// What a detector is set to.
#[derive(Debug, Clone, Copy, PartialEq, Eq, Structural)]
pub struct DetectorSettings {
    /// Relative divergence above which a signal is raised, in millionths.
    pub threshold: u64,
    /// Pause while a feed has not delivered its first price, in milliseconds.
    pub warmup_wait_ms: u64,
    /// Time after a signal during which no further signal is raised, in
    /// milliseconds.
    pub cooldown_ms: u64,
}

/// Milliseconds of the cooldown window that are left at `now`, given the
/// time of the last signal. A clock that runs backwards counts as standing
/// still.
pub open spec fn cooldown_left(last_signal: Option<u64>, cooldown_ms: u64, now: u64) -> int {
    match last_signal {
        Some(at) => if now < at {
            cooldown_ms as int
        } else if now - at < cooldown_ms {
            cooldown_ms - (now - at)
        } else {
            0
        },
        None => 0,
    }
}

/// The action of a poll at `now` that finds the two prices, for a detector
/// that raised its last signal at `last_signal`.
pub open spec fn detector_action(
    settings: DetectorSettings,
    last_signal: Option<u64>,
    market: i64,
    reference: i64,
    now: u64,
) -> DetectorAction {
    if cooldown_left(last_signal, settings.cooldown_ms, now) > 0 {
        DetectorAction::CoolDown(cooldown_left(last_signal, settings.cooldown_ms, now) as u64)
    } else if market == UNINITIALIZED_PRICE || reference == UNINITIALIZED_PRICE {
        DetectorAction::WarmUp(settings.warmup_wait_ms)
    } else if lag_exceeds(market as int, reference as int, settings.threshold as int) {
        DetectorAction::Emit(
            TradeSignal {
                direction: direction_of(market as int, reference as int),
                limit_price: market,
                oracle_reference: reference,
                created_at: now,
            },
            settings.cooldown_ms,
        )
    } else {
        DetectorAction::Yield
    }
}

/// The time of the last signal after a poll that ended in `action`.
pub open spec fn detector_last_signal(last_signal: Option<u64>, action: DetectorAction, now: u64) -> Option<u64> {
    if action is Emit {
        Some(now)
    } else {
        last_signal
    }
}

/// Decides whether the lag between two prices exceeds the threshold.
pub fn exceeds_threshold(market: i64, reference: i64, threshold: u64) -> (r: bool)
    ensures
        r == lag_exceeds(market as int, reference as int, threshold as int),
{
    if market <= 0 {
        return false;
    }
    let gap: i128 = if reference >= market {
        reference as i128 - market as i128
    } else {
        market as i128 - reference as i128
    };
    assert(gap * 1_000_000 <= 0xffff_ffff_ffff_ffff * 1_000_000) by (nonlinear_arith)
        requires
            0 <= gap <= 0xffff_ffff_ffff_ffff,
    ;
    assert(0 <= (threshold as int) * (market as int) <= 0xffff_ffff_ffff_ffff * 0x7fff_ffff_ffff_ffff)
        by (nonlinear_arith)
        requires
            0 <= threshold <= 0xffff_ffff_ffff_ffff,
            0 < market <= 0x7fff_ffff_ffff_ffff,
    ;
    let scaled_gap: i128 = gap * (SCALE as i128);
    let bound: i128 = (threshold as i128) * (market as i128);
    scaled_gap > bound
}

/// The detector: the strategy parameters, the two cells it reads, its
/// pauses, and the time of its last signal.
pub struct StrategyEngine {
    pub config: Config,
    pub polymarket_price: Arc<AtomicI64>,
    pub oracle_price: Arc<AtomicI64>,
    /// Pause while a feed has not delivered its first price, in milliseconds.
    pub warmup_wait_ms: u64,
    /// Time after a signal during which no further signal is raised, in
    /// milliseconds.
    pub cooldown_ms: u64,
    /// When the detector raised its last signal, if it ever did.
    pub last_signal_at: Option<u64>,
}

impl StrategyEngine {
    /// What the detector is set to.
    pub open spec fn settings(&self) -> DetectorSettings {
        DetectorSettings {
            threshold: self.config.strategy.lag_threshold,
            warmup_wait_ms: self.warmup_wait_ms,
            cooldown_ms: self.cooldown_ms,
        }
    }

    /// A detector that has raised no signal yet, with a warm-up pause of
    /// [`WARMUP_WAIT_MS`] and a cooldown of [`COOLDOWN_MS`].
    pub fn new(config: Config, polymarket_price: Arc<AtomicI64>, oracle_price: Arc<AtomicI64>) -> (r: Self)
        ensures
            r.config == config,
            r.polymarket_price == polymarket_price,
            r.oracle_price == oracle_price,
            r.warmup_wait_ms == WARMUP_WAIT_MS,
            r.cooldown_ms == COOLDOWN_MS,
            r.last_signal_at is None,
    {
        StrategyEngine {
            config,
            polymarket_price,
            oracle_price,
            warmup_wait_ms: WARMUP_WAIT_MS,
            cooldown_ms: COOLDOWN_MS,
            last_signal_at: None,
        }
    }

    /// One round of detection on a pair of prices read at `now`.
    ///
    /// Within the cooldown window of the last signal nothing is raised.
    /// Outside it, a pair of which one price is still uninitialized asks for
    /// the warm-up pause; a pair whose lag exceeds the threshold raises a
    /// signal to buy where the tracked price is below the reference, and to
    /// sell otherwise; any other pair raises nothing.
    pub fn evaluate(&mut self, market: i64, reference: i64, now: u64) -> (action: DetectorAction)
        ensures
            action == detector_action(old(self).settings(), old(self).last_signal_at, market, reference, now),
            final(self).last_signal_at == detector_last_signal(old(self).last_signal_at, action, now),
            final(self).settings() == old(self).settings(),
            final(self).config == old(self).config,
            final(self).polymarket_price == old(self).polymarket_price,
            final(self).oracle_price == old(self).oracle_price,
            market > 0 && magnitude(reference - market) * SCALE <= old(self).config.strategy.lag_threshold
                * market ==> !(action is Emit),
            action matches DetectorAction::Emit(signal, _) ==> signal.limit_price > 0 && (signal.direction
                == TradeDirection::Buy <==> market < reference),
    {
        if let Some(at) = self.last_signal_at {
            if now < at {
                if self.cooldown_ms > 0 {
                    return DetectorAction::CoolDown(self.cooldown_ms);
                }
            } else if now - at < self.cooldown_ms {
                return DetectorAction::CoolDown(self.cooldown_ms - (now - at));
            }
        }
        if market == UNINITIALIZED_PRICE || reference == UNINITIALIZED_PRICE {
            return DetectorAction::WarmUp(self.warmup_wait_ms);
        }
        if exceeds_threshold(market, reference, self.config.strategy.lag_threshold) {
            let direction = if market < reference {
                TradeDirection::Buy
            } else {
                TradeDirection::Sell
            };
            self.last_signal_at = Some(now);
            return DetectorAction::Emit(
                TradeSignal { direction, limit_price: market, oracle_reference: reference, created_at: now },
                self.cooldown_ms,
            );
        }
        DetectorAction::Yield
    }

    /// Reads both cells and runs one round of detection on what they hold.
    /// Other threads write the cells, so the prices are whatever was there.
    pub fn poll(&mut self, now: u64) -> (action: DetectorAction)
        ensures
            exists|market: i64, reference: i64|
                action == #[trigger] detector_action(
                    old(self).settings(),
                    old(self).last_signal_at,
                    market,
                    reference,
                    now,
                ),
            final(self).last_signal_at == detector_last_signal(old(self).last_signal_at, action, now),
            final(self).settings() == old(self).settings(),
            final(self).config == old(self).config,
            final(self).polymarket_price == old(self).polymarket_price,
            final(self).oracle_price == old(self).oracle_price,
    {
        let market = load_price(&self.polymarket_price);
        let reference = load_price(&self.oracle_price);
        self.evaluate(market, reference, now)
    }
}

/// One signal per cooldown window. While the last signal is younger than
/// the cooldown no poll raises another, whatever the prices; nor does a
/// poll whose clock reads less than at the last signal, where there is a
/// cooldown at all. A poll that finds both prices present and the lag
/// exceeded raises a signal once the cooldown is over, and the signal it
/// raises becomes the last one.
pub proof fn lemma_one_signal_per_cooldown(
    settings: DetectorSettings,
    last_signal: Option<u64>,
    market: i64,
    reference: i64,
    now: u64,
)
    ensures
        (last_signal matches Some(at) && at <= now < at + settings.cooldown_ms) ==> !(detector_action(
            settings,
            last_signal,
            market,
            reference,
            now,
        ) is Emit),
        (last_signal matches Some(at) && now < at && settings.cooldown_ms > 0) ==> !(detector_action(
            settings,
            last_signal,
            market,
            reference,
            now,
        ) is Emit),
        (last_signal matches Some(at) ==> now >= at + settings.cooldown_ms) && market != UNINITIALIZED_PRICE
            && reference != UNINITIALIZED_PRICE && lag_exceeds(
            market as int,
            reference as int,
            settings.threshold as int,
        ) ==> {
            let action = detector_action(settings, last_signal, market, reference, now);
            &&& action matches DetectorAction::Emit(signal, pause)
            &&& signal.direction == direction_of(market as int, reference as int)
            &&& signal.limit_price == market
            &&& signal.limit_price > 0
            &&& signal.oracle_reference == reference
            &&& signal.created_at == now
            &&& pause == settings.cooldown_ms
            &&& detector_last_signal(last_signal, action, now) == Some(now)
        },
{
}

} // verus!
