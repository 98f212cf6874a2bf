//! The consumption loop: from signal to order to recorded result.
//!
//! Signals are handled one at a time. Each is gated by the risk manager;
//! what passes is executed, and what the execution yields is recorded. Only
//! the halt of the risk manager ends the loop.

use vstd::prelude::*;
use crate::executor::{ExecutionOutcome, ExecutionResult};
use crate::fixed::SCALE;
use crate::risk_manager::{position_size, RiskManager, RiskView};
use crate::strategy::{detector_action, DetectorSettings, TradeSignal};

verus! {

/// Signals that may wait between the detector and the consumption loop.
pub const SIGNAL_CHANNEL_CAPACITY: usize = 100;

/// Time given to the feeds before detection starts, in milliseconds.
pub const FEED_WARMUP_MS: u64 = 2000;

/// Capital that the engine starts with, in units.
pub const STARTING_CAPITAL: i64 = 50_000_000;

/// Share of a trade's amount that a fill is estimated to capture, in
/// millionths.
pub const CAPTURE_RATE: u64 = 5_000;

/// What the loop does with a signal.
#[derive(Debug, Clone, Copy, PartialEq, Eq, Structural)]
pub enum SignalDecision {
    /// Execute the signal at this size, then settle the result.
    Execute(TradeSignal, i128),
    /// Drop the signal and take the next.
    Skip,
    /// The risk manager has halted: stop consuming signals.
    Halt,
}

/// The decision on `signal`, for a risk manager in `state`.
pub open spec fn decision_for(state: RiskView, signal: TradeSignal) -> SignalDecision {
    match state.sized(signal.limit_price as int) {
        Some(size) => SignalDecision::Execute(signal, size),
        None => if state.after_signal().halted {
            SignalDecision::Halt
        } else {
            SignalDecision::Skip
        },
    }
}

/// Puts a signal before the risk manager and decides what the loop does:
/// execute what the manager sized, stop where the manager has halted, and
/// skip a signal that was rejected for its price alone.
pub fn decide(risk: &mut RiskManager, signal: TradeSignal) -> (decision: SignalDecision)
    ensures
        final(risk)@ == old(risk)@.after_signal(),
        decision == decision_for(old(risk)@, signal),
        decision is Halt <==> final(risk)@.halted,
{
    match risk.process_signal(&signal) {
        Some(size) => SignalDecision::Execute(signal, size),
        None => if risk.is_halted() {
            SignalDecision::Halt
        } else {
            SignalDecision::Skip
        },
    }
}

/// What a result adds to the books: the profit or loss of a fill, and
/// nothing for an order that failed or timed out.
pub open spec fn realized_pnl(result: ExecutionResult, fill_pnl: i64) -> i64 {
    if result.outcome == ExecutionOutcome::Filled {
        fill_pnl
    } else {
        0
    }
}

/// Records what an executed order yielded. `fill_pnl` is the profit or loss
/// of the order if it was filled; an order that failed or timed out records
/// nothing. Returns whether the books were updated: they are left as they
/// were where the sums would no longer fit.
pub fn settle(risk: &mut RiskManager, result: &ExecutionResult, fill_pnl: i64) -> (recorded: bool)
    ensures
        recorded == old(risk).can_record(realized_pnl(*result, fill_pnl) as int),
        recorded ==> final(risk)@ == old(risk)@.recorded(realized_pnl(*result, fill_pnl) as int),
        !recorded ==> final(risk)@ == old(risk)@,
{
    let pnl: i64 = match result.outcome {
        ExecutionOutcome::Filled => fill_pnl,
        _ => 0,
    };
    if risk.fits(pnl) {
        risk.record_trade_result(pnl);
        true
    } else {
        false
    }
}

/// The estimate of what one fill captures: the share [`CAPTURE_RATE`] of
/// the amount that a trade commits out of the starting capital.
pub open spec fn estimated_capture(max_trade: u64) -> int {
    (max_trade * STARTING_CAPITAL * CAPTURE_RATE) / (SCALE * SCALE)
}

/// Estimates the profit of one fill for the configured trade share.
pub fn estimate_fill_pnl(max_trade: u64) -> (pnl: i64)
    ensures
        pnl == estimated_capture(max_trade),
{
    assert(STARTING_CAPITAL * CAPTURE_RATE == 250_000_000_000 && SCALE * SCALE == 1_000_000_000_000)
        by (nonlinear_arith)
        requires
            STARTING_CAPITAL == 50_000_000,
            CAPTURE_RATE == 5_000,
            SCALE == 1_000_000,
    ;
    let rate: u128 = (STARTING_CAPITAL as u128) * (CAPTURE_RATE as u128);
    let scale: u128 = (SCALE as u128) * (SCALE as u128);
    let committed: u128 = (max_trade as u128) * rate;
    assert(max_trade * STARTING_CAPITAL * CAPTURE_RATE == committed) by (nonlinear_arith)
        requires
            committed == max_trade * rate,
            rate == STARTING_CAPITAL * CAPTURE_RATE,
    ;
    (committed / scale) as i64
}

/// Only the halt of the risk manager ends the loop, and it ends it for
/// good: a halted manager answers every signal with the decision to stop,
/// and a manager that runs on never does.
pub proof fn lemma_halt_ends_the_loop(state: RiskView, signal: TradeSignal)
    ensures
        state.halted ==> decision_for(state, signal) is Halt && state.after_signal().halted,
        decision_for(state, signal) is Halt <==> state.after_signal().halted,
        decision_for(state, signal) is Skip ==> state.after_signal() == state,
        decision_for(state, signal) is Execute ==> state.after_signal() == state,
{
}

/// What the detector raises, the risk manager sizes: a signal that the
/// detector raised is never skipped for its price. A running manager below
/// its loss cap executes it, at the size that the sizing rule gives.
pub proof fn lemma_detected_signal_is_sized(
    state: RiskView,
    settings: DetectorSettings,
    last_signal: Option<u64>,
    market: i64,
    reference: i64,
    now: u64,
)
    requires
        detector_action(settings, last_signal, market, reference, now) is Emit,
    ensures
        ({
            let signal = detector_action(settings, last_signal, market, reference, now)->Emit_0;
            &&& !(decision_for(state, signal) is Skip)
            &&& !state.halted && !state.breached() ==> decision_for(state, signal) == SignalDecision::Execute(
                signal,
                position_size(state.total_capital, state.max_trade, market as int) as i128,
            )
        }),
{
}

} // verus!
