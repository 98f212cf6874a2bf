//! Risk control: the daily loss cap and the sizing of a position.
//!
//! The manager is either running or halted. It halts when the day's loss
//! reaches the configured share of the capital, and never runs again. While
//! it runs it sizes each signal to a fixed share of the capital.

use vstd::prelude::*;
use vstd::arithmetic::div_mod::{lemma_fundamental_div_mod, lemma_fundamental_div_mod_converse, lemma_div_pos_is_pos, lemma_mod_bound};
use crate::config::Config;
use crate::fixed::SCALE;
use crate::strategy::TradeSignal;

verus! {

/// Whether the day's loss has reached the cap: `daily_pnl <= -(loss_cap *
/// total_capital)`, with the cap a fraction in millionths, decided exactly.
pub open spec fn loss_cap_reached(daily_pnl: int, total_capital: int, loss_cap: int) -> bool {
    daily_pnl * SCALE <= -(loss_cap * total_capital)
}

/// The size of a position in units of the asset: the share `max_trade` of
/// the capital, divided by the price and rounded down to a whole unit.
pub open spec fn position_size(total_capital: int, max_trade: int, limit_price: int) -> int {
    (total_capital * max_trade) / limit_price
}

/// What a risk manager holds, as plain numbers.
pub struct RiskView {
    /// Capital at hand, in units.
    pub total_capital: int,
    /// Profit and loss since the start, in units.
    pub daily_pnl: int,
    /// Share of the capital whose loss halts trading, in millionths.
    pub loss_cap: int,
    /// Share of the capital committed to one trade, in millionths.
    pub max_trade: int,
    /// Whether the manager has halted.
    pub halted: bool,
}

impl RiskView {
    /// Whether the loss cap is reached now.
    pub open spec fn breached(self) -> bool {
        loss_cap_reached(self.daily_pnl, self.total_capital, self.loss_cap)
    }

    /// The manager after it has looked at a signal: halted for good once the
    /// loss cap was reached.
    pub open spec fn after_signal(self) -> RiskView {
        RiskView { halted: self.halted || self.breached(), ..self }
    }

    /// The answer to a signal at `limit_price`: a size while the manager
    /// runs and the price is above zero, a rejection otherwise.
    pub open spec fn sized(self, limit_price: int) -> Option<i128> {
        if self.halted || self.breached() || limit_price <= 0 {
            None
        } else {
            Some(position_size(self.total_capital, self.max_trade, limit_price) as i128)
        }
    }

    /// The manager after a trade that made `pnl`.
    pub open spec fn recorded(self, pnl: int) -> RiskView {
        RiskView { daily_pnl: self.daily_pnl + pnl, total_capital: self.total_capital + pnl, ..self }
    }
}

/// Tracks capital and the day's profit and loss, and gates every signal.
pub struct RiskManager {
    config: Config,
    daily_pnl: i64,
    total_capital: i64,
    halted: bool,
}

impl View for RiskManager {
    type V = RiskView;

    closed spec fn view(&self) -> RiskView {
        RiskView {
            total_capital: self.total_capital as int,
            daily_pnl: self.daily_pnl as int,
            loss_cap: self.config.strategy.daily_loss_cap as int,
            max_trade: self.config.strategy.max_trade_percent as int,
            halted: self.halted,
        }
    }
}

/// Floor of `numerator / divisor` for a divisor above zero.
fn floor_div(numerator: i128, divisor: i64) -> (q: i128)
    requires
        divisor > 0,
        -0x7fff_ffff_ffff_ffff_ffff_ffff_ffff_ffff <= numerator,
    ensures
        q == numerator as int / divisor as int,
{
    let d: i128 = divisor as i128;
    if numerator >= 0 {
        numerator / d
    } else {
        let m: i128 = -numerator;
        let whole: i128 = m / d;
        let rest: i128 = m % d;
        proof {
            lemma_fundamental_div_mod(m as int, d as int);
            lemma_div_pos_is_pos(m as int, d as int);
            assert(whole <= m) by (nonlinear_arith)
                requires
                    m == d * whole + rest,
                    rest >= 0,
                    d >= 1,
                    whole >= 0,
            ;
        }
        if rest == 0 {
            proof {
                assert(numerator as int == (-whole) * d + 0) by (nonlinear_arith)
                    requires
                        m == d * whole + rest,
                        rest == 0,
                        numerator == -m,
                ;
                lemma_fundamental_div_mod_converse(numerator as int, d as int, -whole as int, 0);
            }
            -whole
        } else {
            proof {
                assert(numerator as int == (-whole - 1) * d + (d - rest)) by (nonlinear_arith)
                    requires
                        m == d * whole + rest,
                        numerator == -m,
                ;
                lemma_fundamental_div_mod_converse(numerator as int, d as int, -whole - 1, d - rest);
            }
            -whole - 1
        }
    }
}

impl RiskManager {
    /// A running manager with no profit or loss yet.
    pub fn new(config: Config, initial_capital: i64) -> (r: Self)
        ensures
            r@ == (RiskView {
                total_capital: initial_capital as int,
                daily_pnl: 0,
                loss_cap: config.strategy.daily_loss_cap as int,
                max_trade: config.strategy.max_trade_percent as int,
                halted: false,
            }),
    {
        RiskManager { config, daily_pnl: 0, total_capital: initial_capital, halted: false }
    }

    /// Gates and sizes a signal.
    ///
    /// A halted manager rejects every signal. A running manager first checks
    /// the loss cap: where the day's loss has reached it, the manager halts
    /// and rejects the signal. Otherwise a signal whose limit price is not
    /// above zero is rejected, and any other signal is sized to the
    /// configured share of the capital.
    pub fn process_signal(&mut self, signal: &TradeSignal) -> (r: Option<i128>)
        ensures
            final(self)@ == old(self)@.after_signal(),
            r == old(self)@.sized(signal.limit_price as int),
            old(self)@.breached() ==> r is None && final(self)@.halted,
            !old(self)@.halted && !old(self)@.breached() && signal.limit_price > 0 ==> r == Some(
                position_size(old(self)@.total_capital, old(self)@.max_trade, signal.limit_price as int) as i128,
            ),
    {
        if self.halted {
            return None;
        }
        let loss_cap: i128 = self.config.strategy.daily_loss_cap as i128;
        let capital: i128 = self.total_capital as i128;
        let share: i128 = self.config.strategy.max_trade_percent as i128;
        proof {
            lemma_product_fits(capital as int, loss_cap as int);
            lemma_product_fits(capital as int, share as int);
            lemma_product_fits(self.daily_pnl as int, SCALE as int);
        }
        let pnl_scaled: i128 = (self.daily_pnl as i128) * (SCALE as i128);
        if pnl_scaled <= -(loss_cap * capital) {
            self.halted = true;
            return None;
        }
        if signal.limit_price <= 0 {
            return None;
        }
        let size = floor_div(capital * share, signal.limit_price);
        Some(size)
    }

    /// The capital at hand, in units.
    pub fn total_capital(&self) -> (r: i64)
        ensures
            r == self@.total_capital,
    {
        self.total_capital
    }

    /// Profit and loss since the start, in units.
    pub fn daily_pnl(&self) -> (r: i64)
        ensures
            r == self@.daily_pnl,
    {
        self.daily_pnl
    }

    /// Whether the manager has halted.
    pub fn is_halted(&self) -> (r: bool)
        ensures
            r == self@.halted,
    {
        self.halted
    }

    /// Whether a trade result of `pnl` can be recorded: whether both sums
    /// stay within what the manager can hold.
    pub open spec fn can_record(self, pnl: int) -> bool {
        &&& i64::MIN <= self@.daily_pnl + pnl <= i64::MAX
        &&& i64::MIN <= self@.total_capital + pnl <= i64::MAX
    }

    /// Decides whether a trade result can be recorded.
    pub fn fits(&self, pnl: i64) -> (r: bool)
        ensures
            r == self.can_record(pnl as int),
    {
        self.daily_pnl.checked_add(pnl).is_some() && self.total_capital.checked_add(pnl).is_some()
    }

    /// Records the profit or loss of a completed trade: it is added to the
    /// day's total and to the capital.
    pub fn record_trade_result(&mut self, pnl: i64)
        requires
            old(self).can_record(pnl as int),
        ensures
            final(self)@ == old(self)@.recorded(pnl as int),
    {
        self.daily_pnl = self.daily_pnl + pnl;
        self.total_capital = self.total_capital + pnl;
    }
}

/// A capital amount times a fraction stays within 127 bits.
proof fn lemma_product_fits(amount: int, fraction: int)
    requires
        -0x8000_0000_0000_0000 <= amount <= 0x7fff_ffff_ffff_ffff,
        0 <= fraction <= 0xffff_ffff_ffff_ffff,
    ensures
        -0x7fff_ffff_ffff_ffff_ffff_ffff_ffff_ffff <= amount * fraction <= 0x7fff_ffff_ffff_ffff_ffff_ffff_ffff_ffff,
        -0x7fff_ffff_ffff_ffff_ffff_ffff_ffff_ffff <= fraction * amount <= 0x7fff_ffff_ffff_ffff_ffff_ffff_ffff_ffff,
{
    assert(amount * fraction <= 0x7fff_ffff_ffff_ffff * 0xffff_ffff_ffff_ffff) by (nonlinear_arith)
        requires
            amount <= 0x7fff_ffff_ffff_ffff,
            0 <= fraction <= 0xffff_ffff_ffff_ffff,
    ;
    assert(amount * fraction >= -0x8000_0000_0000_0000 * 0xffff_ffff_ffff_ffff) by (nonlinear_arith)
        requires
            -0x8000_0000_0000_0000 <= amount,
            0 <= fraction <= 0xffff_ffff_ffff_ffff,
    ;
}

/// The order of two trade results does not matter: recording `a` and then
/// `b` leaves the same capital and the same day's total as recording `b`
/// and then `a`.
pub proof fn lemma_record_order_independent(state: RiskView, a: int, b: int)
    ensures
        state.recorded(a).recorded(b).total_capital == state.recorded(b).recorded(a).total_capital,
        state.recorded(a).recorded(b) == state.recorded(b).recorded(a),
{
}

/// Recording a trade result moves the capital and the day's total alike:
/// their difference, the capital at the start, never changes. Nor does a
/// trade result halt or restart the manager.
pub proof fn lemma_record_keeps_initial_capital(state: RiskView, pnl: int)
    ensures
        state.recorded(pnl).total_capital - state.recorded(pnl).daily_pnl == state.total_capital
            - state.daily_pnl,
        state.recorded(pnl).halted == state.halted,
{
}

/// The halt is final: a halted manager rejects every signal and stays
/// halted, whatever was recorded in between.
pub proof fn lemma_halt_is_final(state: RiskView, pnl: int, limit_price: int)
    requires
        state.halted,
    ensures
        state.sized(limit_price) is None,
        state.after_signal().halted,
        state.recorded(pnl).halted,
        state.recorded(pnl).sized(limit_price) is None,
{
}

/// The size commits at most the configured share of the capital, and less
/// than one unit of the asset short of it: `size * limit_price` lies within
/// one `limit_price` below `total_capital * max_trade`.
pub proof fn lemma_size_within_share(total_capital: int, max_trade: int, limit_price: int)
    requires
        limit_price > 0,
    ensures
        position_size(total_capital, max_trade, limit_price) * limit_price <= total_capital * max_trade,
        total_capital * max_trade < (position_size(total_capital, max_trade, limit_price) + 1) * limit_price,
{
    let n = total_capital * max_trade;
    lemma_fundamental_div_mod(n, limit_price);
    lemma_mod_bound(n, limit_price);
    assert((n / limit_price) * limit_price == limit_price * (n / limit_price)) by (nonlinear_arith);
    assert((n / limit_price + 1) * limit_price == (n / limit_price) * limit_price + limit_price)
        by (nonlinear_arith);
}

} // verus!
