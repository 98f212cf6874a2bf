use polymarket_bot::config::{Config, OracleConfig, PolymarketConfig, StrategyConfig};
use polymarket_bot::executor::{ExecutionOutcome, ExecutionResult};
use polymarket_bot::pipeline::{
    decide, estimate_fill_pnl, settle, SignalDecision, CAPTURE_RATE, FEED_WARMUP_MS,
    SIGNAL_CHANNEL_CAPACITY, STARTING_CAPITAL,
};
use polymarket_bot::risk_manager::RiskManager;
use polymarket_bot::strategy::{TradeDirection, TradeSignal};

fn pipeline_config() -> Config {
    Config {
        polymarket: PolymarketConfig {
            rest_url: String::new(),
            ws_url: String::new(),
            api_key: String::new(),
            api_secret: String::new(),
            api_passphrase: String::new(),
            btc_contract_id: String::new(),
        },
        oracles: OracleConfig {
            tradingview_ws_url: String::new(),
            cryptoquant_api_url: String::new(),
            tradingview_session: String::new(),
            cryptoquant_api_key: String::new(),
            cryptoquant_api_secret: String::new(),
        },
        strategy: StrategyConfig { lag_threshold: 50_000, max_trade_percent: 20_000, daily_loss_cap: 500_000 },
    }
}

fn pipeline_signal(limit_price: i64) -> TradeSignal {
    TradeSignal { direction: TradeDirection::Buy, limit_price, oracle_reference: 106_000_000, created_at: 9 }
}

fn result_of(outcome: ExecutionOutcome) -> ExecutionResult {
    ExecutionResult { outcome, elapsed_latency_ms: 45 }
}

#[test]
fn pipeline_constants() {
    assert_eq!(SIGNAL_CHANNEL_CAPACITY, 100);
    assert_eq!(FEED_WARMUP_MS, 2000);
    assert_eq!(STARTING_CAPITAL, 50_000_000);
    assert_eq!(CAPTURE_RATE, 5_000);
}

#[test]
fn a_sized_signal_is_executed() {
    let mut risk = RiskManager::new(pipeline_config(), STARTING_CAPITAL);
    let signal = pipeline_signal(100_000_000);
    assert_eq!(decide(&mut risk, signal), SignalDecision::Execute(signal, 10_000));
    assert!(!risk.is_halted());
}

#[test]
fn a_signal_with_a_bad_price_is_skipped() {
    let mut risk = RiskManager::new(pipeline_config(), STARTING_CAPITAL);
    assert_eq!(decide(&mut risk, pipeline_signal(0)), SignalDecision::Skip);
    assert_eq!(decide(&mut risk, pipeline_signal(-1)), SignalDecision::Skip);
    assert!(!risk.is_halted());
    assert!(matches!(decide(&mut risk, pipeline_signal(1)), SignalDecision::Execute(_, _)));
}

#[test]
fn a_breach_halts_the_loop() {
    let mut risk = RiskManager::new(pipeline_config(), 1_500_000_000);
    risk.record_trade_result(-500_000_000);
    assert_eq!(decide(&mut risk, pipeline_signal(100_000_000)), SignalDecision::Halt);
    assert!(risk.is_halted());
    assert_eq!(decide(&mut risk, pipeline_signal(100_000_000)), SignalDecision::Halt);
    assert_eq!(decide(&mut risk, pipeline_signal(0)), SignalDecision::Halt);
}

#[test]
fn only_a_fill_is_recorded() {
    let mut risk = RiskManager::new(pipeline_config(), STARTING_CAPITAL);
    assert!(settle(&mut risk, &result_of(ExecutionOutcome::Filled), 5_000));
    assert_eq!(risk.total_capital(), 50_005_000);
    assert_eq!(risk.daily_pnl(), 5_000);
    assert!(settle(&mut risk, &result_of(ExecutionOutcome::Failed), 5_000));
    assert_eq!(risk.total_capital(), 50_005_000);
    assert!(settle(&mut risk, &result_of(ExecutionOutcome::TimedOut), 5_000));
    assert_eq!(risk.total_capital(), 50_005_000);
    assert_eq!(risk.daily_pnl(), 5_000);
    assert!(settle(&mut risk, &result_of(ExecutionOutcome::Filled), -7_000));
    assert_eq!(risk.total_capital(), 49_998_000);
    assert_eq!(risk.daily_pnl(), -2_000);
}

#[test]
fn settle_leaves_the_books_where_the_sum_does_not_fit() {
    let mut risk = RiskManager::new(pipeline_config(), i64::MAX - 1);
    assert!(!settle(&mut risk, &result_of(ExecutionOutcome::Filled), 2));
    assert_eq!(risk.total_capital(), i64::MAX - 1);
    assert_eq!(risk.daily_pnl(), 0);
    assert!(settle(&mut risk, &result_of(ExecutionOutcome::Failed), 2));
    assert!(settle(&mut risk, &result_of(ExecutionOutcome::Filled), 1));
    assert_eq!(risk.total_capital(), i64::MAX);
}

#[test]
fn estimate_is_half_a_percent_of_the_committed_amount() {
    assert_eq!(estimate_fill_pnl(20_000), 5_000);
    assert_eq!(estimate_fill_pnl(0), 0);
    assert_eq!(estimate_fill_pnl(3), 0);
    assert_eq!(estimate_fill_pnl(4), 1);
    assert_eq!(estimate_fill_pnl(1_000_000), 250_000);
    assert_eq!(estimate_fill_pnl(u64::MAX), (u64::MAX / 4) as i64);
}

#[test]
fn losses_drive_the_loop_to_a_halt() {
    let mut risk = RiskManager::new(pipeline_config(), STARTING_CAPITAL);
    let mut executed = 0;
    loop {
        match decide(&mut risk, pipeline_signal(100_000_000)) {
            SignalDecision::Execute(_, size) => {
                assert!(size > 0);
                executed += 1;
                assert!(settle(&mut risk, &result_of(ExecutionOutcome::Filled), -4_000_000));
            }
            SignalDecision::Skip => panic!("a good price is never skipped"),
            SignalDecision::Halt => break,
        }
    }
    // After n losses of 4: loss 4n reaches half of (50 - 4n) at n = 5.
    assert_eq!(executed, 5);
    assert!(risk.is_halted());
    assert_eq!(risk.total_capital(), 30_000_000);
}
