use polymarket_bot::executor::{
    client_settings, conclude, order_payload, ClientSettings, ExecutionEngine, ExecutionOutcome,
    ExecutionResult, SubmissionReport, ORDER_TIMEOUT_MS, POOL_MAX_IDLE_PER_HOST,
};
use polymarket_bot::strategy::{TradeDirection, TradeSignal};

fn order_signal(direction: TradeDirection, limit_price: i64) -> TradeSignal {
    TradeSignal { direction, limit_price, oracle_reference: 106_000_000, created_at: 0 }
}

#[test]
fn client_is_pooled_and_bounded_in_time() {
    assert_eq!(POOL_MAX_IDLE_PER_HOST, 100);
    assert_eq!(ORDER_TIMEOUT_MS, 500);
    assert_eq!(
        client_settings(),
        ClientSettings { max_idle_per_host: 100, nodelay: true, timeout_ms: 500 }
    );
}

#[test]
fn engine_holds_the_settings_of_its_client() {
    let engine = ExecutionEngine::new(String::from("https://venue.example/orders")).unwrap();
    assert_eq!(
        engine.configured(),
        ClientSettings { max_idle_per_host: 100, nodelay: true, timeout_ms: 500 }
    );
}

#[test]
fn payload_of_a_buy() {
    assert_eq!(
        order_payload(&order_signal(TradeDirection::Buy, 100_000_000), 10_000),
        "{\"action\":\"CREATE_ORDER\",\"order\":{\"price\":100.000000,\"side\":true,\"size\":0.010000}}"
    );
}

#[test]
fn payload_of_a_sell() {
    assert_eq!(
        order_payload(&order_signal(TradeDirection::Sell, 530_000), 1_886_792),
        "{\"action\":\"CREATE_ORDER\",\"order\":{\"price\":0.530000,\"side\":false,\"size\":1.886792}}"
    );
}

#[test]
fn payload_with_amounts_below_zero() {
    assert_eq!(
        order_payload(&order_signal(TradeDirection::Sell, -1), -1_750_000),
        "{\"action\":\"CREATE_ORDER\",\"order\":{\"price\":-0.000001,\"side\":false,\"size\":-1.750000}}"
    );
}

#[test]
fn payload_is_valid_json() {
    let text = order_payload(&order_signal(TradeDirection::Buy, 60_000_250_000), 7_250_000);
    let value: serde_json::Value = serde_json::from_str(&text).unwrap();
    assert_eq!(value.get("action").and_then(|v| v.as_str()), Some("CREATE_ORDER"));
    let order = value.get("order").unwrap();
    assert_eq!(order.get("side").and_then(|v| v.as_bool()), Some(true));
    assert_eq!(order.get("price").and_then(|v| v.as_f64()), Some(60000.25));
    assert_eq!(order.get("size").and_then(|v| v.as_f64()), Some(7.25));
}

#[test]
fn payload_with_the_widest_amounts() {
    let text = order_payload(&order_signal(TradeDirection::Buy, i64::MAX), i128::MIN);
    assert_eq!(
        text,
        "{\"action\":\"CREATE_ORDER\",\"order\":{\"price\":9223372036854.775807,\"side\":true,\"size\":-170141183460469231731687303715884.105728}}"
    );
}

#[test]
fn an_accepted_order_in_time_is_filled() {
    assert_eq!(
        conclude(SubmissionReport::Accepted, 45),
        ExecutionResult { outcome: ExecutionOutcome::Filled, elapsed_latency_ms: 45 }
    );
    assert_eq!(conclude(SubmissionReport::Accepted, 0).outcome, ExecutionOutcome::Filled);
    assert_eq!(conclude(SubmissionReport::Accepted, 499).outcome, ExecutionOutcome::Filled);
}

#[test]
fn an_accepted_order_that_took_the_whole_time_is_timed_out() {
    assert_eq!(
        conclude(SubmissionReport::Accepted, 500),
        ExecutionResult { outcome: ExecutionOutcome::TimedOut, elapsed_latency_ms: 500 }
    );
    assert_eq!(conclude(SubmissionReport::Accepted, u64::MAX).outcome, ExecutionOutcome::TimedOut);
}

#[test]
fn failures_are_typed() {
    for elapsed in [0, 45, 499, 500, 10_000] {
        assert_eq!(
            conclude(SubmissionReport::Refused, elapsed),
            ExecutionResult { outcome: ExecutionOutcome::Failed, elapsed_latency_ms: elapsed }
        );
        assert_eq!(
            conclude(SubmissionReport::TransportError, elapsed),
            ExecutionResult { outcome: ExecutionOutcome::Failed, elapsed_latency_ms: elapsed }
        );
        assert_eq!(
            conclude(SubmissionReport::TimedOut, elapsed),
            ExecutionResult { outcome: ExecutionOutcome::TimedOut, elapsed_latency_ms: elapsed }
        );
    }
}

#[test]
fn engine_keeps_its_url_and_builds_a_client() {
    let engine = ExecutionEngine::new(String::from("https://venue.example/orders")).unwrap();
    assert_eq!(engine.rest_url(), "https://venue.example/orders");
    let request = engine.http_client().post(engine.rest_url()).build().unwrap();
    assert_eq!(request.url().as_str(), "https://venue.example/orders");
    assert_eq!(request.timeout(), None);
}

#[test]
fn engine_around_a_given_client() {
    let settings = ClientSettings { max_idle_per_host: 4, nodelay: false, timeout_ms: 2_000 };
    let client = reqwest::Client::builder()
        .pool_max_idle_per_host(4)
        .tcp_nodelay(false)
        .timeout(std::time::Duration::from_millis(2_000))
        .build()
        .ok();
    let engine =
        ExecutionEngine::with_client(client, settings, String::from("http://127.0.0.1:1/orders")).unwrap();
    assert_eq!(engine.rest_url(), "http://127.0.0.1:1/orders");
    assert_eq!(engine.configured(), settings);
    assert!(ExecutionEngine::with_client(None, settings, String::from("http://127.0.0.1:1/orders")).is_none());
}
