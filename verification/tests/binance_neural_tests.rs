use opentrade::binance::{
    parse_order_status, parse_order_type, parse_side, sign_query, tracked_from_response, BinanceFill,
    BinanceOrderResponse,
};
use opentrade::decimal::Dec;
use opentrade::execution::OrderStatus;
use opentrade::neural::{
    classified_branch_count, completion_response, route_decision, wants_json_response, MemoryCategory, ModelAliases, OllamaServerConfig,
    PipelineStage, ResponseFormat, TaskType, TradeDirection,
};
use opentrade::neural::ServerHealth;
use opentrade::pool_routing::{candidates, initial_health, pick_server, record_health_check, ModelIndex};
use opentrade::types::{MarketType, OrderReason, OrderRequest, OrderType, Side};

fn d(m: i64, s: u32) -> Dec {
    Dec::new(m, s)
}

#[test]
fn hmac_signature_deterministic() {
    let sig1 = sign_query("symbol=BTCUSDT&timestamp=1234567890", "mysecret");
    let sig2 = sign_query("symbol=BTCUSDT&timestamp=1234567890", "mysecret");
    assert_eq!(sig1, sig2);
    assert!(!sig1.is_empty());
}

#[test]
fn different_secrets_produce_different_signatures() {
    let sig1 = sign_query("test", "secret1");
    let sig2 = sign_query("test", "secret2");
    assert_ne!(sig1, sig2);
}

#[test]
fn signature_matches_rfc4231_vector() {
    // RFC 4231 test case 2: key "Jefe", data "what do ya want for nothing?"
    let sig = sign_query("what do ya want for nothing?", "Jefe");
    assert_eq!(sig, "5bdcc146bf60754e6a042426089575c75a003f089d2739839dec58b964ec3843");
    assert_eq!(sig.len(), 64);
}

#[test]
fn status_type_and_side_names() {
    assert_eq!(parse_order_status("FILLED"), OrderStatus::Filled);
    assert_eq!(parse_order_status("CANCELED"), OrderStatus::Cancelled);
    assert_eq!(parse_order_status("CANCELLED"), OrderStatus::Cancelled);
    assert_eq!(parse_order_status("NEW"), OrderStatus::Submitted);
    assert_eq!(parse_order_status("weird"), OrderStatus::Submitted);
    assert_eq!(parse_order_type("TAKE_PROFIT_LIMIT"), OrderType::TakeProfitLimit);
    assert_eq!(parse_order_type("other"), OrderType::Market);
    assert_eq!(parse_side("BUY"), Side::Buy);
    assert_eq!(parse_side("buy"), Side::Sell);
}

fn request() -> OrderRequest {
    OrderRequest {
        client_order_id: "c1".to_string(),
        symbol: "BTCUSDT".to_string(),
        market_type: MarketType::Spot,
        side: Side::Buy,
        order_type: OrderType::Market,
        quantity: d(3, 0),
        price: None,
        stop_price: None,
        time_in_force: None,
        reduce_only: false,
        strategy_name: "s".to_string(),
        reason: OrderReason {
            strategy: "s".to_string(),
            signal_type: "Long".to_string(),
            confidence: d(7, 1),
            description: String::new(),
        },
        created_at_ms: 0,
    }
}

fn fill(price: &str, qty: &str, commission: &str) -> BinanceFill {
    BinanceFill {
        price: price.to_string(),
        qty: qty.to_string(),
        commission: commission.to_string(),
        commission_asset: "BNB".to_string(),
    }
}

fn response(fills: Vec<BinanceFill>, executed: &str, quote: &str) -> BinanceOrderResponse {
    BinanceOrderResponse {
        symbol: "BTCUSDT".to_string(),
        order_id: 42,
        client_order_id: "c1".to_string(),
        transact_time: Some(1),
        price: "0".to_string(),
        orig_qty: "3".to_string(),
        executed_qty: executed.to_string(),
        cummulative_quote_qty: quote.to_string(),
        status: "FILLED".to_string(),
        order_type_name: "MARKET".to_string(),
        side: "BUY".to_string(),
        fills,
    }
}

#[test]
fn response_with_fills_averages_price() {
    let resp = response(vec![fill("100", "1", "0.1"), fill("103", "2", "0.2")], "3", "306");
    let t = tracked_from_response(&request(), &resp, "42".to_string(), 5).unwrap();
    assert_eq!(t.filled_quantity, d(3, 0));
    assert_eq!(t.average_fill_price, Some(d(102, 0)));
    assert_eq!(t.commission, d(3, 1));
    assert_eq!(t.status, OrderStatus::Filled);
    assert_eq!(t.commission_asset.as_deref(), Some("BNB"));
    assert_eq!(t.fill_events.len(), 2);
}

#[test]
fn response_without_fills_uses_executed_quantity() {
    let resp = response(Vec::new(), "2", "200.5");
    let t = tracked_from_response(&request(), &resp, "42".to_string(), 5).unwrap();
    assert_eq!(t.filled_quantity, d(2, 0));
    assert_eq!(t.average_fill_price, Some(d(10025, 2)));
    let none = response(Vec::new(), "bad", "1");
    let t = tracked_from_response(&request(), &none, "42".to_string(), 5).unwrap();
    assert_eq!(t.average_fill_price, None);
}

#[test]
fn neural_names() {
    assert_eq!(PipelineStage::Synthesize.name(), "synthesize");
    assert_eq!(TaskType::from_name("trade_review"), TaskType::TradeReview);
    assert_eq!(TaskType::from_name("nonsense"), TaskType::MarketCommentary);
    assert_eq!(TaskType::RiskAssessment.name(), "risk_assessment");
    assert!(TaskType::SignalEvaluation.wants_json());
    assert!(!TaskType::TradeReview.wants_json());
    assert_eq!(MemoryCategory::from_name(MemoryCategory::LessonLearned.as_str()), MemoryCategory::LessonLearned);
    assert_eq!(MemoryCategory::from_name("unknown"), MemoryCategory::MarketInsight);
    assert_eq!(TradeDirection::Short.name(), "short");
    let local = OllamaServerConfig::default_local();
    assert_eq!(local.base_url, "http://localhost:11434");
    assert_eq!(local.weight, 1);
}

#[test]
fn alias_resolution_falls_back_to_requested() {
    let mut aliases = ModelAliases::new();
    assert_eq!(aliases.resolve_model("hosted-large"), "hosted-large");
    aliases.add_alias("hosted-large", "qwen-trading:latest");
    aliases.add_alias("mine", "mistral");
    assert_eq!(aliases.resolve_model("hosted-large"), "qwen-trading:latest");
    aliases.add_alias("hosted-large", "llama3");
    assert_eq!(aliases.resolve_model("hosted-large"), "llama3");
    assert_eq!(aliases.resolve_model("mine"), "mistral");
    assert_eq!(aliases.resolve_model("unknown-model"), "unknown-model");
}

#[test]
fn completion_response_shape() {
    let r = completion_response("ot-1".to_string(), 7, "qwen".to_string(), "hi".to_string(), 3, 4);
    assert_eq!(r.object, "chat.completion");
    assert_eq!(r.choices.len(), 1);
    assert_eq!(r.choices[0].message.role, "assistant");
    assert_eq!(r.choices[0].message.content, "hi");
    assert_eq!(r.choices[0].finish_reason, "stop");
    assert_eq!(r.usage.total_tokens, 7);
    assert!(wants_json_response(&Some(ResponseFormat { format_type: "json_object".to_string() })));
    assert!(!wants_json_response(&Some(ResponseFormat { format_type: "text".to_string() })));
    assert!(!wants_json_response(&None));
}

#[test]
fn route_spreads_branches_over_servers() {
    let servers = vec!["a".to_string(), "b".to_string()];
    let r = route_decision(TaskType::RiskAssessment, 3, &"qwen".to_string(), &servers, 5);
    assert_eq!(r.branch_models, vec!["qwen".to_string(); 3]);
    assert_eq!(r.branch_servers, vec![Some("b".to_string()), Some("a".to_string()), Some("b".to_string())]);
    assert!(r.branch_prompts[0].starts_with("You are a risk analyst."));
    assert!(r.branch_prompts[0].ends_with(" Focus on the BULLISH case and upside scenarios."));
    assert!(r.branch_prompts[2].ends_with("weighing both sides."));
    let single = route_decision(TaskType::TradeReview, 1, &"m".to_string(), &Vec::new(), 0);
    assert_eq!(single.branch_servers, vec![None]);
    assert_eq!(single.branch_prompts[0], TaskType::TradeReview.system_prompt());
    assert_eq!(classified_branch_count(true, Some(7)), 3);
    assert_eq!(classified_branch_count(true, None), 1);
    assert_eq!(classified_branch_count(false, Some(2)), 1);
}

fn server(name: &str, healthy: bool, latency: Option<u64>) -> ServerHealth {
    ServerHealth {
        name: name.to_string(),
        base_url: format!("http://{}", name),
        is_healthy: healthy,
        last_check_ms: 0,
        latency_ms: latency,
        available_models: Vec::new(),
        consecutive_failures: 0,
    }
}

#[test]
fn model_index_collects_servers() {
    let mut ix = ModelIndex::new();
    assert!(ix.servers_for("qwen").is_none());
    ix.add("qwen", 0);
    ix.add("llama", 1);
    ix.add("qwen", 2);
    assert_eq!(ix.servers_for("qwen"), Some(&vec![0, 2]));
    assert_eq!(ix.servers_for("llama"), Some(&vec![1]));
}

#[test]
fn health_checks_update_records() {
    let cfg = OllamaServerConfig::default_local();
    let mut h = initial_health(&cfg);
    assert!(h.is_healthy);
    assert_eq!(h.last_check_ms, 0);
    record_health_check(&mut h, false, 5, None, 10);
    record_health_check(&mut h, false, 5, None, 20);
    assert!(!h.is_healthy);
    assert_eq!(h.consecutive_failures, 2);
    assert_eq!(h.last_check_ms, 20);
    record_health_check(&mut h, true, 42, Some(vec!["qwen".to_string()]), 30);
    assert!(h.is_healthy);
    assert_eq!(h.consecutive_failures, 0);
    assert_eq!(h.latency_ms, Some(42));
    assert_eq!(h.available_models, vec!["qwen".to_string()]);
}

#[test]
fn pool_picks_cheapest_healthy_server() {
    let health = vec![
        server("a", true, Some(50)),
        server("b", false, Some(1)),
        server("c", true, Some(30)),
        server("d", true, None),
    ];
    let weights = vec![1, 1, 1, 5];
    // a: 50 * 100, c: 30 * 100, d: 1000 * 20
    assert_eq!(candidates(&health, None), vec![0, 2, 3]);
    assert_eq!(pick_server(&health, &weights, None), Some(2));
    let recorded = vec![1, 0, 7];
    assert_eq!(candidates(&health, Some(&recorded)), vec![0]);
    assert_eq!(pick_server(&health, &weights, Some(&recorded)), Some(0));
    let tie = vec![server("x", true, Some(10)), server("y", true, Some(10))];
    assert_eq!(pick_server(&tie, &vec![1, 1], None), Some(0));
    assert_eq!(pick_server(&tie, &vec![1, 1], Some(&vec![])), None);
}

#[test]
fn signature_is_64_lower_hex_digits() {
    let sig = sign_query("symbol=BTCUSDT&timestamp=1234567890", "mysecret");
    assert_eq!(sig.len(), 64);
    assert!(sig.chars().all(|c| c.is_ascii_digit() || ('a'..='f').contains(&c)));
}
