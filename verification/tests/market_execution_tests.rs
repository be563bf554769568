use opentrade::decimal::Dec;
use opentrade::execution::{create_tracked_order, BracketPair, OrderManager, OrderStatus};
use opentrade::market_data::{is_stale, is_stale_at, CandleBuffer, StalenessTracker};
use opentrade::paper::PaperExchange;
use opentrade::types::{Candle, MarketType, OrderReason, OrderRequest, OrderType, Side, Timeframe};

fn d(m: i64, s: u32) -> Dec {
    Dec::new(m, s)
}

fn now_ms() -> i64 {
    std::time::SystemTime::now()
        .duration_since(std::time::UNIX_EPOCH)
        .unwrap()
        .as_millis() as i64
}

fn make_candle(close: Dec, offset_mins: i64) -> Candle {
    let t = 1_700_000_000_000i64 + offset_mins * 60_000;
    Candle {
        symbol: "BTCUSDT".to_string(),
        market_type: MarketType::Spot,
        timeframe: Timeframe::M1,
        open_time_ms: t,
        close_time_ms: t + 60_000,
        open: close,
        high: close.add(d(10, 0)).unwrap(),
        low: close.sub(d(10, 0)).unwrap(),
        close,
        volume: d(100, 0),
        quote_volume: d(5000000, 0),
        trades: 500,
    }
}

fn request(id: &str, symbol: &str) -> OrderRequest {
    OrderRequest {
        client_order_id: id.to_string(),
        symbol: symbol.to_string(),
        market_type: MarketType::Spot,
        side: Side::Buy,
        order_type: OrderType::Market,
        quantity: d(1, 1),
        price: Some(d(50000, 0)),
        stop_price: None,
        time_in_force: None,
        reduce_only: false,
        strategy_name: "test".to_string(),
        reason: OrderReason {
            strategy: "test".to_string(),
            signal_type: "long".to_string(),
            confidence: d(7, 1),
            description: "test".to_string(),
        },
        created_at_ms: 0,
    }
}

#[test]
fn buffer_capacity_enforced() {
    let mut buf = CandleBuffer::new(3);
    for i in 0..5 {
        buf.push(make_candle(d(50000 + i, 0), i));
    }
    assert_eq!(buf.len(), 3);
}

#[test]
fn last_n_returns_most_recent() {
    let mut buf = CandleBuffer::new(10);
    for i in 0..5 {
        buf.push(make_candle(d(50000 + i, 0), i));
    }
    let last2 = buf.last_n(2);
    assert_eq!(last2.len(), 2);
    assert_eq!(last2[1].close, d(50004, 0));
}

#[test]
fn closes_extraction() {
    let mut buf = CandleBuffer::new(10);
    for i in 0..3 {
        buf.push(make_candle(d(100 + i, 0), i));
    }
    assert_eq!(buf.closes(3), vec![d(100, 0), d(101, 0), d(102, 0)]);
}

#[test]
fn buffer_drops_oldest_and_reports_latest() {
    let mut buf = CandleBuffer::new(2);
    assert!(buf.is_empty());
    assert!(buf.latest().is_none());
    for i in 0..4 {
        buf.push(make_candle(d(10 + i, 0), i));
    }
    assert_eq!(buf.closes(10), vec![d(12, 0), d(13, 0)]);
    assert_eq!(buf.latest().unwrap().close, d(13, 0));
    assert_eq!(buf.volumes(1), vec![d(100, 0)]);
    assert_eq!(buf.to_vec().len(), 2);
    let mut zero = CandleBuffer::new(0);
    zero.push(make_candle(d(1, 0), 0));
    zero.push(make_candle(d(2, 0), 1));
    assert_eq!(zero.len(), 1);
}

#[test]
fn staleness_check() {
    let old = now_ms() - 120_000;
    assert!(is_stale(old, 60));
    assert!(!is_stale(old, 300));
}

#[test]
fn stale_at_truncates_seconds() {
    assert!(!is_stale_at(0, 60, 60_999));
    assert!(is_stale_at(0, 60, 61_000));
    assert!(!is_stale_at(10_000, 0, 5_000));
}

#[test]
fn unseen_symbol_is_stale() {
    let tracker = StalenessTracker::new(30);
    assert!(tracker.is_stale(&"BTCUSDT".to_string()));
}

#[test]
fn recent_update_is_fresh() {
    let mut tracker = StalenessTracker::new(30);
    tracker.update(&"BTCUSDT".to_string(), now_ms());
    assert!(!tracker.is_stale(&"BTCUSDT".to_string()));
}

#[test]
fn old_update_is_stale() {
    let mut tracker = StalenessTracker::new(30);
    tracker.update(&"BTCUSDT".to_string(), now_ms() - 60_000);
    assert!(tracker.is_stale(&"BTCUSDT".to_string()));
}

#[test]
fn tracker_lists_stale_symbols() {
    let mut t = StalenessTracker::new(30);
    t.update(&"A".to_string(), 0);
    t.update(&"B".to_string(), 100_000);
    t.update(&"A".to_string(), 95_000);
    assert_eq!(t.stale_symbols_at(130_000), vec!["A".to_string()]);
    assert_eq!(t.stale_symbols_at(200_000), vec!["A".to_string(), "B".to_string()]);
    assert!(t.all_fresh_at(120_000));
    assert!(!t.all_fresh_at(126_000));
}

#[test]
fn track_and_complete_order() {
    let mut mgr = OrderManager::new(100);
    let mut order = create_tracked_order(request("o1", "BTCUSDT"), 0);
    mgr.track_order(order.clone());
    assert_eq!(mgr.active_count(), 1);
    order.status = OrderStatus::Filled;
    mgr.update_order(order);
    assert_eq!(mgr.active_count(), 0);
    assert_eq!(mgr.completed_count(), 1);
}

#[test]
fn active_orders_by_symbol() {
    let mut mgr = OrderManager::new(100);
    mgr.track_order(create_tracked_order(request("o1", "BTCUSDT"), 0));
    assert_eq!(mgr.active_orders_for_symbol(&"BTCUSDT".to_string()).len(), 1);
    assert_eq!(mgr.active_orders_for_symbol(&"ETHUSDT".to_string()).len(), 0);
}

#[test]
fn bracket_registration() {
    let mut mgr = OrderManager::new(100);
    mgr.register_bracket(BracketPair {
        entry_order_id: "entry".to_string(),
        stop_loss_order_id: Some("sl".to_string()),
        take_profit_order_id: Some("tp".to_string()),
        symbol: "BTCUSDT".to_string(),
    });
    assert!(mgr.get_bracket(&"entry".to_string()).is_some());
    assert!(mgr.find_bracket_containing(&"sl".to_string()).is_some());
    assert!(mgr.find_bracket_containing(&"tp".to_string()).is_some());
}

#[test]
fn order_manager_bracket_lifecycle() {
    let mut mgr = OrderManager::new(100);
    mgr.register_bracket(BracketPair {
        entry_order_id: "entry".to_string(),
        stop_loss_order_id: Some("sl".to_string()),
        take_profit_order_id: Some("tp".to_string()),
        symbol: "BTCUSDT".to_string(),
    });
    assert!(mgr.find_bracket_containing(&"entry".to_string()).is_none());
    let removed = mgr.remove_bracket(&"entry".to_string());
    assert!(removed.is_some());
    assert!(mgr.get_bracket(&"entry".to_string()).is_none());
    assert!(mgr.all_brackets().is_empty());
}

#[test]
fn history_is_bounded_and_replacement_keeps_one_entry() {
    let mut mgr = OrderManager::new(2);
    for i in 0..5 {
        let mut o = create_tracked_order(request(&format!("o{}", i), "BTCUSDT"), i);
        mgr.track_order(o.clone());
        mgr.track_order(o.clone());
        assert_eq!(mgr.active_count(), 1);
        o.status = OrderStatus::Cancelled;
        mgr.update_order(o);
    }
    assert_eq!(mgr.completed_count(), 2);
    let recent = mgr.recent_completed(5);
    assert_eq!(recent.len(), 2);
    assert_eq!(recent[1].client_order_id, "o4");
    assert!(!mgr.has_active_order(&"BTCUSDT".to_string(), &"test".to_string()));
    assert!(OrderStatus::Expired.is_terminal());
    assert!(OrderStatus::PartiallyFilled.is_active());
}

#[test]
fn paper_order_fills_immediately() {
    let mut exchange = PaperExchange::new(d(100000, 0), d(5, 0), d(10, 0));
    exchange.set_price("BTCUSDT", d(50000, 0));
    let order = exchange.submit_order(&request("p1", "BTCUSDT"), 0).unwrap();
    assert_eq!(order.status, OrderStatus::Filled);
    assert_eq!(order.filled_quantity, d(1, 1));
    assert!(order.average_fill_price.unwrap().gt(&d(50000, 0)));
}

#[test]
fn paper_balance() {
    let exchange = PaperExchange::new(d(100000, 0), d(5, 0), d(10, 0));
    assert_eq!(exchange.get_balance("USDT"), d(100000, 0));
    assert_eq!(exchange.get_balance("BTC"), d(0, 0));
}

#[test]
fn paper_fill_amounts_and_cancel() {
    let mut exchange = PaperExchange::new(d(100000, 0), d(5, 0), d(10, 0));
    exchange.set_price("ETHUSDT", d(2000, 0));
    let mut req = request("p2", "ETHUSDT");
    req.price = None;
    req.side = Side::Sell;
    req.quantity = d(1, 0);
    let order = exchange.submit_order(&req, 7).unwrap();
    // 2000 - 5 bps = 1999; fee 10 bps of 1999 = 1.999
    assert_eq!(order.average_fill_price, Some(d(1999, 0)));
    assert_eq!(order.commission, d(1999, 3));
    exchange.cancel_order(&"p2".to_string(), 9);
    let status = exchange.get_order_status(&"p2".to_string()).unwrap();
    assert_eq!(status.status, OrderStatus::Cancelled);
    assert_eq!(status.last_update_ms, 9);
    assert!(exchange.get_order_status(&"none".to_string()).is_err());
    assert_eq!(exchange.get_price("ETHUSDT"), Some(d(2000, 0)));
    exchange.set_price("ETHUSDT", d(2100, 0));
    assert_eq!(exchange.get_price("ETHUSDT"), Some(d(2100, 0)));
}

#[test]
fn tracker_stale_symbols_now() {
    let mut t = StalenessTracker::new(30);
    t.update(&"A".to_string(), now_ms() - 120_000);
    t.update(&"B".to_string(), now_ms());
    assert_eq!(t.stale_symbols(), vec!["A".to_string()]);
    assert!(!t.all_fresh());
    let mut fresh = StalenessTracker::new(30);
    fresh.update(&"B".to_string(), now_ms());
    assert!(fresh.all_fresh());
}

#[test]
fn buffer_iter_walks_oldest_first() {
    let mut buf = CandleBuffer::new(3);
    for i in 0..4 {
        buf.push(make_candle(d(50000 + i, 0), i));
    }
    let all = buf.iter();
    assert_eq!(all.len(), 3);
    assert_eq!(all[0].close, d(50001, 0));
    assert_eq!(all[2].close, d(50003, 0));
}

#[test]
fn active_order_changed_in_place() {
    let mut mgr = OrderManager::new(10);
    mgr.track_order(create_tracked_order(request("o1", "BTCUSDT"), 0));
    {
        let o = mgr.get_active_mut(&"o1".to_string()).unwrap();
        o.status = OrderStatus::PartiallyFilled;
        o.filled_quantity = d(5, 2);
    }
    assert_eq!(mgr.active_orders()[0].status, OrderStatus::PartiallyFilled);
    assert_eq!(mgr.active_orders()[0].filled_quantity, d(5, 2));
    assert!(mgr.get_active_mut(&"missing".to_string()).is_none());
}
