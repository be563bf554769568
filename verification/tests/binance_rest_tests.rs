use opentrade::binance::{BinanceBalance, BinanceOrderResponse, WsKlineData, WsKlineEvent};
use opentrade::binance_rest::{
    candle_from_ws_kline, candles_from_klines, interval_timeframe, kline_query, kline_stream_url,
    kline_url, liquidation_warnings, next_reconnect_delay_ms, positions_from_info, signed, spot_balance,
    tracked_from_query, usdt_wallet_balance, BinanceEndpoint, FuturesPositionInfo, KlineCells,
    WalletEntry,
};
use opentrade::binance::sign_query;
use opentrade::decimal::Dec;
use opentrade::execution::OrderStatus;
use opentrade::types::{MarketType, OrderReason, OrderRequest, OrderType, Side, TimeInForce, Timeframe};

fn d(m: i64, s: u32) -> Dec {
    Dec::new(m, s)
}

#[test]
fn futures_client_creation() {
    let endpoint = BinanceEndpoint::futures(true);
    assert_eq!(endpoint.base_url, "https://testnet.binancefuture.com");
}

#[test]
fn futures_client_production_url() {
    let endpoint = BinanceEndpoint::futures(false);
    assert_eq!(endpoint.base_url, "https://fapi.binance.com");
}

#[test]
fn endpoint_paths_follow_market() {
    let spot = BinanceEndpoint::new(false);
    assert_eq!(spot.base_url, "https://api.binance.com");
    assert_eq!(spot.order_path(), "/api/v3/order");
    assert_eq!(spot.account_path(), "/api/v3/account");
    let fut = BinanceEndpoint::with_base_url(true, Some("http://localhost:1".to_string()), true);
    assert_eq!(fut.base_url, "http://localhost:1");
    assert!(fut.is_futures());
    assert_eq!(fut.order_path(), "/fapi/v1/order");
    assert_eq!(fut.cancel_all_path(), "/fapi/v1/allOpenOrders");
    assert_eq!(fut.url("/fapi/v1/order", "a=1"), "http://localhost:1/fapi/v1/order?a=1");
    assert_eq!(spot.timestamp_query(7), "recvWindow=5000&timestamp=7");
    assert_eq!(spot.symbol_query("BTCUSDT", 7), "symbol=BTCUSDT&recvWindow=5000&timestamp=7");
}

fn limit_request() -> OrderRequest {
    OrderRequest {
        client_order_id: "c1".to_string(),
        symbol: "BTCUSDT".to_string(),
        market_type: MarketType::Spot,
        side: Side::Sell,
        order_type: OrderType::Limit,
        quantity: d(5, 1),
        price: Some(d(50000, 0)),
        stop_price: Some(d(49000, 0)),
        time_in_force: None,
        reduce_only: false,
        strategy_name: "s".to_string(),
        reason: OrderReason {
            strategy: "s".to_string(),
            signal_type: "Short".to_string(),
            confidence: d(7, 1),
            description: String::new(),
        },
        created_at_ms: 0,
    }
}

#[test]
fn order_query_text() {
    let spot = BinanceEndpoint::new(true);
    let q = spot.order_query(&limit_request(), 123);
    assert_eq!(
        q,
        "symbol=BTCUSDT&side=SELL&type=LIMIT&quantity=0.5&newClientOrderId=c1&recvWindow=5000&timestamp=123&price=50000&timeInForce=GTC&stopPrice=49000"
    );
    let mut market = limit_request();
    market.order_type = OrderType::PostOnly;
    market.stop_price = None;
    market.time_in_force = Some(TimeInForce::Ioc);
    assert!(spot.order_query(&market, 1).ends_with("&type=LIMIT&quantity=0.5&newClientOrderId=c1&recvWindow=5000&timestamp=1&price=50000&timeInForce=IOC"));
    let s = signed(&q, "secret");
    assert_eq!(s, format!("{}&signature={}", q, sign_query(&q, "secret")));
    let f = spot.futures_order_query("ETHUSDT", "BUY", "MARKET", d(2, 0), None, None, true, 9);
    assert_eq!(f, "symbol=ETHUSDT&side=BUY&type=MARKET&quantity=2&recvWindow=5000&timestamp=9&reduceOnly=true");
}

#[test]
fn kline_query_caps_limit() {
    assert_eq!(kline_query("BTCUSDT", "1h", Some(1), None, Some(5000)), "symbol=BTCUSDT&interval=1h&startTime=1&limit=1000");
    assert_eq!(kline_query("BTCUSDT", "5m", None, Some(2), Some(10)), "symbol=BTCUSDT&interval=5m&endTime=2&limit=10");
    assert_eq!(kline_url("a=b"), "https://api.binance.com/api/v3/klines?a=b");
    assert_eq!(interval_timeframe("15m"), Timeframe::M15);
    assert_eq!(interval_timeframe("2h"), Timeframe::H1);
    assert_eq!(Timeframe::D1.as_binance_str(), "1d");
}

fn cells(open_time: i64, close: &str) -> KlineCells {
    KlineCells {
        open_time: Some(open_time),
        open: Some("1.5".to_string()),
        high: Some("2".to_string()),
        low: Some("1".to_string()),
        close: Some(close.to_string()),
        volume: Some("10".to_string()),
        close_time: Some(open_time + 59_999),
        quote_volume: None,
        trades: Some(3),
    }
}

#[test]
fn klines_decode_complete_rows() {
    let rows = vec![Some(cells(0, "1.75")), None, Some(cells(60_000, "oops"))];
    let candles = candles_from_klines("BTCUSDT", "1m", &rows);
    assert_eq!(candles.len(), 2);
    assert_eq!(candles[0].close, d(175, 2));
    assert_eq!(candles[0].timeframe, Timeframe::M1);
    assert_eq!(candles[0].quote_volume, d(0, 0));
    assert_eq!(candles[1].open_time_ms, 60_000);
    assert_eq!(candles[1].close, d(0, 0));
    assert_eq!(candles[1].trades, 3);
}

#[test]
fn ws_kline_only_when_closed() {
    let mut event = WsKlineEvent {
        event_type: "kline".to_string(),
        event_time: 5,
        symbol: "BTCUSDT".to_string(),
        kline: WsKlineData {
            start_time: 0,
            close_time: 59_999,
            symbol: "BTCUSDT".to_string(),
            interval: "1m".to_string(),
            open: "1".to_string(),
            close: "2".to_string(),
            high: "3".to_string(),
            low: "0.5".to_string(),
            volume: "7".to_string(),
            number_of_trades: 4,
            is_closed: false,
            quote_volume: "9".to_string(),
        },
    };
    assert!(candle_from_ws_kline(&event, "BTCUSDT", Timeframe::M1).is_none());
    event.kline.is_closed = true;
    let c = candle_from_ws_kline(&event, "BTCUSDT", Timeframe::M1).unwrap();
    assert_eq!(c.low, d(5, 1));
    assert_eq!(c.quote_volume, d(9, 0));
    assert_eq!(kline_stream_url("BTCUSDT", "1m", false), "wss://stream.binance.com:9443/ws/btcusdt@kline_1m");
    assert_eq!(next_reconnect_delay_ms(1000), 2000);
    assert_eq!(next_reconnect_delay_ms(40_000), 60_000);
}

#[test]
fn balances_first_entry_counts() {
    let balances = vec![
        BinanceBalance { asset: "BTC".to_string(), free: "1".to_string(), locked: "0".to_string() },
        BinanceBalance { asset: "USDT".to_string(), free: "100.5".to_string(), locked: "20".to_string() },
        BinanceBalance { asset: "USDT".to_string(), free: "1".to_string(), locked: "1".to_string() },
    ];
    assert_eq!(spot_balance(&balances, "USDT"), Some(d(1205, 1)));
    assert_eq!(spot_balance(&balances, "ETH"), Some(d(0, 0)));
    let wallet = vec![
        WalletEntry { asset: Some("BNB".to_string()), balance: Some("3".to_string()) },
        WalletEntry { asset: Some("USDT".to_string()), balance: Some("42.5".to_string()) },
    ];
    assert_eq!(usdt_wallet_balance(&wallet), d(425, 1));
}

fn info(symbol: &str, amt: &str, mark: &str, liq: &str) -> FuturesPositionInfo {
    FuturesPositionInfo {
        symbol: symbol.to_string(),
        position_amt: amt.to_string(),
        entry_price: "100".to_string(),
        mark_price: mark.to_string(),
        unrealized_profit: "0".to_string(),
        liquidation_price: liq.to_string(),
        leverage: "x".to_string(),
        margin_type: "cross".to_string(),
        isolated_margin: "0".to_string(),
        notional: "0".to_string(),
    }
}

#[test]
fn positions_and_liquidation_risk() {
    let infos = vec![
        info("A", "1", "100", "96"),
        info("B", "0", "100", "50"),
        info("C", "-2", "100", "150"),
        info("D", "1", "100", "0"),
    ];
    let ps = positions_from_info(&infos);
    assert_eq!(ps.len(), 3);
    assert_eq!(ps[0].leverage, 1);
    assert_eq!(ps[1].symbol, "C");
    let warnings = liquidation_warnings(&ps, d(10, 0)).unwrap();
    assert_eq!(warnings.len(), 1);
    assert_eq!(warnings[0].0, "A");
    assert_eq!(warnings[0].1, d(4, 0));
}

#[test]
fn queried_order_is_rebuilt() {
    let resp = BinanceOrderResponse {
        symbol: "BTCUSDT".to_string(),
        order_id: 77,
        client_order_id: "c9".to_string(),
        transact_time: Some(11),
        price: "30000".to_string(),
        orig_qty: "2".to_string(),
        executed_qty: "1".to_string(),
        cummulative_quote_qty: "30100".to_string(),
        status: "PARTIALLY_FILLED".to_string(),
        order_type_name: "LIMIT".to_string(),
        side: "SELL".to_string(),
        fills: Vec::new(),
    };
    let t = tracked_from_query("BTCUSDT", "c9", &resp, 50).unwrap();
    assert_eq!(t.status, OrderStatus::PartiallyFilled);
    assert_eq!(t.exchange_order_id.as_deref(), Some("77"));
    assert_eq!(t.average_fill_price, Some(d(30100, 0)));
    assert_eq!(t.request.side, Side::Sell);
    assert_eq!(t.request.order_type, OrderType::Limit);
    assert_eq!(t.request.price, Some(d(30000, 0)));
    assert_eq!(t.submitted_at_ms, Some(11));
    assert_eq!(t.last_update_ms, 50);
}
