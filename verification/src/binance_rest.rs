//! The exchange's REST and stream protocol: base URLs and paths, the query
//! strings of requests, and the decoding of responses into the library's
//! records.  Sending the requests is left to the caller.
use vstd::prelude::*;
use vstd::string::StringSliceAdditionalSpecFns;
use crate::decimal::{self, Dec};
use crate::types::{Candle, MarketType, OrderRequest, OrderType, OrderReason, Side, TimeInForce, Timeframe, TopOfBook};
use crate::binance::{
    BinanceBalance, BinanceBookTicker, BinanceFuturesAsset, BinanceOrderResponse, WsKlineEvent,
    dec_or_zero, hex_of, hmac_sha256, parse_or_zero, sign_query, status_of_name, parse_order_status,
    parse_order_type, parse_side, type_of_name,
};
use crate::execution::{OrderStatus, TrackedOrder};
use crate::text::same_text;

verus! {

// ---------------------------------------------------------------------------
// Text of numbers
// ---------------------------------------------------------------------------

/// The decimal text of an integer.
pub uninterp spec fn int_display(n: i128) -> Seq<char>;

/// Calls `i128`'s `to_string` (its decimal text).
#[verifier::external_body]
pub(crate) fn int_to_string(n: i128) -> (r: String)
    ensures
        r@ == int_display(n),
{
    n.to_string()
}

/// `s` followed by `t`.
fn cat(s: String, t: &str) -> (r: String)
    ensures
        r@ == s@ + t@,
{
    let mut out = s;
    out.append(t);
    out
}

// ---------------------------------------------------------------------------
// Endpoints
// ---------------------------------------------------------------------------

/// Where the exchange is reached: the base URL, the receive window of
/// signed requests, and whether it is the futures API.
#[derive(Clone, Debug)]
pub struct BinanceEndpoint {
    pub base_url: String,
    pub recv_window: u64,
    pub is_futures: bool,
}

/// The standard base URL of the spot or futures API, live or testnet.
pub open spec fn default_base_url(use_testnet: bool, is_futures: bool) -> Seq<char> {
    if is_futures {
        if use_testnet {
            "https://testnet.binancefuture.com"@
        } else {
            "https://fapi.binance.com"@
        }
    } else if use_testnet {
        "https://testnet.binance.vision"@
    } else {
        "https://api.binance.com"@
    }
}

impl BinanceEndpoint {
    /// The given base URL, or else the standard one; a receive window of
    /// 5000 ms.
    pub fn with_base_url(use_testnet: bool, custom_base_url: Option<String>, is_futures: bool) -> (r: Self)
        ensures
            r.base_url@ == match custom_base_url {
                Some(u) => u@,
                None => default_base_url(use_testnet, is_futures),
            },
            r.recv_window == 5000,
            r.is_futures == is_futures,
    {
        let base_url = match custom_base_url {
            Some(u) => u,
            None => {
                if is_futures {
                    if use_testnet {
                        String::from_str("https://testnet.binancefuture.com")
                    } else {
                        String::from_str("https://fapi.binance.com")
                    }
                } else if use_testnet {
                    String::from_str("https://testnet.binance.vision")
                } else {
                    String::from_str("https://api.binance.com")
                }
            },
        };
        BinanceEndpoint { base_url, recv_window: 5000, is_futures }
    }

    /// The standard spot endpoint.
    pub fn new(use_testnet: bool) -> (r: Self)
        ensures
            r.base_url@ == default_base_url(use_testnet, false),
            r.recv_window == 5000,
            !r.is_futures,
    {
        Self::with_base_url(use_testnet, None, false)
    }

    /// The standard futures endpoint.
    pub fn futures(use_testnet: bool) -> (r: Self)
        ensures
            r.base_url@ == default_base_url(use_testnet, true),
            r.recv_window == 5000,
            r.is_futures,
    {
        Self::with_base_url(use_testnet, None, true)
    }

    pub fn is_futures(&self) -> (r: bool)
        ensures
            r == self.is_futures,
    {
        self.is_futures
    }

    /// The path of order requests.
    pub fn order_path(&self) -> (r: &'static str)
        ensures
            r@ == (if self.is_futures { "/fapi/v1/order"@ } else { "/api/v3/order"@ }),
    {
        if self.is_futures {
            "/fapi/v1/order"
        } else {
            "/api/v3/order"
        }
    }

    /// The path of the account request.
    pub fn account_path(&self) -> (r: &'static str)
        ensures
            r@ == (if self.is_futures { "/fapi/v2/account"@ } else { "/api/v3/account"@ }),
    {
        if self.is_futures {
            "/fapi/v2/account"
        } else {
            "/api/v3/account"
        }
    }

    /// The path of the open-orders request.
    pub fn open_orders_path(&self) -> (r: &'static str)
        ensures
            r@ == (if self.is_futures { "/fapi/v1/openOrders"@ } else { "/api/v3/openOrders"@ }),
    {
        if self.is_futures {
            "/fapi/v1/openOrders"
        } else {
            "/api/v3/openOrders"
        }
    }

    /// The path that cancels all open orders of a symbol.
    pub fn cancel_all_path(&self) -> (r: &'static str)
        ensures
            r@ == (if self.is_futures { "/fapi/v1/allOpenOrders"@ } else { "/api/v3/openOrders"@ }),
    {
        if self.is_futures {
            "/fapi/v1/allOpenOrders"
        } else {
            "/api/v3/openOrders"
        }
    }

    /// The path of the user-data stream key.
    pub fn user_data_stream_path(&self) -> (r: &'static str)
        ensures
            r@ == (if self.is_futures { "/fapi/v1/listenKey"@ } else { "/api/v3/userDataStream"@ }),
    {
        if self.is_futures {
            "/fapi/v1/listenKey"
        } else {
            "/api/v3/userDataStream"
        }
    }

    /// The path of the price ticker.
    pub fn ticker_path(&self) -> (r: &'static str)
        ensures
            r@ == (if self.is_futures { "/fapi/v1/ticker/price"@ } else { "/api/v3/ticker/price"@ }),
    {
        if self.is_futures {
            "/fapi/v1/ticker/price"
        } else {
            "/api/v3/ticker/price"
        }
    }

    /// The path of the best bid/ask ticker.
    pub fn book_ticker_path(&self) -> (r: &'static str)
        ensures
            r@ == (if self.is_futures {
                "/fapi/v1/ticker/bookTicker"@
            } else {
                "/api/v3/ticker/bookTicker"@
            }),
    {
        if self.is_futures {
            "/fapi/v1/ticker/bookTicker"
        } else {
            "/api/v3/ticker/bookTicker"
        }
    }

    /// `base_url + path + "?" + query`.
    pub fn url(&self, path: &str, query: &str) -> (r: String)
        ensures
            r@ == self.base_url@ + path@ + "?"@ + query@,
    {
        cat(cat(cat(self.base_url.clone(), path), "?"), query)
    }

    /// `recvWindow=..&timestamp=..`.
    pub fn timestamp_query(&self, timestamp_ms: i64) -> (r: String)
        ensures
            r@ == "recvWindow="@ + int_display(self.recv_window as i128) + "&timestamp="@ + int_display(
                timestamp_ms as i128,
            ),
    {
        let s = cat(String::from_str("recvWindow="), int_to_string(self.recv_window as i128).as_str());
        let s = cat(s, "&timestamp=");
        cat(s, int_to_string(timestamp_ms as i128).as_str())
    }

    /// `symbol=..&recvWindow=..&timestamp=..`.
    pub fn symbol_query(&self, symbol: &str, timestamp_ms: i64) -> (r: String)
        ensures
            r@ == "symbol="@ + symbol@ + "&"@ + "recvWindow="@ + int_display(self.recv_window as i128)
                + "&timestamp="@ + int_display(timestamp_ms as i128),
    {
        let s = cat(cat(String::from_str("symbol="), symbol), "&");
        let t = self.timestamp_query(timestamp_ms);
        cat(s, t.as_str())
    }

    /// `symbol=..&origClientOrderId=..&recvWindow=..&timestamp=..`.
    pub fn order_lookup_query(&self, symbol: &str, client_order_id: &str, timestamp_ms: i64) -> (r: String)
        ensures
            r@ == "symbol="@ + symbol@ + "&origClientOrderId="@ + client_order_id@ + "&"@
                + "recvWindow="@ + int_display(self.recv_window as i128) + "&timestamp="@
                + int_display(timestamp_ms as i128),
    {
        let s = cat(cat(String::from_str("symbol="), symbol), "&origClientOrderId=");
        let s = cat(cat(s, client_order_id), "&");
        let t = self.timestamp_query(timestamp_ms);
        cat(s, t.as_str())
    }
}

// ---------------------------------------------------------------------------
// Signing
// ---------------------------------------------------------------------------

/// The signature of a query under a secret: the lower-case hex of its
/// HMAC-SHA256 tag.
pub open spec fn signature_of(query: &str, secret: &str) -> Seq<char> {
    hex_of(hmac_sha256(secret.spec_bytes(), query.spec_bytes()))
}

/// The query with its signature appended (`&signature=..`).
pub fn signed(query: &str, secret: &str) -> (r: String)
    ensures
        r@ == query@ + "&signature="@ + signature_of(query, secret),
{
    let sig = sign_query(query, secret);
    cat(cat(String::from_str(query), "&signature="), sig.as_str())
}

// ---------------------------------------------------------------------------
// Order queries
// ---------------------------------------------------------------------------

pub open spec fn side_code(side: Side) -> Seq<char> {
    match side {
        Side::Buy => "BUY"@,
        Side::Sell => "SELL"@,
    }
}

/// The exchange's name of an order side.
pub fn side_name(side: Side) -> (r: &'static str)
    ensures
        r@ == side_code(side),
{
    match side {
        Side::Buy => "BUY",
        Side::Sell => "SELL",
    }
}

/// The exchange's type name of an order type (post-only orders are sent as
/// limit orders, reduce-only ones as market orders).
pub open spec fn type_code(t: OrderType) -> Seq<char> {
    match t {
        OrderType::Market => "MARKET"@,
        OrderType::Limit => "LIMIT"@,
        OrderType::StopLoss => "STOP_LOSS"@,
        OrderType::StopLossLimit => "STOP_LOSS_LIMIT"@,
        OrderType::TakeProfit => "TAKE_PROFIT"@,
        OrderType::TakeProfitLimit => "TAKE_PROFIT_LIMIT"@,
        OrderType::PostOnly => "LIMIT"@,
        OrderType::ReduceOnly => "MARKET"@,
    }
}

pub fn order_type_code_name(t: OrderType) -> (r: &'static str)
    ensures
        r@ == type_code(t),
{
    match t {
        OrderType::Market => "MARKET",
        OrderType::Limit => "LIMIT",
        OrderType::StopLoss => "STOP_LOSS",
        OrderType::StopLossLimit => "STOP_LOSS_LIMIT",
        OrderType::TakeProfit => "TAKE_PROFIT",
        OrderType::TakeProfitLimit => "TAKE_PROFIT_LIMIT",
        OrderType::PostOnly => "LIMIT",
        OrderType::ReduceOnly => "MARKET",
    }
}

/// The exchange's time-in-force code (good-until-cancelled by default).
pub open spec fn tif_code(t: Option<TimeInForce>) -> Seq<char> {
    match t {
        Some(TimeInForce::Ioc) => "IOC"@,
        Some(TimeInForce::Fok) => "FOK"@,
        _ => "GTC"@,
    }
}

fn tif_name(t: Option<TimeInForce>) -> (r: &'static str)
    ensures
        r@ == tif_code(t),
{
    match t {
        Some(TimeInForce::Ioc) => "IOC",
        Some(TimeInForce::Fok) => "FOK",
        _ => "GTC",
    }
}

/// The query of a spot (or futures) order request: symbol, side, type,
/// quantity, client id, receive window and time; then the price (with a
/// time in force when one is set or the order is a limit order) and the
/// stop price, when given.
pub open spec fn order_query_spec(req: OrderRequest, recv_window: u64, timestamp_ms: i64) -> Seq<char> {
    let base = "symbol="@ + req.symbol@ + "&side="@ + side_code(req.side) + "&type="@ + type_code(
        req.order_type,
    ) + "&quantity="@ + decimal::decimal_display(req.quantity) + "&newClientOrderId="@
        + req.client_order_id@ + "&recvWindow="@ + int_display(recv_window as i128) + "&timestamp="@
        + int_display(timestamp_ms as i128);
    let priced = match req.price {
        Some(p) => base + "&price="@ + decimal::decimal_display(p) + if req.time_in_force is Some
            || req.order_type == OrderType::Limit {
            "&timeInForce="@ + tif_code(req.time_in_force)
        } else {
            ""@
        },
        None => base,
    };
    match req.stop_price {
        Some(sp) => priced + "&stopPrice="@ + decimal::decimal_display(sp),
        None => priced,
    }
}

impl BinanceEndpoint {
    /// The (unsigned) query of an order request at `timestamp_ms`.
    pub fn order_query(&self, req: &OrderRequest, timestamp_ms: i64) -> (r: String)
        ensures
            r@ == order_query_spec(*req, self.recv_window, timestamp_ms),
    {
        let s = cat(String::from_str("symbol="), req.symbol.as_str());
        let s = cat(cat(s, "&side="), side_name(req.side));
        let s = cat(cat(s, "&type="), order_type_code_name(req.order_type));
        let s = cat(cat(s, "&quantity="), req.quantity.to_string().as_str());
        let s = cat(cat(s, "&newClientOrderId="), req.client_order_id.as_str());
        let s = cat(cat(s, "&recvWindow="), int_to_string(self.recv_window as i128).as_str());
        let s = cat(cat(s, "&timestamp="), int_to_string(timestamp_ms as i128).as_str());
        let s = match req.price {
            Some(p) => {
                let t = cat(cat(s, "&price="), p.to_string().as_str());
                if req.time_in_force.is_some() || req.order_type == OrderType::Limit {
                    cat(cat(t, "&timeInForce="), tif_name(req.time_in_force))
                } else {
                    proof {
                        reveal_strlit("");
                        assert(t@ + ""@ =~= t@);
                    }
                    t
                }
            },
            None => s,
        };
        match req.stop_price {
            Some(sp) => cat(cat(s, "&stopPrice="), sp.to_string().as_str()),
            None => s,
        }
    }

    /// The (unsigned) query of a futures order: symbol, side, type,
    /// quantity, receive window and time; then a price good until cancelled,
    /// a stop price and the reduce-only flag, when given.
    pub fn futures_order_query(
        &self,
        symbol: &str,
        side: &str,
        order_type: &str,
        quantity: Dec,
        price: Option<Dec>,
        stop_price: Option<Dec>,
        reduce_only: bool,
        timestamp_ms: i64,
    ) -> (r: String)
        ensures
            ({
                let base = "symbol="@ + symbol@ + "&side="@ + side@ + "&type="@ + order_type@
                    + "&quantity="@ + decimal::decimal_display(quantity) + "&recvWindow="@ + int_display(
                    self.recv_window as i128,
                ) + "&timestamp="@ + int_display(timestamp_ms as i128);
                let priced = match price {
                    Some(p) => base + "&price="@ + decimal::decimal_display(p) + "&timeInForce=GTC"@,
                    None => base,
                };
                let stopped = match stop_price {
                    Some(sp) => priced + "&stopPrice="@ + decimal::decimal_display(sp),
                    None => priced,
                };
                r@ == if reduce_only {
                    stopped + "&reduceOnly=true"@
                } else {
                    stopped
                }
            }),
    {
        let s = cat(String::from_str("symbol="), symbol);
        let s = cat(cat(s, "&side="), side);
        let s = cat(cat(s, "&type="), order_type);
        let s = cat(cat(s, "&quantity="), quantity.to_string().as_str());
        let s = cat(cat(s, "&recvWindow="), int_to_string(self.recv_window as i128).as_str());
        let s = cat(cat(s, "&timestamp="), int_to_string(timestamp_ms as i128).as_str());
        let s = match price {
            Some(p) => cat(cat(cat(s, "&price="), p.to_string().as_str()), "&timeInForce=GTC"),
            None => s,
        };
        let s = match stop_price {
            Some(sp) => cat(cat(s, "&stopPrice="), sp.to_string().as_str()),
            None => s,
        };
        if reduce_only {
            cat(s, "&reduceOnly=true")
        } else {
            s
        }
    }
}

// ---------------------------------------------------------------------------
// Candles
// ---------------------------------------------------------------------------

/// The query of a kline request: symbol, interval, the optional start and
/// end times, and at most 1000 candles (1000 by default).
pub open spec fn kline_query_spec(
    symbol: Seq<char>,
    interval: Seq<char>,
    start_time: Option<i64>,
    end_time: Option<i64>,
    limit: Option<u32>,
) -> Seq<char> {
    let base = "symbol="@ + symbol + "&interval="@ + interval;
    let started = match start_time {
        Some(st) => base + "&startTime="@ + int_display(st as i128),
        None => base,
    };
    let ended = match end_time {
        Some(et) => started + "&endTime="@ + int_display(et as i128),
        None => started,
    };
    let lim: u32 = match limit {
        Some(l) => if l < 1000 {
            l
        } else {
            1000
        },
        None => 1000,
    };
    ended + "&limit="@ + int_display(lim as i128)
}

/// The kline query.
pub fn kline_query(
    symbol: &str,
    interval: &str,
    start_time: Option<i64>,
    end_time: Option<i64>,
    limit: Option<u32>,
) -> (r: String)
    ensures
        r@ == kline_query_spec(symbol@, interval@, start_time, end_time, limit),
{
    let s = cat(cat(cat(String::from_str("symbol="), symbol), "&interval="), interval);
    let s = match start_time {
        Some(st) => cat(cat(s, "&startTime="), int_to_string(st as i128).as_str()),
        None => s,
    };
    let s = match end_time {
        Some(et) => cat(cat(s, "&endTime="), int_to_string(et as i128).as_str()),
        None => s,
    };
    let lim: u32 = match limit {
        Some(l) => if l < 1000 {
            l
        } else {
            1000
        },
        None => 1000,
    };
    cat(cat(s, "&limit="), int_to_string(lim as i128).as_str())
}

/// The URL of a kline request: always the live public API, which needs no
/// key and has the history the testnet lacks.
pub fn kline_url(query: &str) -> (r: String)
    ensures
        r@ == "https://api.binance.com/api/v3/klines?"@ + query@,
{
    cat(String::from_str("https://api.binance.com/api/v3/klines?"), query)
}

/// The timeframe of an interval code (one hour for an unknown code).
pub open spec fn timeframe_of_interval(s: Seq<char>) -> Timeframe {
    if s == "1m"@ {
        Timeframe::M1
    } else if s == "5m"@ {
        Timeframe::M5
    } else if s == "15m"@ {
        Timeframe::M15
    } else if s == "4h"@ {
        Timeframe::H4
    } else if s == "1d"@ {
        Timeframe::D1
    } else {
        Timeframe::H1
    }
}

/// Reads an interval code.
pub fn interval_timeframe(s: &str) -> (r: Timeframe)
    ensures
        r == timeframe_of_interval(s@),
{
    if same_text(s, "1m") {
        Timeframe::M1
    } else if same_text(s, "5m") {
        Timeframe::M5
    } else if same_text(s, "15m") {
        Timeframe::M15
    } else if same_text(s, "4h") {
        Timeframe::H4
    } else if same_text(s, "1d") {
        Timeframe::D1
    } else {
        Timeframe::H1
    }
}

/// The cells of one kline row that a candle is read from, as found: a
/// number cell is `None` when it holds no integer, a decimal cell when it
/// holds no text.
#[derive(Clone, Debug)]
pub struct KlineCells {
    pub open_time: Option<i64>,
    pub open: Option<String>,
    pub high: Option<String>,
    pub low: Option<String>,
    pub close: Option<String>,
    pub volume: Option<String>,
    pub close_time: Option<i64>,
    pub quote_volume: Option<String>,
    pub trades: Option<u64>,
}

/// A decimal cell (zero when missing or unreadable).
pub open spec fn cell_dec(c: Option<String>) -> Dec {
    match c {
        Some(s) => dec_or_zero(s@),
        None => decimal::dec_lit(0, 0),
    }
}

fn read_cell(c: &Option<String>) -> (r: Dec)
    ensures
        r == cell_dec(*c),
{
    match c {
        Some(s) => parse_or_zero(s),
        None => Dec::new(0, 0),
    }
}

/// The spot candle a kline row describes (missing numbers read as zero).
pub open spec fn kline_candle_is(
    c: Candle,
    symbol: Seq<char>,
    timeframe: Timeframe,
    row: KlineCells,
) -> bool {
    &&& c.symbol@ == symbol
    &&& c.market_type == MarketType::Spot
    &&& c.timeframe == timeframe
    &&& c.open_time_ms == match row.open_time {
        Some(t) => t,
        None => 0,
    }
    &&& c.close_time_ms == match row.close_time {
        Some(t) => t,
        None => 0,
    }
    &&& c.open == cell_dec(row.open)
    &&& c.high == cell_dec(row.high)
    &&& c.low == cell_dec(row.low)
    &&& c.close == cell_dec(row.close)
    &&& c.volume == cell_dec(row.volume)
    &&& c.quote_volume == cell_dec(row.quote_volume)
    &&& c.trades == match row.trades {
        Some(n) => n,
        None => 0,
    }
}

/// Reads one kline row.
pub fn candle_from_kline(symbol: &str, timeframe: Timeframe, row: &KlineCells) -> (r: Candle)
    ensures
        kline_candle_is(r, symbol@, timeframe, *row),
{
    Candle {
        symbol: String::from_str(symbol),
        market_type: MarketType::Spot,
        timeframe,
        open_time_ms: match row.open_time {
            Some(t) => t,
            None => 0,
        },
        close_time_ms: match row.close_time {
            Some(t) => t,
            None => 0,
        },
        open: read_cell(&row.open),
        high: read_cell(&row.high),
        low: read_cell(&row.low),
        close: read_cell(&row.close),
        volume: read_cell(&row.volume),
        quote_volume: read_cell(&row.quote_volume),
        trades: match row.trades {
            Some(n) => n,
            None => 0,
        },
    }
}

/// The complete rows, in order (`None` stands for a row with fewer than the
/// twelve cells of a kline, which is skipped).
pub open spec fn complete_rows(rows: Seq<Option<KlineCells>>) -> Seq<KlineCells>
    decreases rows.len(),
{
    if rows.len() == 0 {
        Seq::empty()
    } else {
        let rest = complete_rows(rows.drop_last());
        match rows.last() {
            Some(c) => rest.push(c),
            None => rest,
        }
    }
}

/// The candles of a kline response, one per complete row, in order.
pub fn candles_from_klines(symbol: &str, interval: &str, rows: &Vec<Option<KlineCells>>) -> (r: Vec<Candle>)
    ensures
        r@.len() == complete_rows(rows@).len(),
        forall|k: int|
            0 <= k < r@.len() ==> kline_candle_is(
                #[trigger] r@[k],
                symbol@,
                timeframe_of_interval(interval@),
                complete_rows(rows@)[k],
            ),
{
    let tf = interval_timeframe(interval);
    let mut out: Vec<Candle> = Vec::new();
    let mut i: usize = 0;
    while i < rows.len()
        invariant
            i <= rows@.len(),
            tf == timeframe_of_interval(interval@),
            out@.len() == complete_rows(rows@.subrange(0, i as int)).len(),
            forall|k: int|
                0 <= k < out@.len() ==> kline_candle_is(
                    #[trigger] out@[k],
                    symbol@,
                    tf,
                    complete_rows(rows@.subrange(0, i as int))[k],
                ),
        decreases rows@.len() - i,
    {
        assert(rows@.subrange(0, i + 1).drop_last() =~= rows@.subrange(0, i as int));
        match &rows[i] {
            Some(c) => {
                out.push(candle_from_kline(symbol, tf, c));
            },
            None => {},
        }
        i = i + 1;
    }
    assert(rows@.subrange(0, rows@.len() as int) =~= rows@);
    out
}

/// The candle of a stream kline event, once the candle has closed.
pub fn candle_from_ws_kline(event: &WsKlineEvent, symbol: &str, timeframe: Timeframe) -> (r: Option<Candle>)
    ensures
        !event.kline.is_closed ==> r is None,
        event.kline.is_closed ==> (r matches Some(c) && {
            &&& c.symbol@ == symbol@
            &&& c.market_type == MarketType::Spot
            &&& c.timeframe == timeframe
            &&& c.open_time_ms == event.kline.start_time
            &&& c.close_time_ms == event.kline.close_time
            &&& c.open == dec_or_zero(event.kline.open@)
            &&& c.high == dec_or_zero(event.kline.high@)
            &&& c.low == dec_or_zero(event.kline.low@)
            &&& c.close == dec_or_zero(event.kline.close@)
            &&& c.volume == dec_or_zero(event.kline.volume@)
            &&& c.quote_volume == dec_or_zero(event.kline.quote_volume@)
            &&& c.trades == event.kline.number_of_trades
        }),
{
    if !event.kline.is_closed {
        return None;
    }
    let k = &event.kline;
    Some(
        Candle {
            symbol: String::from_str(symbol),
            market_type: MarketType::Spot,
            timeframe,
            open_time_ms: k.start_time,
            close_time_ms: k.close_time,
            open: parse_or_zero(&k.open),
            high: parse_or_zero(&k.high),
            low: parse_or_zero(&k.low),
            close: parse_or_zero(&k.close),
            volume: parse_or_zero(&k.volume),
            quote_volume: parse_or_zero(&k.quote_volume),
            trades: k.number_of_trades,
        },
    )
}

/// What `str::to_lowercase` makes of a text.
pub uninterp spec fn lowercase_text(s: Seq<char>) -> Seq<char>;

/// Calls `str::to_lowercase`.
#[verifier::external_body]
fn to_lowercase(s: &str) -> (r: String)
    ensures
        r@ == lowercase_text(s@),
{
    s.to_lowercase()
}

/// The URL of a symbol's kline stream, live or testnet.
pub fn kline_stream_url(symbol: &str, interval: &str, use_testnet: bool) -> (r: String)
    ensures
        r@ == (if use_testnet {
            "wss://testnet.binance.vision/ws"@
        } else {
            "wss://stream.binance.com:9443/ws"@
        }) + "/"@ + lowercase_text(symbol@) + "@kline_"@ + interval@,
{
    let base = if use_testnet {
        "wss://testnet.binance.vision/ws"
    } else {
        "wss://stream.binance.com:9443/ws"
    };
    let lower = to_lowercase(symbol);
    cat(cat(cat(cat(String::from_str(base), "/"), lower.as_str()), "@kline_"), interval)
}

/// The wait before the next reconnection: twice the last one, at most a
/// minute.
pub fn next_reconnect_delay_ms(delay_ms: u64) -> (r: u64)
    ensures
        r == (if 2 * delay_ms < 60000 { 2 * delay_ms } else { 60000 }),
{
    if delay_ms >= 30000 {
        60000
    } else {
        delay_ms * 2
    }
}

// ---------------------------------------------------------------------------
// Balances and tickers
// ---------------------------------------------------------------------------

/// The first balance entry of `asset`.
pub open spec fn balance_entry(bs: Seq<BinanceBalance>, asset: Seq<char>) -> Option<BinanceBalance>
    decreases bs.len(),
{
    if bs.len() == 0 {
        None
    } else if bs[0].asset@ == asset {
        Some(bs[0])
    } else {
        balance_entry(bs.drop_first(), asset)
    }
}

/// The spot balance of `asset`: free plus locked of its first entry, zero
/// without one; `None` when the sum overflows.
pub fn spot_balance(balances: &Vec<BinanceBalance>, asset: &str) -> (r: Option<Dec>)
    ensures
        r == match balance_entry(balances@, asset@) {
            Some(b) => decimal::add_spec(Some(dec_or_zero(b.free@)), Some(dec_or_zero(b.locked@))),
            None => Some(decimal::dec_lit(0, 0)),
        },
{
    let mut i: usize = 0;
    assert(balances@.subrange(0, balances@.len() as int) =~= balances@);
    while i < balances.len()
        invariant
            i <= balances@.len(),
            balance_entry(balances@, asset@) == balance_entry(balances@.subrange(i as int, balances@.len() as int), asset@),
        decreases balances@.len() - i,
    {
        let ghost rest = balances@.subrange(i as int, balances@.len() as int);
        assert(rest.drop_first() =~= balances@.subrange(i + 1, balances@.len() as int));
        let b = &balances[i];
        if same_text(b.asset.as_str(), asset) {
            return parse_or_zero(&b.free).add(parse_or_zero(&b.locked));
        }
        i = i + 1;
    }
    Some(Dec::new(0, 0))
}

/// The first futures asset entry of `asset`.
pub open spec fn asset_entry(xs: Seq<BinanceFuturesAsset>, asset: Seq<char>) -> Option<BinanceFuturesAsset>
    decreases xs.len(),
{
    if xs.len() == 0 {
        None
    } else if xs[0].asset@ == asset {
        Some(xs[0])
    } else {
        asset_entry(xs.drop_first(), asset)
    }
}

/// The futures wallet balance of `asset`: that of its first entry, zero
/// without one.
pub fn futures_balance(assets: &Vec<BinanceFuturesAsset>, asset: &str) -> (r: Dec)
    ensures
        r == match asset_entry(assets@, asset@) {
            Some(a) => dec_or_zero(a.wallet_balance@),
            None => decimal::dec_lit(0, 0),
        },
{
    let mut i: usize = 0;
    assert(assets@.subrange(0, assets@.len() as int) =~= assets@);
    while i < assets.len()
        invariant
            i <= assets@.len(),
            asset_entry(assets@, asset@) == asset_entry(assets@.subrange(i as int, assets@.len() as int), asset@),
        decreases assets@.len() - i,
    {
        let ghost rest = assets@.subrange(i as int, assets@.len() as int);
        assert(rest.drop_first() =~= assets@.subrange(i + 1, assets@.len() as int));
        let a = &assets[i];
        if same_text(a.asset.as_str(), asset) {
            return parse_or_zero(&a.wallet_balance);
        }
        i = i + 1;
    }
    Dec::new(0, 0)
}

/// One entry of the futures balance list, as found: the asset and balance
/// texts, `None` where the entry holds no text.
#[derive(Clone, Debug)]
pub struct WalletEntry {
    pub asset: Option<String>,
    pub balance: Option<String>,
}

/// The first wallet entry of `asset`.
pub open spec fn wallet_entry(xs: Seq<WalletEntry>, asset: Seq<char>) -> Option<WalletEntry>
    decreases xs.len(),
{
    if xs.len() == 0 {
        None
    } else if xs[0].asset matches Some(a) && a@ == asset {
        Some(xs[0])
    } else {
        wallet_entry(xs.drop_first(), asset)
    }
}

/// The USDT balance of the futures balance list (zero without an entry or
/// a readable balance).
pub fn usdt_wallet_balance(entries: &Vec<WalletEntry>) -> (r: Dec)
    ensures
        r == match wallet_entry(entries@, "USDT"@) {
            Some(e) => cell_dec(e.balance),
            None => decimal::dec_lit(0, 0),
        },
{
    let mut i: usize = 0;
    assert(entries@.subrange(0, entries@.len() as int) =~= entries@);
    while i < entries.len()
        invariant
            i <= entries@.len(),
            wallet_entry(entries@, "USDT"@) == wallet_entry(entries@.subrange(i as int, entries@.len() as int), "USDT"@),
        decreases entries@.len() - i,
    {
        let ghost rest = entries@.subrange(i as int, entries@.len() as int);
        assert(rest.drop_first() =~= entries@.subrange(i + 1, entries@.len() as int));
        let e = &entries[i];
        let hit = match &e.asset {
            Some(a) => same_text(a.as_str(), "USDT"),
            None => false,
        };
        if hit {
            return read_cell(&e.balance);
        }
        i = i + 1;
    }
    Dec::new(0, 0)
}

/// The best bid and ask of a book ticker, stamped `now_ms`.
pub fn top_of_book(symbol: &str, ticker: &BinanceBookTicker, now_ms: i64) -> (r: TopOfBook)
    ensures
        r.symbol@ == symbol@,
        r.market_type == MarketType::Spot,
        r.timestamp_ms == now_ms,
        r.best_bid == dec_or_zero(ticker.bid_price@),
        r.best_bid_qty == dec_or_zero(ticker.bid_qty@),
        r.best_ask == dec_or_zero(ticker.ask_price@),
        r.best_ask_qty == dec_or_zero(ticker.ask_qty@),
{
    TopOfBook {
        symbol: String::from_str(symbol),
        market_type: MarketType::Spot,
        timestamp_ms: now_ms,
        best_bid: parse_or_zero(&ticker.bid_price),
        best_bid_qty: parse_or_zero(&ticker.bid_qty),
        best_ask: parse_or_zero(&ticker.ask_price),
        best_ask_qty: parse_or_zero(&ticker.ask_qty),
    }
}

// ---------------------------------------------------------------------------
// Futures positions and funding
// ---------------------------------------------------------------------------

/// One position of the futures account response, as texts.
#[derive(Clone, Debug)]
pub struct FuturesPositionInfo {
    pub symbol: String,
    pub position_amt: String,
    pub entry_price: String,
    pub mark_price: String,
    pub unrealized_profit: String,
    pub liquidation_price: String,
    pub leverage: String,
    pub margin_type: String,
    pub isolated_margin: String,
    pub notional: String,
}

/// An open futures position.
#[derive(Clone, Debug)]
pub struct FuturesPosition {
    pub symbol: String,
    pub position_amt: Dec,
    pub entry_price: Dec,
    pub mark_price: Dec,
    pub unrealized_profit: Dec,
    pub liquidation_price: Dec,
    pub leverage: u32,
    pub margin_type: String,
    pub isolated_margin: Dec,
    pub notional: Dec,
}

/// What `str::parse::<u32>` makes of a text (`None` when it rejects it).
pub uninterp spec fn u32_parse(s: Seq<char>) -> Option<u32>;

/// Calls `str::parse::<u32>`.
#[verifier::external_body]
fn parse_u32(s: &str) -> (r: Option<u32>)
    ensures
        r == u32_parse(s@),
{
    s.parse::<u32>().ok()
}

/// The position a response entry describes (unreadable numbers read as
/// zero, an unreadable leverage as one).
pub open spec fn position_is(p: FuturesPosition, info: FuturesPositionInfo) -> bool {
    &&& p.symbol@ == info.symbol@
    &&& p.position_amt == dec_or_zero(info.position_amt@)
    &&& p.entry_price == dec_or_zero(info.entry_price@)
    &&& p.mark_price == dec_or_zero(info.mark_price@)
    &&& p.unrealized_profit == dec_or_zero(info.unrealized_profit@)
    &&& p.liquidation_price == dec_or_zero(info.liquidation_price@)
    &&& p.leverage == match u32_parse(info.leverage@) {
        Some(l) => l,
        None => 1,
    }
    &&& p.margin_type@ == info.margin_type@
    &&& p.isolated_margin == dec_or_zero(info.isolated_margin@)
    &&& p.notional == dec_or_zero(info.notional@)
}

/// The entries with a non-zero position amount, in order.
pub open spec fn open_entries(xs: Seq<FuturesPositionInfo>) -> Seq<FuturesPositionInfo>
    decreases xs.len(),
{
    if xs.len() == 0 {
        Seq::empty()
    } else {
        let rest = open_entries(xs.drop_last());
        if dec_or_zero(xs.last().position_amt@)@ != 0 {
            rest.push(xs.last())
        } else {
            rest
        }
    }
}

/// The open positions of a futures account response, in order.
pub fn positions_from_info(infos: &Vec<FuturesPositionInfo>) -> (r: Vec<FuturesPosition>)
    ensures
        r@.len() == open_entries(infos@).len(),
        forall|k: int| 0 <= k < r@.len() ==> position_is(#[trigger] r@[k], open_entries(infos@)[k]),
{
    let mut out: Vec<FuturesPosition> = Vec::new();
    let mut i: usize = 0;
    while i < infos.len()
        invariant
            i <= infos@.len(),
            out@.len() == open_entries(infos@.subrange(0, i as int)).len(),
            forall|k: int|
                0 <= k < out@.len() ==> position_is(
                    #[trigger] out@[k],
                    open_entries(infos@.subrange(0, i as int))[k],
                ),
        decreases infos@.len() - i,
    {
        assert(infos@.subrange(0, i + 1).drop_last() =~= infos@.subrange(0, i as int));
        let p = &infos[i];
        let amt = parse_or_zero(&p.position_amt);
        if !amt.is_zero() {
            out.push(
                FuturesPosition {
                    symbol: p.symbol.clone(),
                    position_amt: amt,
                    entry_price: parse_or_zero(&p.entry_price),
                    mark_price: parse_or_zero(&p.mark_price),
                    unrealized_profit: parse_or_zero(&p.unrealized_profit),
                    liquidation_price: parse_or_zero(&p.liquidation_price),
                    leverage: match parse_u32(p.leverage.as_str()) {
                        Some(l) => l,
                        None => 1,
                    },
                    margin_type: p.margin_type.clone(),
                    isolated_margin: parse_or_zero(&p.isolated_margin),
                    notional: parse_or_zero(&p.notional),
                },
            );
        }
        i = i + 1;
    }
    assert(infos@.subrange(0, infos@.len() as int) =~= infos@);
    out
}

/// The distance to liquidation as a percentage of the mark price (long:
/// mark above liquidation; short: liquidation above mark).
pub open spec fn liquidation_distance(p: FuturesPosition) -> Option<Dec> {
    let gap = if p.position_amt@ > 0 {
        decimal::sub_spec(Some(p.mark_price), Some(p.liquidation_price))
    } else {
        decimal::sub_spec(Some(p.liquidation_price), Some(p.mark_price))
    };
    decimal::mul_spec(decimal::div_spec(gap, Some(p.mark_price)), Some(decimal::dec_lit(100, 0)))
}

/// The positions closer to liquidation than `warn_threshold_pct`, with
/// their distance, in order; positions without a positive mark and
/// liquidation price are skipped.  `None` when a distance overflows.
pub open spec fn liquidation_spec(ps: Seq<FuturesPosition>, warn_threshold_pct: Dec) -> Option<
    Seq<(Seq<char>, Dec)>,
>
    decreases ps.len(),
{
    if ps.len() == 0 {
        Some(Seq::empty())
    } else {
        match liquidation_spec(ps.drop_last(), warn_threshold_pct) {
            None => None,
            Some(rest) => {
                let p = ps.last();
                if p.liquidation_price@ <= 0 || p.mark_price@ <= 0 {
                    Some(rest)
                } else {
                    match liquidation_distance(p) {
                        None => None,
                        Some(d) => if d@ < warn_threshold_pct@ {
                            Some(rest.push((p.symbol@, d)))
                        } else {
                            Some(rest)
                        },
                    }
                }
            },
        }
    }
}

/// The positions at risk of liquidation.
pub fn liquidation_warnings(positions: &Vec<FuturesPosition>, warn_threshold_pct: Dec) -> (r: Option<
    Vec<(String, Dec)>,
>)
    ensures
        match liquidation_spec(positions@, warn_threshold_pct) {
            None => r is None,
            Some(ws) => r matches Some(v) && v@.len() == ws.len() && forall|k: int|
                0 <= k < ws.len() ==> (#[trigger] v@[k]).0@ == ws[k].0 && v@[k].1 == ws[k].1,
        },
{
    let mut out: Vec<(String, Dec)> = Vec::new();
    let zero = Dec::zero();
    let mut i: usize = 0;
    while i < positions.len()
        invariant
            i <= positions@.len(),
            zero@ == 0,
            liquidation_spec(positions@.subrange(0, i as int), warn_threshold_pct) matches Some(ws) && out@.len()
                == ws.len() && forall|k: int|
                0 <= k < ws.len() ==> (#[trigger] out@[k]).0@ == ws[k].0 && out@[k].1 == ws[k].1,
        decreases positions@.len() - i,
    {
        assert(positions@.subrange(0, i + 1).drop_last() =~= positions@.subrange(0, i as int));
        let p = &positions[i];
        if p.liquidation_price.le(&zero) || p.mark_price.le(&zero) {
            i = i + 1;
            continue;
        }
        let gap = if p.position_amt.gt(&zero) {
            p.mark_price.sub(p.liquidation_price)
        } else {
            p.liquidation_price.sub(p.mark_price)
        };
        let dist = decimal::mul_opt(decimal::div_opt(gap, Some(p.mark_price)), Some(lit_hundred()));
        match dist {
            None => {
                proof {
                    lemma_liquidation_none_stays(positions@, warn_threshold_pct, i as int + 1);
                }
                return None;
            },
            Some(d) => {
                if d.lt(&warn_threshold_pct) {
                    out.push((p.symbol.clone(), d));
                }
            },
        }
        i = i + 1;
    }
    assert(positions@.subrange(0, positions@.len() as int) =~= positions@);
    Some(out)
}

fn lit_hundred() -> (r: Dec)
    ensures
        r == decimal::dec_lit(100, 0),
{
    Dec::new(100, 0)
}

proof fn lemma_liquidation_none_stays(ps: Seq<FuturesPosition>, t: Dec, k: int)
    requires
        0 <= k <= ps.len(),
        liquidation_spec(ps.subrange(0, k), t) is None,
    ensures
        liquidation_spec(ps, t) is None,
    decreases ps.len() - k,
{
    if k < ps.len() {
        assert(ps.subrange(0, k + 1).drop_last() =~= ps.subrange(0, k));
        lemma_liquidation_none_stays(ps, t, k + 1);
    } else {
        assert(ps.subrange(0, k) =~= ps);
    }
}

/// A futures funding rate reading.
#[derive(Clone, Debug)]
pub struct FundingRate {
    pub symbol: String,
    pub timestamp_ms: i64,
    pub rate: Dec,
    pub next_funding_time_ms: i64,
}

/// The funding rate of a premium-index response: the last rate (zero when
/// missing or unreadable) and the next funding time (zero when missing),
/// stamped `now_ms`.
pub fn funding_rate_from(
    symbol: &str,
    now_ms: i64,
    last_funding_rate: &Option<String>,
    next_funding_time: Option<i64>,
) -> (r: FundingRate)
    ensures
        r.symbol@ == symbol@,
        r.timestamp_ms == now_ms,
        r.rate == cell_dec(*last_funding_rate),
        r.next_funding_time_ms == match next_funding_time {
            Some(t) => t,
            None => 0,
        },
{
    FundingRate {
        symbol: String::from_str(symbol),
        timestamp_ms: now_ms,
        rate: read_cell(last_funding_rate),
        next_funding_time_ms: match next_funding_time {
            Some(t) => t,
            None => 0,
        },
    }
}

// ---------------------------------------------------------------------------
// Queried orders
// ---------------------------------------------------------------------------

/// The average price of a queried order: cumulative quote over executed
/// quantity, when something executed.
pub open spec fn queried_average(resp: BinanceOrderResponse) -> Option<Option<Dec>> {
    let exec = dec_or_zero(resp.executed_qty@);
    if exec@ > 0 {
        match decimal::div_spec(Some(dec_or_zero(resp.cummulative_quote_qty@)), Some(exec)) {
            Some(avg) => Some(Some(avg)),
            None => None,
        }
    } else {
        Some(None)
    }
}

/// The tracked order an order query answers, stamped `now_ms`.  The
/// request is rebuilt from the response (a spot order of strategy
/// `"unknown"`); the query reports no commission or fills.  `None` when the
/// average price overflows.
pub fn tracked_from_query(
    symbol: &str,
    client_order_id: &str,
    resp: &BinanceOrderResponse,
    now_ms: i64,
) -> (r: Option<TrackedOrder>)
    ensures
        match queried_average(*resp) {
            None => r is None,
            Some(avg) => r matches Some(t) && {
                &&& t.client_order_id@ == client_order_id@
                &&& t.exchange_order_id matches Some(x) && x@ == int_display(resp.order_id as i128)
                &&& t.status == status_of_name(resp.status@)
                &&& t.filled_quantity == dec_or_zero(resp.executed_qty@)
                &&& t.average_fill_price == avg
                &&& t.commission == decimal::dec_lit(0, 0)
                &&& t.commission_asset is None
                &&& t.submitted_at_ms == resp.transact_time
                &&& t.last_update_ms == now_ms
                &&& t.fill_events@.len() == 0
                &&& t.request.client_order_id@ == client_order_id@
                &&& t.request.symbol@ == symbol@
                &&& t.request.market_type == MarketType::Spot
                &&& t.request.side == (if resp.side@ == "BUY"@ {
                    Side::Buy
                } else {
                    Side::Sell
                })
                &&& t.request.order_type == type_of_name(resp.order_type_name@)
                &&& t.request.quantity == dec_or_zero(resp.orig_qty@)
                &&& t.request.price == decimal::decimal_parse(resp.price@)
                &&& t.request.stop_price is None
                &&& t.request.time_in_force is None
                &&& !t.request.reduce_only
                &&& t.request.strategy_name@ == "unknown"@
                &&& t.request.created_at_ms == now_ms
            },
        },
{
    let exec = parse_or_zero(&resp.executed_qty);
    let avg = if exec.gt(&Dec::zero()) {
        match parse_or_zero(&resp.cummulative_quote_qty).div(exec) {
            Some(a) => Some(a),
            None => return None,
        }
    } else {
        None
    };
    let request = OrderRequest {
        client_order_id: String::from_str(client_order_id),
        symbol: String::from_str(symbol),
        market_type: MarketType::Spot,
        side: parse_side(resp.side.as_str()),
        order_type: parse_order_type(resp.order_type_name.as_str()),
        quantity: parse_or_zero(&resp.orig_qty),
        price: Dec::parse(resp.price.as_str()),
        stop_price: None,
        time_in_force: None,
        reduce_only: false,
        strategy_name: String::from_str("unknown"),
        reason: OrderReason {
            strategy: String::from_str("query"),
            signal_type: String::from_str("query"),
            confidence: Dec::zero(),
            description: String::from_str("Queried from exchange"),
        },
        created_at_ms: now_ms,
    };
    Some(
        TrackedOrder {
            client_order_id: String::from_str(client_order_id),
            exchange_order_id: Some(int_to_string(resp.order_id as i128)),
            request,
            status: parse_order_status(resp.status.as_str()),
            filled_quantity: exec,
            average_fill_price: avg,
            commission: Dec::new(0, 0),
            commission_asset: None,
            submitted_at_ms: resp.transact_time,
            last_update_ms: now_ms,
            fill_events: Vec::new(),
        },
    )
}

} // verus!
