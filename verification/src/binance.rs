//! Records of the exchange's REST and WebSocket responses, and request
//! signing.
use vstd::prelude::*;
use hmac::{Hmac, Mac};
use sha2::Sha256;
use vstd::string::StringSliceAdditionalSpecFns;
use crate::decimal::{self, Dec};
use crate::execution::{OrderStatus, FillEvent, TrackedOrder};
use crate::types::{OrderRequest, Side, OrderType};
use crate::text::same_text;

verus! {

/// Binance kline/candlestick response element.
#[derive(Clone, Debug)]
pub struct BinanceKline {
    pub open_time: i64,
    pub open: String,
    pub high: String,
    pub low: String,
    pub close: String,
    pub volume: String,
    pub close_time: i64,
    pub quote_asset_volume: String,
    pub number_of_trades: u64,
    pub taker_buy_base: String,
    pub taker_buy_quote: String,
    pub ignore: String,
}

/// Binance order response.
#[derive(Clone, Debug)]
pub struct BinanceOrderResponse {
    pub symbol: String,
    pub order_id: u64,
    pub client_order_id: String,
    pub transact_time: Option<i64>,
    pub price: String,
    pub orig_qty: String,
    pub executed_qty: String,
    pub cummulative_quote_qty: String,
    pub status: String,
    pub order_type_name: String,
    pub side: String,
    pub fills: Vec<BinanceFill>,
}

/// A fill from Binance order response.
#[derive(Clone, Debug)]
pub struct BinanceFill {
    pub price: String,
    pub qty: String,
    pub commission: String,
    pub commission_asset: String,
}

/// Binance account balance.
#[derive(Clone, Debug)]
pub struct BinanceBalance {
    pub asset: String,
    pub free: String,
    pub locked: String,
}

/// Binance ticker price.
#[derive(Clone, Debug)]
pub struct BinanceTickerPrice {
    pub symbol: String,
    pub price: String,
}

/// Binance book ticker (best bid/ask).
#[derive(Clone, Debug)]
pub struct BinanceBookTicker {
    pub symbol: String,
    pub bid_price: String,
    pub bid_qty: String,
    pub ask_price: String,
    pub ask_qty: String,
}

/// WebSocket kline event.
#[derive(Clone, Debug)]
pub struct WsKlineEvent {
    pub event_type: String,
    pub event_time: i64,
    pub symbol: String,
    pub kline: WsKlineData,
}

#[derive(Clone, Debug)]
pub struct WsKlineData {
    pub start_time: i64,
    pub close_time: i64,
    pub symbol: String,
    pub interval: String,
    pub open: String,
    pub close: String,
    pub high: String,
    pub low: String,
    pub volume: String,
    pub number_of_trades: u64,
    pub is_closed: bool,
    pub quote_volume: String,
}

/// Binance account info response.
#[derive(Clone, Debug)]
pub struct BinanceAccountInfo {
    pub balances: Vec<BinanceBalance>,
}

/// Binance futures account info response (/fapi/v2/account).
#[derive(Clone, Debug)]
pub struct BinanceFuturesAccountInfo {
    pub assets: Vec<BinanceFuturesAsset>,
}

/// Binance futures asset balance.
#[derive(Clone, Debug)]
pub struct BinanceFuturesAsset {
    pub asset: String,
    pub wallet_balance: String,
    pub available_balance: String,
}

/// Binance listen key response.
#[derive(Clone, Debug)]
pub struct BinanceListenKey {
    pub listen_key: String,
}

/// User data stream: execution report (order update).
#[derive(Clone, Debug)]
pub struct WsExecutionReport {
    pub event_type: String,
    pub event_time: i64,
    pub symbol: String,
    pub client_order_id: String,
    pub side: String,
    pub order_type: String,
    pub orig_quantity: String,
    pub price: String,
    pub order_status: String,
    pub order_id: u64,
    pub last_filled_qty: String,
    pub last_filled_price: String,
    pub cumulative_filled_qty: String,
    pub cumulative_quote_qty: String,
    pub commission: String,
    pub commission_asset: Option<String>,
    pub transaction_time: i64,
}

/// User data stream events (can be execution report or balance update).
#[derive(Clone, Debug)]
pub enum WsUserDataEvent {
    ExecutionReport(WsExecutionReport),
    /// Futures order update event (ORDER_TRADE_UPDATE).
    OrderTradeUpdate(WsFuturesOrderUpdate),
    Other,
}

/// Futures ORDER_TRADE_UPDATE wrapper.
#[derive(Clone, Debug)]
pub struct WsFuturesOrderUpdate {
    /// Event time.
    pub event_time: i64,
    /// The order data is nested under "o".
    pub order: WsFuturesOrder,
}

/// Futures order detail inside ORDER_TRADE_UPDATE.
#[derive(Clone, Debug)]
pub struct WsFuturesOrder {
    pub symbol: String,
    pub client_order_id: String,
    pub side: String,
    pub order_type: String,
    pub orig_quantity: String,
    pub price: String,
    pub order_status: String,
    pub order_id: u64,
    pub last_filled_qty: String,
    pub last_filled_price: String,
    pub cumulative_filled_qty: String,
    pub cumulative_quote_qty: String,
    pub commission: String,
    pub commission_asset: Option<String>,
    pub transaction_time: i64,
    pub realized_profit: String,
}

/// Exchange info for symbol filters.
#[derive(Clone, Debug)]
pub struct BinanceExchangeInfo {
    pub symbols: Vec<BinanceSymbolInfo>,
}

#[derive(Clone, Debug)]
pub struct BinanceSymbolInfo {
    pub symbol: String,
    pub status: String,
    pub base_asset: String,
    pub quote_asset: String,
    /// The symbol's filters, each as JSON text.
    pub filters: Vec<String>,
}


// ---------------------------------------------------------------------------
// Reading order responses
// ---------------------------------------------------------------------------

/// The order status an exchange status name stands for (unknown names read
/// as submitted).
pub open spec fn status_of_name(s: Seq<char>) -> OrderStatus {
    if s == "NEW"@ {
        OrderStatus::Submitted
    } else if s == "PARTIALLY_FILLED"@ {
        OrderStatus::PartiallyFilled
    } else if s == "FILLED"@ {
        OrderStatus::Filled
    } else if s == "CANCELED"@ || s == "CANCELLED"@ {
        OrderStatus::Cancelled
    } else if s == "REJECTED"@ {
        OrderStatus::Rejected
    } else if s == "EXPIRED"@ {
        OrderStatus::Expired
    } else {
        OrderStatus::Submitted
    }
}

/// Reads an exchange status name.
pub fn parse_order_status(s: &str) -> (r: OrderStatus)
    ensures
        r == status_of_name(s@),
{
    if same_text(s, "NEW") {
        OrderStatus::Submitted
    } else if same_text(s, "PARTIALLY_FILLED") {
        OrderStatus::PartiallyFilled
    } else if same_text(s, "FILLED") {
        OrderStatus::Filled
    } else if same_text(s, "CANCELED") || same_text(s, "CANCELLED") {
        OrderStatus::Cancelled
    } else if same_text(s, "REJECTED") {
        OrderStatus::Rejected
    } else if same_text(s, "EXPIRED") {
        OrderStatus::Expired
    } else {
        OrderStatus::Submitted
    }
}

/// The order type an exchange type name stands for (unknown names read as
/// market orders).
pub open spec fn type_of_name(s: Seq<char>) -> OrderType {
    if s == "LIMIT"@ {
        OrderType::Limit
    } else if s == "STOP_LOSS"@ {
        OrderType::StopLoss
    } else if s == "STOP_LOSS_LIMIT"@ {
        OrderType::StopLossLimit
    } else if s == "TAKE_PROFIT"@ {
        OrderType::TakeProfit
    } else if s == "TAKE_PROFIT_LIMIT"@ {
        OrderType::TakeProfitLimit
    } else {
        OrderType::Market
    }
}

/// Reads an exchange order type name.
pub fn parse_order_type(s: &str) -> (r: OrderType)
    ensures
        r == type_of_name(s@),
{
    if same_text(s, "LIMIT") {
        OrderType::Limit
    } else if same_text(s, "STOP_LOSS") {
        OrderType::StopLoss
    } else if same_text(s, "STOP_LOSS_LIMIT") {
        OrderType::StopLossLimit
    } else if same_text(s, "TAKE_PROFIT") {
        OrderType::TakeProfit
    } else if same_text(s, "TAKE_PROFIT_LIMIT") {
        OrderType::TakeProfitLimit
    } else {
        OrderType::Market
    }
}

/// Reads an exchange side name (`"BUY"` buys, anything else sells).
pub fn parse_side(s: &str) -> (r: Side)
    ensures
        r == (if s@ == "BUY"@ {
            Side::Buy
        } else {
            Side::Sell
        }),
{
    if same_text(s, "BUY") {
        Side::Buy
    } else {
        Side::Sell
    }
}

/// A decimal field of a response (zero when it does not parse).
pub open spec fn dec_or_zero(s: Seq<char>) -> Dec {
    match decimal::decimal_parse(s) {
        Some(d) => d,
        None => decimal::dec_lit(0, 0),
    }
}

pub(crate) fn parse_or_zero(s: &String) -> (r: Dec)
    ensures
        r == dec_or_zero(s@),
{
    match Dec::parse(s.as_str()) {
        Some(d) => d,
        None => Dec::new(0, 0),
    }
}

/// Totals of a response's fills: quantity, quote amount (price times
/// quantity) and commission; `None` on overflow.
pub open spec fn fill_totals(fills: Seq<BinanceFill>) -> Option<(Dec, Dec, Dec)>
    decreases fills.len(),
{
    if fills.len() == 0 {
        Some((decimal::dec_zero(), decimal::dec_zero(), decimal::dec_zero()))
    } else {
        match fill_totals(fills.drop_last()) {
            Some((q, quote, c)) => {
                let f = fills.last();
                let price = dec_or_zero(f.price@);
                let qty = dec_or_zero(f.qty@);
                let comm = dec_or_zero(f.commission@);
                match (
                    decimal::add_spec(Some(q), Some(qty)),
                    decimal::add_spec(Some(quote), decimal::mul_spec(Some(price), Some(qty))),
                    decimal::add_spec(Some(c), Some(comm)),
                ) {
                    (Some(q2), Some(quote2), Some(c2)) => Some((q2, quote2, c2)),
                    _ => None,
                }
            },
            None => None,
        }
    }
}

/// The filled quantity and average price of an order response: from the
/// fills when they hold a positive quantity, else from the executed and
/// cumulative quote quantities.  `None` on overflow.
pub open spec fn response_fill(resp: BinanceOrderResponse) -> Option<(Dec, Option<Dec>)> {
    match fill_totals(resp.fills@) {
        None => None,
        Some((q, quote, _)) => if q@ > 0 {
            match decimal::div_spec(Some(quote), Some(q)) {
                Some(avg) => Some((q, Some(avg))),
                None => None,
            }
        } else {
            let exec = dec_or_zero(resp.executed_qty@);
            let cum = dec_or_zero(resp.cummulative_quote_qty@);
            if exec@ > 0 {
                match decimal::div_spec(Some(cum), Some(exec)) {
                    Some(avg) => Some((exec, Some(avg))),
                    None => None,
                }
            } else {
                Some((q, None))
            }
        },
    }
}

/// The tracked order an order response describes, stamped `now_ms`;
/// `None` when an amount overflows.
pub fn tracked_from_response(
    request: &OrderRequest,
    resp: &BinanceOrderResponse,
    exchange_order_id: String,
    now_ms: i64,
) -> (r: Option<TrackedOrder>)
    ensures
        match (response_fill(*resp), fill_totals(resp.fills@)) {
            (Some((qty, avg)), Some((_, _, comm))) => r matches Some(t) && t.filled_quantity == qty
                && t.average_fill_price == avg && t.commission == comm && t.status == status_of_name(
                resp.status@,
            ) && t.request == *request && t.client_order_id@ == request.client_order_id@
                && t.fill_events@.len() == resp.fills@.len() && t.commission_asset == (if resp.fills@.len()
                > 0 {
                Some(resp.fills@.last().commission_asset)
            } else {
                None
            }) && t.last_update_ms == now_ms,
            _ => r is None,
        },
{
    let mut total_qty = Dec::zero();
    let mut total_quote = Dec::zero();
    let mut total_comm = Dec::zero();
    let mut asset: Option<String> = None;
    let mut events: Vec<FillEvent> = Vec::new();
    let mut i: usize = 0;
    while i < resp.fills.len()
        invariant
            i <= resp.fills@.len(),
            fill_totals(resp.fills@.subrange(0, i as int)) == Some((total_qty, total_quote, total_comm)),
            events@.len() == i,
            asset == (if i > 0 {
                Some(resp.fills@[i - 1].commission_asset)
            } else {
                None
            }),
        decreases resp.fills@.len() - i,
    {
        assert(resp.fills@.subrange(0, i + 1).drop_last() =~= resp.fills@.subrange(0, i as int));
        let f = &resp.fills[i];
        let price = parse_or_zero(&f.price);
        let qty = parse_or_zero(&f.qty);
        let comm = parse_or_zero(&f.commission);
        let q2 = total_qty.add(qty);
        let quote2 = decimal::add_opt(Some(total_quote), price.mul(qty));
        let c2 = total_comm.add(comm);
        match (q2, quote2, c2) {
            (Some(a), Some(b), Some(c)) => {
                total_qty = a;
                total_quote = b;
                total_comm = c;
            },
            _ => {
                proof {
                    lemma_totals_none_stays(resp.fills@, i as int + 1);
                }
                return None;
            },
        }
        asset = Some(f.commission_asset.clone());
        events.push(
            FillEvent {
                timestamp_ms: now_ms,
                price,
                quantity: qty,
                commission: comm,
                commission_asset: f.commission_asset.clone(),
            },
        );
        i = i + 1;
    }
    assert(resp.fills@.subrange(0, resp.fills@.len() as int) =~= resp.fills@);
    let (qty, avg) = if total_qty.gt(&Dec::zero()) {
        match total_quote.div(total_qty) {
            Some(a) => (total_qty, Some(a)),
            None => return None,
        }
    } else {
        let exec = parse_or_zero(&resp.executed_qty);
        let cum = parse_or_zero(&resp.cummulative_quote_qty);
        if exec.gt(&Dec::zero()) {
            match cum.div(exec) {
                Some(a) => (exec, Some(a)),
                None => return None,
            }
        } else {
            (total_qty, None)
        }
    };
    Some(
        TrackedOrder {
            client_order_id: request.client_order_id.clone(),
            exchange_order_id: Some(exchange_order_id),
            request: request.duplicate(),
            status: parse_order_status(resp.status.as_str()),
            filled_quantity: qty,
            average_fill_price: avg,
            commission: total_comm,
            commission_asset: asset,
            submitted_at_ms: Some(now_ms),
            last_update_ms: now_ms,
            fill_events: events,
        },
    )
}

/// Once the fill totals overflow, longer prefixes overflow too.
proof fn lemma_totals_none_stays(fills: Seq<BinanceFill>, k: int)
    requires
        0 < k <= fills.len(),
        fill_totals(fills.subrange(0, k)) is None,
    ensures
        fill_totals(fills) is None,
    decreases fills.len() - k,
{
    if k < fills.len() {
        assert(fills.subrange(0, k + 1).drop_last() =~= fills.subrange(0, k));
        lemma_totals_none_stays(fills, k + 1);
    } else {
        assert(fills.subrange(0, k) =~= fills);
    }
}

// ---------------------------------------------------------------------------
// Request signing
// ---------------------------------------------------------------------------

/// The HMAC-SHA256 tag of `msg` under `key`.
pub uninterp spec fn hmac_sha256(key: Seq<u8>, msg: Seq<u8>) -> Seq<u8>;

/// Computes HMAC-SHA256 (`hmac::Hmac<sha2::Sha256>`: `new_from_slice`,
/// `update`, `finalize`).  The tag is the named function of key and message
/// and is 32 bytes long (SHA-256's output size).  HMAC accepts keys of any
/// length, so the construction never fails.
#[verifier::external_body]
fn hmac_sha256_raw(key: &[u8], msg: &[u8]) -> (r: Vec<u8>)
    ensures
        r@ == hmac_sha256(key@, msg@),
        r@.len() == 32,
{
    let mut mac = <Hmac<Sha256> as Mac>::new_from_slice(key).expect("HMAC accepts any key length");
    mac.update(msg);
    mac.finalize().into_bytes().to_vec()
}

/// Lower-case hexadecimal digit of a value below 16.
pub open spec fn hex_digit(n: int) -> char {
    if n < 10 {
        (48 + n) as char
    } else {
        (87 + n) as char
    }
}

/// Two lower-case hexadecimal digits per byte, in order.
pub open spec fn hex_of(bytes: Seq<u8>) -> Seq<char>
    decreases bytes.len(),
{
    if bytes.len() == 0 {
        Seq::empty()
    } else {
        hex_of(bytes.drop_last()) + seq![
            hex_digit(bytes.last() as int / 16),
            hex_digit(bytes.last() as int % 16),
        ]
    }
}

/// Calls `hex::encode`, which writes each byte as two lower-case
/// hexadecimal digits.
#[verifier::external_body]
fn hex_encode(data: &[u8]) -> (r: String)
    ensures
        r@ == hex_of(data@),
{
    hex::encode(data)
}

/// Signs a query string: the lower-case hex of its HMAC-SHA256 tag under
/// the secret (both taken as UTF-8 bytes).
pub fn sign_query(query: &str, secret: &str) -> (r: String)
    ensures
        r@ == hex_of(hmac_sha256(secret.spec_bytes(), query.spec_bytes())),
        r@.len() == 64,
        forall|i: int| 0 <= i < r@.len() ==> is_lower_hex(#[trigger] r@[i]),
{
    let tag = hmac_sha256_raw(secret.as_bytes(), query.as_bytes());
    let r = hex_encode(tag.as_slice());
    proof {
        lemma_hex_len(tag@);
        lemma_hex_chars(tag@);
    }
    r
}

/// A lower-case hexadecimal digit.
pub open spec fn is_lower_hex(c: char) -> bool {
    ('0' <= c && c <= '9') || ('a' <= c && c <= 'f')
}

/// Every character of a hex text is a lower-case hexadecimal digit.
pub proof fn lemma_hex_chars(bytes: Seq<u8>)
    ensures
        forall|i: int| 0 <= i < hex_of(bytes).len() ==> is_lower_hex(#[trigger] hex_of(bytes)[i]),
    decreases bytes.len(),
{
    if bytes.len() > 0 {
        lemma_hex_chars(bytes.drop_last());
        lemma_hex_len(bytes.drop_last());
        let b = bytes.last() as int;
        assert(0 <= b / 16 < 16 && 0 <= b % 16 < 16);
        assert forall|i: int| 0 <= i < hex_of(bytes).len() implies is_lower_hex(
            #[trigger] hex_of(bytes)[i],
        ) by {
            if i < hex_of(bytes.drop_last()).len() {
                assert(hex_of(bytes)[i] == hex_of(bytes.drop_last())[i]);
            }
        }
    }
}

/// A signature has two hex digits per tag byte.
pub proof fn lemma_hex_len(bytes: Seq<u8>)
    ensures
        hex_of(bytes).len() == 2 * bytes.len(),
    decreases bytes.len(),
{
    if bytes.len() > 0 {
        lemma_hex_len(bytes.drop_last());
    }
}

/// Every signature is 64 characters long: nothing a secret or query holds
/// can make it empty or change its size.
pub proof fn law_signature_length(query: Seq<u8>, secret: Seq<u8>)
    requires
        hmac_sha256(secret, query).len() == 32,
    ensures
        hex_of(hmac_sha256(secret, query)).len() == 64,
{
    lemma_hex_len(hmac_sha256(secret, query));
}

} // verus!
