//! Decisions of the live trading loop: turning a strategy signal into a
//! sized, risk-checked order, and booking fills into positions and equity.
//! The exchange, the journal and the clock are driven by the caller.
use vstd::prelude::*;
use crate::decimal::{self, Dec, mul_opt, div_opt, sub_opt};
use crate::types::{
    Candle, Position, PositionSide, Side, OrderType, Signal, SignalDirection, OrderRequest,
    OrderReason, RiskVerdict, TradeRecord, position_is_flat, KillSwitchType, KillSwitchState,
};
use crate::config::{RiskConfig, PortfolioConfig};
use crate::execution::{BracketPair, OrderStatus, TrackedOrder};
use crate::risk::concat4;
use crate::portfolio::{
    PortfolioManager, PortfolioView, positions_wf, index_of_key, position_key, key_of,
    position_size_spec,
};
use crate::risk::{RiskEngine, RiskView, reset_counters, risk_decision, verdict_matches, state_after,
    after_trade, now_millis};
use crate::backtest::{trade_pnl_spec, compute_trade_pnl};
use crate::text::{chars_of, find_chars, find_first};
use crate::models::random_uuid_simple;

verus! {

/// The order a signal calls for, before the risk check.
pub enum OrderBuild {
    /// Nothing to do (zero size, or no open position to exit).
    Skip,
    /// An amount overflowed the decimal range.
    Overflow,
    /// An order, and whether bracket orders of the position must be
    /// cancelled first.
    Order { request: OrderRequest, cancel_brackets: bool },
}

/// The name `{:?}` gives a signal direction.
pub open spec fn direction_debug(d: SignalDirection) -> Seq<char> {
    match d {
        SignalDirection::Long => "Long"@,
        SignalDirection::Short => "Short"@,
        SignalDirection::Flat => "Flat"@,
        SignalDirection::ReduceLong => "ReduceLong"@,
        SignalDirection::ReduceShort => "ReduceShort"@,
    }
}

fn direction_name(d: SignalDirection) -> (r: &'static str)
    ensures
        r@ == direction_debug(d),
{
    match d {
        SignalDirection::Long => "Long",
        SignalDirection::Short => "Short",
        SignalDirection::Flat => "Flat",
        SignalDirection::ReduceLong => "ReduceLong",
        SignalDirection::ReduceShort => "ReduceShort",
    }
}

/// Order side for a signal and whether the position's brackets are
/// cancelled: entries buy or sell; exits of a long sell and of a short buy
/// (and need an open position); reducing a short buys.
pub open spec fn order_side(pv: PortfolioView, s: Signal) -> Option<(Side, bool)> {
    match s.direction {
        SignalDirection::Long => Some((Side::Buy, false)),
        SignalDirection::Short => Some((Side::Sell, false)),
        SignalDirection::ReduceShort => Some((Side::Buy, true)),
        _ => match index_of_key(pv.positions, position_key(s.symbol@, s.strategy_name@)) {
            Some(i) => if position_is_flat(pv.positions[i]) {
                None
            } else {
                match pv.positions[i].side {
                    PositionSide::Long => Some((Side::Sell, true)),
                    PositionSide::Short => Some((Side::Buy, true)),
                    PositionSide::Flat => None,
                }
            },
            None => None,
        },
    }
}

/// The order quantity: the portfolio's size, raised to reach the minimum
/// notional (plus 1%) when below it.  `None` on overflow, `Some(None)` for
/// a zero size.
pub open spec fn order_quantity(pv: PortfolioView, s: Signal, price: Dec, min_notional: Dec) -> Option<
    Option<Dec>,
> {
    match position_size_spec(pv, s, price, None) {
        None => None,
        Some(size) => match decimal::mul_spec(Some(size), Some(price)) {
            None => None,
            Some(notional) => if size@ <= 0 {
                Some(None)
            } else if notional@ < min_notional@ && price@ > 0 {
                match decimal::mul_spec(
                    decimal::div_spec(Some(min_notional), Some(price)),
                    Some(decimal::dec_lit(101, 2)),
                ) {
                    Some(q) => Some(Some(q)),
                    None => None,
                }
            } else {
                Some(Some(size))
            },
        },
    }
}

/// The trading fields of the market order for a signal.
pub open spec fn order_is(
    r: OrderRequest,
    s: Signal,
    side: Side,
    quantity: Dec,
    price: Dec,
) -> bool {
    &&& r.symbol@ == s.symbol@
    &&& r.market_type == s.market_type
    &&& r.side == side
    &&& r.order_type == OrderType::Market
    &&& r.quantity == quantity
    &&& r.price == Some(price)
    &&& r.stop_price is None
    &&& r.reduce_only == (s.direction == SignalDirection::Flat || s.direction
        == SignalDirection::ReduceLong || s.direction == SignalDirection::ReduceShort)
    &&& r.strategy_name@ == s.strategy_name@
    &&& r.reason.strategy@ == s.strategy_name@
    &&& r.reason.signal_type@ == direction_debug(s.direction)
    &&& r.reason.confidence == s.confidence
}

/// Whether an order error is a margin or sizing error (code -2019 or
/// "Margin is insufficient"), which does not count as a rejection anomaly.
pub open spec fn is_margin_error_spec(message: Seq<char>) -> bool {
    find_first(message, "-2019"@) is Some || find_first(message, "Margin is insufficient"@) is Some
}

/// Whether an order error is a margin or sizing error.
pub fn is_margin_error(message: &str) -> (r: bool)
    ensures
        r == is_margin_error_spec(message@),
{
    let cs = chars_of(message);
    let code = chars_of("-2019");
    let text = chars_of("Margin is insufficient");
    find_chars(&cs, &code).is_some() || find_chars(&cs, &text).is_some()
}

/// The `key=value` pairs of `s`, separated by commas.
pub open spec fn pairs_text(s: Seq<(String, String)>) -> Seq<char>
    decreases s.len(),
{
    if s.len() == 0 {
        Seq::empty()
    } else {
        pairs_text(s.drop_last()) + (if s.len() > 1 {
            ","@
        } else {
            Seq::empty()
        }) + s.last().0@ + "="@ + s.last().1@
    }
}

/// The signal inputs as `key=value` pairs separated by commas, in braces.
fn describe_inputs(inputs: &Vec<(String, String)>) -> (r: String)
    ensures
        r@ == "{"@ + pairs_text(inputs@) + "}"@,
{
    let mut out = String::from_str("{");
    let mut i: usize = 0;
    while i < inputs.len()
        invariant
            i <= inputs@.len(),
            out@ == "{"@ + pairs_text(inputs@.take(i as int)),
        decreases inputs@.len() - i,
    {
        let ghost before = out@;
        assert(inputs@.take(i as int + 1).drop_last() =~= inputs@.take(i as int));
        if i > 0 {
            out.append(",");
        }
        out.append(inputs[i].0.as_str());
        out.append("=");
        out.append(inputs[i].1.as_str());
        proof {
            let t = inputs@.take(i as int + 1);
            assert(t.last() == inputs@[i as int]);
            assert(t.len() > 1 <==> i > 0);
            if i > 0 {
                assert(out@ =~= before + ","@ + inputs@[i as int].0@ + "="@ + inputs@[i as int].1@);
            } else {
                assert(out@ =~= before + inputs@[i as int].0@ + "="@ + inputs@[i as int].1@);
            }
            assert(out@ =~= "{"@ + pairs_text(t));
        }
        i = i + 1;
    }
    assert(inputs@.take(inputs@.len() as int) =~= inputs@);
    out.append("}");
    out
}

/// Net PnL of closing `pos` at `exit_price` after `commission`.
pub open spec fn exit_pnl(pos: Position, exit_price: Dec, commission: Dec) -> Option<Dec> {
    decimal::sub_spec(
        trade_pnl_spec(pos.side, pos.entry_price, pos.quantity, exit_price),
        Some(commission),
    )
}

/// Same risk state, portfolio and settings.
pub open spec fn unchanged(a: TradingCore, b: TradingCore) -> bool {
    a.risk_engine@ == b.risk_engine@ && a.portfolio == b.portfolio && a.min_order_size_usd
        == b.min_order_size_usd
}

/// The decision state of the live loop: risk engine and portfolio.
pub struct TradingCore {
    pub risk_engine: RiskEngine,
    pub portfolio: PortfolioManager,
    pub min_order_size_usd: Dec,
}

impl TradingCore {
    /// A fresh risk engine and portfolio, both starting from the portfolio's
    /// initial capital.
    pub fn new(risk: RiskConfig, portfolio: PortfolioConfig, min_order_size_usd: Dec) -> (r: Self)
        ensures
            r.risk_engine@.config == risk,
            forall|k: KillSwitchType| r.risk_engine@.kill_switches[k] == KillSwitchState::Active,
            r.risk_engine@.daily_pnl == decimal::dec_lit(0, 0),
            r.risk_engine@.daily_trade_count == 0,
            r.risk_engine@.peak_equity == portfolio.initial_capital,
            r.risk_engine@.current_equity == portfolio.initial_capital,
            positions_wf(r.portfolio@.positions),
            r.portfolio@.config == portfolio,
            r.portfolio@.positions.len() == 0,
            r.portfolio@.equity == portfolio.initial_capital,
            r.portfolio@.peak_equity == portfolio.initial_capital,
            r.min_order_size_usd == min_order_size_usd,
    {
        let capital = portfolio.initial_capital;
        TradingCore {
            risk_engine: RiskEngine::new(risk, capital),
            portfolio: PortfolioManager::new(portfolio),
            min_order_size_usd,
        }
    }

    /// The order a signal calls for at `now_ms` (before the risk check).
    pub fn build_order_at(&self, signal: &Signal, candle: &Candle, now_ms: i64) -> (r: OrderBuild)
        requires
            positions_wf(self.portfolio@.positions),
        ensures
            match order_quantity(self.portfolio@, *signal, candle.close, self.min_order_size_usd) {
                None => r is Overflow,
                Some(None) => r is Skip,
                Some(Some(q)) => match order_side(self.portfolio@, *signal) {
                    None => r is Skip,
                    Some((side, cancel)) => r matches OrderBuild::Order { request, cancel_brackets }
                        && order_is(request, *signal, side, q, candle.close) && cancel_brackets
                        == cancel && request.created_at_ms == now_ms,
                },
            },
    {
        let size = match self.portfolio.compute_position_size(signal, candle.close, None) {
            Some(q) => q,
            None => return OrderBuild::Overflow,
        };
        let notional = match size.mul(candle.close) {
            Some(n) => n,
            None => return OrderBuild::Overflow,
        };
        if size.le(&Dec::zero()) {
            return OrderBuild::Skip;
        }
        let quantity = if notional.lt(&self.min_order_size_usd) && candle.close.gt(&Dec::zero()) {
            match mul_opt(self.min_order_size_usd.div(candle.close), Some(Dec::new(101, 2))) {
                Some(q) => q,
                None => return OrderBuild::Overflow,
            }
        } else {
            size
        };
        let (side, cancel) = match signal.direction {
            SignalDirection::Long => (Side::Buy, false),
            SignalDirection::Short => (Side::Sell, false),
            SignalDirection::ReduceShort => (Side::Buy, true),
            _ => match self.portfolio.get_position(&signal.symbol, &signal.strategy_name) {
                Some(p) => {
                    if p.is_flat() {
                        return OrderBuild::Skip;
                    }
                    match p.side {
                        PositionSide::Long => (Side::Sell, true),
                        PositionSide::Short => (Side::Buy, true),
                        PositionSide::Flat => return OrderBuild::Skip,
                    }
                },
                None => return OrderBuild::Skip,
            },
        };
        let reduce_only = match signal.direction {
            SignalDirection::Flat | SignalDirection::ReduceLong | SignalDirection::ReduceShort => true,
            _ => false,
        };
        let request = OrderRequest {
            client_order_id: random_uuid_simple(),
            symbol: signal.symbol.clone(),
            market_type: signal.market_type,
            side,
            order_type: OrderType::Market,
            quantity,
            price: Some(candle.close),
            stop_price: None,
            time_in_force: None,
            reduce_only,
            strategy_name: signal.strategy_name.clone(),
            reason: OrderReason {
                strategy: signal.strategy_name.clone(),
                signal_type: String::from_str(direction_name(signal.direction)),
                confidence: signal.confidence,
                description: describe_inputs(&signal.metadata.signal_inputs),
            },
            created_at_ms: now_ms,
        };
        OrderBuild::Order { request, cancel_brackets: cancel }
    }

    /// Runs the pre-trade risk check on `request` at `now_ms` against the
    /// open positions.  `Ok` carries the order to submit (its quantity
    /// reduced when the check says so), `Err` the rejection reason; `None`
    /// when the check overflows.
    pub fn review_order_at(&mut self, signal: &Signal, request: OrderRequest, now_ms: i64) -> (r:
        Option<Result<OrderRequest, String>>)
        requires
            positions_wf(old(self).portfolio@.positions),
        ensures
            positions_wf(final(self).portfolio@.positions),
            final(self).portfolio == old(self).portfolio,
            final(self).min_order_size_usd == old(self).min_order_size_usd,
            ({
                let v = reset_counters(old(self).risk_engine@, now_ms);
                match risk_decision(v, signal.confidence, request, old(self).portfolio@.positions) {
                    None => r is None && final(self).risk_engine@ == v,
                    Some(d) => final(self).risk_engine@ == state_after(v, d) && (exists|verdict: RiskVerdict|
                        #![trigger verdict_matches(verdict, d, v.config, signal.confidence, request.symbol@)]
                        verdict_matches(verdict, d, v.config, signal.confidence, request.symbol@)
                            && match verdict {
                            RiskVerdict::Approved => r == Some(Ok::<OrderRequest, String>(request)),
                            RiskVerdict::Rejected { reason } => r matches Some(Err(m)) && m@ == reason@,
                            RiskVerdict::ReducedSize { new_quantity, reason } => r == Some(
                                Ok::<OrderRequest, String>(OrderRequest { quantity: new_quantity, ..request }),
                            ),
                        }),
                }
            }),
    {
        let positions = self.portfolio.positions_vec();
        match self.risk_engine.check_order_at(now_ms, signal, &request, positions.as_slice()) {
            None => None,
            Some(verdict) => {
                let ghost vd = verdict;
                match verdict {
                    RiskVerdict::Approved => Some(Ok(request)),
                    RiskVerdict::Rejected { reason } => Some(Err(reason)),
                    RiskVerdict::ReducedSize { new_quantity, reason } => {
                        let mut reduced = request;
                        reduced.quantity = new_quantity;
                        Some(Ok(reduced))
                    },
                }
            },
        }
    }

    /// Books an exit fill of the strategy's position in `symbol`: the net
    /// PnL goes to the risk engine, the portfolio takes the engine's equity
    /// and the position is removed.  Returns the journal record, or `None`
    /// (nothing changed) without an open position or on overflow.
    pub fn book_exit_fill(
        &mut self,
        signal: &Signal,
        client_order_id: &String,
        side: Side,
        filled_quantity: Dec,
        fill_price: Dec,
        commission: Dec,
        commission_asset: &String,
        now_ms: i64,
    ) -> (r: Option<TradeRecord>)
        requires
            positions_wf(old(self).portfolio@.positions),
            old(self).risk_engine@.daily_trade_count < usize::MAX,
        ensures
            positions_wf(final(self).portfolio@.positions),
            ({
                let pv = old(self).portfolio@;
                match index_of_key(pv.positions, position_key(signal.symbol@, signal.strategy_name@)) {
                    None => r is None && unchanged(*final(self), *old(self)),
                    Some(i) => {
                        let pos = pv.positions[i];
                        match exit_pnl(pos, fill_price, commission) {
                            Some(pnl) => match after_trade(old(self).risk_engine@, pnl) {
                                Some(rv) => {
                                    &&& final(self).risk_engine@ == rv
                                    &&& final(self).portfolio@.equity == rv.current_equity
                                    &&& final(self).portfolio@.positions == pv.positions.remove(i)
                                    &&& r matches Some(t) && t.realized_pnl == Some(pnl)
                                        && t.price == fill_price && t.quantity == filled_quantity
                                        && t.side == side && t.commission == commission
                                        && t.symbol@ == signal.symbol@ && t.strategy_name@
                                        == signal.strategy_name@ && t.client_order_id@
                                        == client_order_id@ && t.timestamp_ms == now_ms
                                },
                                None => r is None && unchanged(*final(self), *old(self)),
                            },
                            None => r is None && unchanged(*final(self), *old(self)),
                        }
                    },
                }
            }),
    {
        let pos = match self.portfolio.get_position(&signal.symbol, &signal.strategy_name) {
            Some(p) => p.duplicate(),
            None => return None,
        };
        let pnl = match sub_opt(compute_trade_pnl(&pos, fill_price), Some(commission)) {
            Some(p) => p,
            None => return None,
        };
        if !self.risk_engine.record_trade(pnl) {
            return None;
        }
        let equity = self.risk_engine.current_equity();
        self.portfolio.update_equity(equity);
        let mut closed = pos.duplicate();
        closed.side = PositionSide::Flat;
        closed.quantity = Dec::new(0, 0);
        closed.realized_pnl = pnl;
        self.portfolio.update_position(closed);
        Some(
            TradeRecord {
                trade_id: random_uuid_simple(),
                client_order_id: client_order_id.clone(),
                symbol: signal.symbol.clone(),
                market_type: signal.market_type,
                side,
                quantity: filled_quantity,
                price: fill_price,
                commission,
                commission_asset: commission_asset.clone(),
                realized_pnl: Some(pnl),
                strategy_name: signal.strategy_name.clone(),
                timestamp_ms: now_ms,
            },
        )
    }

    /// Books an entry fill: stores the position (long for a buy, short for
    /// a sell) at the fill price and returns the journal record.
    pub fn book_entry_fill(
        &mut self,
        signal: &Signal,
        client_order_id: &String,
        side: Side,
        filled_quantity: Dec,
        fill_price: Dec,
        commission: Dec,
        commission_asset: &String,
        now_ms: i64,
    ) -> (r: TradeRecord)
        requires
            positions_wf(old(self).portfolio@.positions),
        ensures
            positions_wf(final(self).portfolio@.positions),
            final(self).risk_engine == old(self).risk_engine,
            final(self).portfolio@.equity == old(self).portfolio@.equity,
            ({
                let pos = Position {
                    symbol: signal.symbol,
                    market_type: signal.market_type,
                    side: match side {
                        Side::Buy => PositionSide::Long,
                        Side::Sell => PositionSide::Short,
                    },
                    quantity: filled_quantity,
                    entry_price: fill_price,
                    current_price: fill_price,
                    unrealized_pnl: decimal::dec_lit(0, 0),
                    realized_pnl: decimal::dec_lit(0, 0),
                    total_commission: commission,
                    leverage: decimal::dec_lit(1, 0),
                    liquidation_price: None,
                    opened_at_ms: now_ms,
                    last_update_ms: now_ms,
                    strategy_name: signal.strategy_name,
                };
                let old_ps = old(self).portfolio@.positions;
                final(self).portfolio@.positions == if position_is_flat(pos) {
                    match index_of_key(old_ps, key_of(pos)) {
                        Some(i) => old_ps.remove(i),
                        None => old_ps,
                    }
                } else {
                    match index_of_key(old_ps, key_of(pos)) {
                        Some(i) => old_ps.update(i, pos),
                        None => old_ps.push(pos),
                    }
                }
            }),
            r.realized_pnl is None,
            r.price == fill_price,
            r.quantity == filled_quantity,
            r.side == side,
            r.commission == commission,
            r.symbol@ == signal.symbol@,
            r.client_order_id@ == client_order_id@,
    {
        let position = Position {
            symbol: signal.symbol.clone(),
            market_type: signal.market_type,
            side: match side {
                Side::Buy => PositionSide::Long,
                Side::Sell => PositionSide::Short,
            },
            quantity: filled_quantity,
            entry_price: fill_price,
            current_price: fill_price,
            unrealized_pnl: Dec::new(0, 0),
            realized_pnl: Dec::new(0, 0),
            total_commission: commission,
            leverage: Dec::new(1, 0),
            liquidation_price: None,
            opened_at_ms: now_ms,
            last_update_ms: now_ms,
            strategy_name: signal.strategy_name.clone(),
        };
        self.portfolio.update_position(position);
        TradeRecord {
            trade_id: random_uuid_simple(),
            client_order_id: client_order_id.clone(),
            symbol: signal.symbol.clone(),
            market_type: signal.market_type,
            side,
            quantity: filled_quantity,
            price: fill_price,
            commission,
            commission_asset: commission_asset.clone(),
            realized_pnl: None,
            strategy_name: signal.strategy_name.clone(),
            timestamp_ms: now_ms,
        }
    }
}

/// The first stored position in `symbol`.
pub open spec fn first_in_symbol(ps: Seq<Position>, symbol: Seq<char>) -> Option<int>
    decreases ps.len(),
{
    if ps.len() == 0 {
        None
    } else if ps[0].symbol@ == symbol {
        Some(0)
    } else {
        match first_in_symbol(ps.drop_first(), symbol) {
            Some(i) => Some(i + 1),
            None => None,
        }
    }
}

proof fn lemma_first_in_symbol(ps: Seq<Position>, symbol: Seq<char>, i: int)
    requires
        0 <= i < ps.len(),
        ps[i].symbol@ == symbol,
        forall|j: int| 0 <= j < i ==> (#[trigger] ps[j]).symbol@ != symbol,
    ensures
        first_in_symbol(ps, symbol) == Some(i),
    decreases i,
{
    if i > 0 {
        let t = ps.drop_first();
        assert(ps[0].symbol@ != symbol);
        assert forall|j: int| 0 <= j < i - 1 implies (#[trigger] t[j]).symbol@ != symbol by {
            assert(t[j] == ps[j + 1]);
        }
        lemma_first_in_symbol(t, symbol, i - 1);
    }
}

proof fn lemma_first_in_symbol_none(ps: Seq<Position>, symbol: Seq<char>)
    requires
        forall|j: int| 0 <= j < ps.len() ==> (#[trigger] ps[j]).symbol@ != symbol,
    ensures
        first_in_symbol(ps, symbol) is None,
    decreases ps.len(),
{
    if ps.len() > 0 {
        let t = ps.drop_first();
        assert forall|j: int| 0 <= j < t.len() implies (#[trigger] t[j]).symbol@ != symbol by {
            assert(t[j] == ps[j + 1]);
        }
        lemma_first_in_symbol_none(t, symbol);
    }
}

proof fn lemma_index_of_key_at(ps: Seq<Position>, k: int)
    requires
        positions_wf(ps),
        0 <= k < ps.len(),
    ensures
        index_of_key(ps, key_of(ps[k])) == Some(k),
{
    let key = key_of(ps[k]);
    let c = choose|i: int| 0 <= i < ps.len() && key_of(ps[i]) == key;
    if c < k {
        assert(key_of(ps[c]) != key_of(ps[k]));
    }
    if k < c {
        assert(key_of(ps[k]) != key_of(ps[c]));
    }
}

/// The index of the first position in `symbol`.
fn first_position_in(positions: &Vec<Position>, symbol: &String) -> (r: Option<usize>)
    ensures
        r matches Some(k) ==> k < positions@.len() && first_in_symbol(positions@, symbol@) == Some(k as int)
            && positions@[k as int].symbol@ == symbol@,
        r is None ==> first_in_symbol(positions@, symbol@) is None,
{
    let mut i: usize = 0;
    while i < positions.len()
        invariant
            i <= positions@.len(),
            forall|j: int| 0 <= j < i ==> (#[trigger] positions@[j]).symbol@ != symbol@,
        decreases positions@.len() - i,
    {
        if positions[i].symbol == *symbol {
            proof {
                lemma_first_in_symbol(positions@, symbol@, i as int);
            }
            return Some(i);
        }
        i = i + 1;
    }
    proof {
        lemma_first_in_symbol_none(positions@, symbol@);
    }
    None
}

/// The side that closes a position.
pub open spec fn closing_side(side: PositionSide) -> Side {
    match side {
        PositionSide::Short => Side::Buy,
        _ => Side::Sell,
    }
}

impl TradingCore {
    #[verifier::rlimit(40)]
    /// Books the fill of a bracket leg: the first position in `symbol` is
    /// closed at the average fill price (its mark price without one); the
    /// net PnL goes to the risk engine and the portfolio takes the engine's
    /// equity.  Returns the journal record, or `None` (nothing changed)
    /// without a position or on overflow.
    pub fn book_bracket_exit(
        &mut self,
        symbol: &String,
        client_order_id: &String,
        filled_quantity: Dec,
        average_fill_price: Option<Dec>,
        commission: Dec,
        now_ms: i64,
    ) -> (r: Option<TradeRecord>)
        requires
            positions_wf(old(self).portfolio@.positions),
            old(self).risk_engine@.daily_trade_count < usize::MAX,
        ensures
            positions_wf(final(self).portfolio@.positions),
            ({
                let pv = old(self).portfolio@;
                match first_in_symbol(pv.positions, symbol@) {
                    None => r is None && unchanged(*final(self), *old(self)),
                    Some(i) => {
                        let pos = pv.positions[i];
                        let exit_price = match average_fill_price {
                            Some(p) => p,
                            None => pos.current_price,
                        };
                        match exit_pnl(pos, exit_price, commission) {
                            Some(pnl) => match after_trade(old(self).risk_engine@, pnl) {
                                Some(rv) => {
                                    &&& final(self).risk_engine@ == rv
                                    &&& final(self).portfolio@.equity == rv.current_equity
                                    &&& final(self).portfolio@.positions == pv.positions.remove(i)
                                    &&& r matches Some(t) && t.realized_pnl == Some(pnl)
                                        && t.price == exit_price && t.quantity == filled_quantity
                                        && t.side == closing_side(pos.side) && t.commission == commission
                                        && t.commission_asset@ == "USDT"@ && t.symbol@ == symbol@
                                        && t.strategy_name@ == pos.strategy_name@
                                        && t.client_order_id@ == client_order_id@
                                        && t.timestamp_ms == now_ms
                                },
                                None => r is None && unchanged(*final(self), *old(self)),
                            },
                            None => r is None && unchanged(*final(self), *old(self)),
                        }
                    },
                }
            }),
    {
        let positions = self.portfolio.positions_vec();
        let k = match first_position_in(&positions, symbol) {
            Some(k) => k,
            None => return None,
        };
        let pos = positions[k].duplicate();
        let exit_price = match average_fill_price {
            Some(p) => p,
            None => pos.current_price,
        };
        let pnl = match sub_opt(compute_trade_pnl(&pos, exit_price), Some(commission)) {
            Some(p) => p,
            None => return None,
        };
        if !self.risk_engine.record_trade(pnl) {
            return None;
        }
        let equity = self.risk_engine.current_equity();
        self.portfolio.update_equity(equity);
        let side = match pos.side {
            PositionSide::Short => Side::Buy,
            _ => Side::Sell,
        };
        let mut closed = pos.duplicate();
        closed.side = PositionSide::Flat;
        closed.quantity = Dec::new(0, 0);
        closed.realized_pnl = pnl;
        proof {
            assert(key_of(closed) == key_of(pos));
            assert(index_of_key(self.portfolio@.positions, key_of(pos)) == Some(k as int)) by {
                lemma_index_of_key_at(self.portfolio@.positions, k as int);
            }
        }
        self.portfolio.update_position(closed);
        Some(
            TradeRecord {
                trade_id: random_uuid_simple(),
                client_order_id: client_order_id.clone(),
                symbol: pos.symbol.clone(),
                market_type: pos.market_type,
                side,
                quantity: filled_quantity,
                price: exit_price,
                commission,
                commission_asset: String::from_str("USDT"),
                realized_pnl: Some(pnl),
                strategy_name: pos.strategy_name.clone(),
                timestamp_ms: now_ms,
            },
        )
    }
}

// ---------------------------------------------------------------------------
// Brackets, order updates and flattening
// ---------------------------------------------------------------------------

/// The side that closes a position opened on `side`.
pub open spec fn exit_side_of(side: Side) -> Side {
    match side {
        Side::Buy => Side::Sell,
        Side::Sell => Side::Buy,
    }
}

/// Which leg of a bracket to place.
#[derive(Clone, Copy, Debug, PartialEq, Eq, Structural)]
pub enum BracketLeg {
    StopLoss,
    TakeProfit,
}

/// The protective order of one bracket leg after an entry filled at
/// `fill_price`: a reduce-only stop (or take-profit) order for the filled
/// quantity on the exit side, at the signal's stop (or target); `None` when
/// the signal has no such level.
pub fn bracket_leg_request(
    entry: &TrackedOrder,
    signal: &Signal,
    fill_price: Dec,
    leg: BracketLeg,
    now_ms: i64,
) -> (r: Option<OrderRequest>)
    ensures
        ({
            let level = match leg {
                BracketLeg::StopLoss => signal.stop_loss,
                BracketLeg::TakeProfit => signal.take_profit,
            };
            match level {
                None => r is None,
                Some(l) => r matches Some(q) && {
                    &&& q.symbol@ == signal.symbol@
                    &&& q.market_type == signal.market_type
                    &&& q.side == exit_side_of(entry.request.side)
                    &&& q.order_type == (match leg {
                        BracketLeg::StopLoss => OrderType::StopLoss,
                        BracketLeg::TakeProfit => OrderType::TakeProfit,
                    })
                    &&& q.quantity == entry.filled_quantity
                    &&& q.price is None
                    &&& q.stop_price == Some(l)
                    &&& q.time_in_force is None
                    &&& q.reduce_only
                    &&& q.strategy_name@ == signal.strategy_name@
                    &&& q.reason.strategy@ == signal.strategy_name@
                    &&& q.reason.signal_type@ == (match leg {
                        BracketLeg::StopLoss => "stop_loss"@,
                        BracketLeg::TakeProfit => "take_profit"@,
                    })
                    &&& q.reason.confidence == decimal::dec_lit(1, 0)
                    &&& q.reason.description@ == (match leg {
                        BracketLeg::StopLoss => "Stop loss for entry at "@,
                        BracketLeg::TakeProfit => "Take profit for entry at "@,
                    }) + decimal::decimal_display(fill_price) + (match leg {
                        BracketLeg::StopLoss => ", stop at "@,
                        BracketLeg::TakeProfit => ", target at "@,
                    }) + decimal::decimal_display(l)
                    &&& q.created_at_ms == now_ms
                },
            }
        }),
{
    let level = match leg {
        BracketLeg::StopLoss => signal.stop_loss,
        BracketLeg::TakeProfit => signal.take_profit,
    };
    let l = match level {
        Some(l) => l,
        None => return None,
    };
    let side = match entry.request.side {
        Side::Buy => Side::Sell,
        Side::Sell => Side::Buy,
    };
    let (order_type, kind, lead, mid) = match leg {
        BracketLeg::StopLoss => (OrderType::StopLoss, "stop_loss", "Stop loss for entry at ", ", stop at "),
        BracketLeg::TakeProfit => (
            OrderType::TakeProfit,
            "take_profit",
            "Take profit for entry at ",
            ", target at ",
        ),
    };
    Some(
        OrderRequest {
            client_order_id: random_uuid_simple(),
            symbol: signal.symbol.clone(),
            market_type: signal.market_type,
            side,
            order_type,
            quantity: entry.filled_quantity,
            price: None,
            stop_price: Some(l),
            time_in_force: None,
            reduce_only: true,
            strategy_name: signal.strategy_name.clone(),
            reason: OrderReason {
                strategy: signal.strategy_name.clone(),
                signal_type: String::from_str(kind),
                confidence: Dec::new(1, 0),
                description: concat4(lead, fill_price.to_string(), mid, l.to_string()),
            },
            created_at_ms: now_ms,
        },
    )
}

/// The bracket of an entry, when at least one leg was placed.
pub fn bracket_for(
    entry_order_id: &String,
    stop_loss_order_id: Option<String>,
    take_profit_order_id: Option<String>,
    symbol: &String,
) -> (r: Option<BracketPair>)
    ensures
        (stop_loss_order_id is None && take_profit_order_id is None) ==> r is None,
        (stop_loss_order_id is Some || take_profit_order_id is Some) ==> (r matches Some(b)
            && b.entry_order_id@ == entry_order_id@ && b.stop_loss_order_id == stop_loss_order_id
            && b.take_profit_order_id == take_profit_order_id && b.symbol@ == symbol@),
{
    if stop_loss_order_id.is_none() && take_profit_order_id.is_none() {
        None
    } else {
        Some(
            BracketPair {
                entry_order_id: entry_order_id.clone(),
                stop_loss_order_id,
                take_profit_order_id,
                symbol: symbol.clone(),
            },
        )
    }
}

pub open spec fn is_leg(leg: Option<String>, id: Seq<char>) -> bool {
    leg matches Some(l) && l@ == id
}

/// When `order_id` is one of the bracket's legs: whether it is the stop
/// leg, and the other leg to cancel.
pub fn filled_leg(bracket: &BracketPair, order_id: &String) -> (r: Option<(bool, Option<String>)>)
    ensures
        !is_leg(bracket.stop_loss_order_id, order_id@) && !is_leg(bracket.take_profit_order_id, order_id@)
            ==> r is None,
        is_leg(bracket.stop_loss_order_id, order_id@) ==> r == Some((true, bracket.take_profit_order_id)),
        !is_leg(bracket.stop_loss_order_id, order_id@) && is_leg(bracket.take_profit_order_id, order_id@)
            ==> r == Some((false, bracket.stop_loss_order_id)),
{
    let is_stop = match &bracket.stop_loss_order_id {
        Some(l) => *l == *order_id,
        None => false,
    };
    let is_tp = match &bracket.take_profit_order_id {
        Some(l) => *l == *order_id,
        None => false,
    };
    if is_stop {
        Some((true, copy_id(&bracket.take_profit_order_id)))
    } else if is_tp {
        Some((false, copy_id(&bracket.stop_loss_order_id)))
    } else {
        None
    }
}

fn copy_id(s: &Option<String>) -> (r: Option<String>)
    ensures
        r == *s,
{
    match s {
        Some(x) => Some(x.clone()),
        None => None,
    }
}

/// Applies an order update from the exchange to a tracked order.
pub fn apply_order_update(
    order: &mut TrackedOrder,
    status: OrderStatus,
    filled_quantity: Dec,
    average_fill_price: Option<Dec>,
    commission: Dec,
    now_ms: i64,
)
    ensures
        *final(order) == (TrackedOrder {
            status,
            filled_quantity,
            average_fill_price,
            commission,
            last_update_ms: now_ms,
            ..*old(order)
        }),
{
    order.status = status;
    order.filled_quantity = filled_quantity;
    order.average_fill_price = average_fill_price;
    order.commission = commission;
    order.last_update_ms = now_ms;
}

/// Whether a polled order status is news worth recording (anything but
/// pending or submitted).
pub fn reconciled_status_changed(status: OrderStatus) -> (r: bool)
    ensures
        r == (status != OrderStatus::Submitted && status != OrderStatus::Pending),
{
    status != OrderStatus::Submitted && status != OrderStatus::Pending
}

/// The emergency market order that closes an open position (`None` for a
/// flat one).
pub fn flatten_request(pos: &Position, now_ms: i64) -> (r: Option<OrderRequest>)
    ensures
        (position_is_flat(*pos) || pos.side == PositionSide::Flat) ==> r is None,
        !(position_is_flat(*pos) || pos.side == PositionSide::Flat) ==> (r matches Some(q) && {
            &&& q.symbol@ == pos.symbol@
            &&& q.market_type == pos.market_type
            &&& q.side == (if pos.side == PositionSide::Long { Side::Sell } else { Side::Buy })
            &&& q.order_type == OrderType::Market
            &&& q.quantity == pos.quantity
            &&& q.price is None
            &&& q.stop_price is None
            &&& q.reduce_only
            &&& q.strategy_name@ == "emergency_flatten"@
            &&& q.reason.strategy@ == "emergency"@
            &&& q.reason.signal_type@ == "flatten"@
            &&& q.reason.confidence == decimal::dec_lit(1, 0)
            &&& q.reason.description@ == "Emergency flatten all positions"@
            &&& q.created_at_ms == now_ms
        }),
{
    if pos.is_flat() {
        return None;
    }
    let side = match pos.side {
        PositionSide::Long => Side::Sell,
        PositionSide::Short => Side::Buy,
        PositionSide::Flat => return None,
    };
    Some(
        OrderRequest {
            client_order_id: random_uuid_simple(),
            symbol: pos.symbol.clone(),
            market_type: pos.market_type,
            side,
            order_type: OrderType::Market,
            quantity: pos.quantity,
            price: None,
            stop_price: None,
            time_in_force: None,
            reduce_only: true,
            strategy_name: String::from_str("emergency_flatten"),
            reason: OrderReason {
                strategy: String::from_str("emergency"),
                signal_type: String::from_str("flatten"),
                confidence: Dec::new(1, 0),
                description: String::from_str("Emergency flatten all positions"),
            },
            created_at_ms: now_ms,
        },
    )
}

/// Whether an equity read back from the journal may replace the configured
/// capital: it must be between half and twice the capital.
pub fn equity_restorable(journal_equity: Dec, config_capital: Dec) -> (r: bool)
    ensures
        r == (config_capital@ > 0 && match decimal::div_spec(Some(journal_equity), Some(config_capital)) {
            Some(ratio) => decimal::dec_lit(5, 1)@ < ratio@ && ratio@ < decimal::dec_lit(2, 0)@,
            None => false,
        }),
{
    if !config_capital.gt(&Dec::zero()) {
        return false;
    }
    match journal_equity.div(config_capital) {
        Some(ratio) => Dec::new(5, 1).lt(&ratio) && ratio.lt(&Dec::new(2, 0)),
        None => false,
    }
}

} // verus!
