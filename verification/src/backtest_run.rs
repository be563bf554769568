//! Replaying historical candles through a strategy: simulated entries and
//! exits, stop-loss / take-profit tracking, mark-to-market equity and
//! drawdown curves, and the final performance metrics.
use vstd::prelude::*;
use vstd::slice::slice_subrange;
use crate::decimal::{self, Dec, add_opt, sub_opt, mul_opt, div_opt};
use crate::config::{BacktestConfig, RiskConfig, PortfolioConfig, ParamValue};
use crate::features::{compute_features, features_spec, FeatureRow};
use crate::portfolio::{
    PortfolioManager, PortfolioView, positions_wf, key_of, index_of_key, position_key,
    position_key_string, position_size_spec,
};
use crate::risk::unrealized_sum;
use crate::backtest::{
    FillSimulator, fill_price_spec, commission_spec, trade_pnl_spec, exit_side, exit_side_spec,
    check_stop_target, compute_trade_pnl, compute_metrics, metrics_spec, empty_metrics,
    stop_target_spec,
};
use crate::types::{
    Candle, Position, PositionSide, Side, Signal, SignalDirection, TradeRecord, MarketType,
    PerformanceMetrics, position_is_flat,
};
use crate::strategy::Strategy;
use crate::models::random_uuid_simple;

verus! {

/// Outcome of a backtest.
pub struct BacktestResult {
    pub metrics: PerformanceMetrics,
    pub trades: Vec<TradeRecord>,
    pub equity_curve: Vec<(i64, Dec)>,
    pub drawdown_curve: Vec<(i64, Dec)>,
    pub params_used: Vec<(String, ParamValue)>,
}

/// Stop-loss and take-profit levels kept per position key.
pub type StopTargets = Vec<(String, Option<Dec>, Option<Dec>)>;

/// The levels stored under `key` (none when absent).
pub open spec fn stops_lookup(s: Seq<(String, Option<Dec>, Option<Dec>)>, key: Seq<char>) -> (
    Option<Dec>,
    Option<Dec>,
)
    decreases s.len(),
{
    if s.len() == 0 {
        (None, None)
    } else if s[0].0@ == key {
        (s[0].1, s[0].2)
    } else {
        stops_lookup(s.drop_first(), key)
    }
}

/// The entries not stored under `key`, in order.
pub open spec fn stops_remove(s: Seq<(String, Option<Dec>, Option<Dec>)>, key: Seq<char>) -> Seq<
    (String, Option<Dec>, Option<Dec>),
>
    decreases s.len(),
{
    if s.len() == 0 {
        s
    } else {
        let rest = stops_remove(s.drop_last(), key);
        if s.last().0@ == key {
            rest
        } else {
            rest.push(s.last())
        }
    }
}

/// The levels stored under `key`.
pub fn stops_get(s: &StopTargets, key: &String) -> (r: (Option<Dec>, Option<Dec>))
    ensures
        r == stops_lookup(s@, key@),
{
    let mut i: usize = 0;
    assert(s@.subrange(0, s@.len() as int) =~= s@);
    while i < s.len()
        invariant
            i <= s@.len(),
            stops_lookup(s@, key@) == stops_lookup(s@.subrange(i as int, s@.len() as int), key@),
        decreases s@.len() - i,
    {
        let ghost rest = s@.subrange(i as int, s@.len() as int);
        assert(rest[0] == s@[i as int]);
        if s[i].0 == *key {
            return (s[i].1, s[i].2);
        }
        assert(rest.drop_first() =~= s@.subrange(i + 1, s@.len() as int));
        i = i + 1;
    }
    (None, None)
}

/// Removes every entry stored under `key`.
pub fn stops_delete(s: &mut StopTargets, key: &String)
    ensures
        final(s)@ == stops_remove(old(s)@, key@),
{
    let mut out: StopTargets = Vec::new();
    let mut i: usize = 0;
    while i < s.len()
        invariant
            i <= s@.len(),
            out@ == stops_remove(s@.subrange(0, i as int), key@),
        decreases s@.len() - i,
    {
        assert(s@.subrange(0, i + 1).drop_last() =~= s@.subrange(0, i as int));
        if s[i].0 != *key {
            out.push((s[i].0.clone(), s[i].1, s[i].2));
        }
        i = i + 1;
    }
    assert(s@.subrange(0, s@.len() as int) =~= s@);
    *s = out;
}

/// Fill price, commission and net PnL of closing `pos` at `exit_price`.
pub open spec fn close_amounts(fs: FillSimulator, pos: Position, exit_price: Dec) -> Option<
    (Dec, Dec, Dec),
> {
    match fill_price_spec(exit_price, fs.slippage_bps, exit_side_spec(pos.side)) {
        Some(fill) => match decimal::mul_spec(Some(pos.quantity), Some(fill)) {
            Some(notional) => match commission_spec(notional, fs.fee_rate_bps) {
                Some(c) => match decimal::sub_spec(
                    trade_pnl_spec(pos.side, pos.entry_price, pos.quantity, fill),
                    Some(c),
                ) {
                    Some(pnl) => Some((fill, c, pnl)),
                    None => None,
                },
                None => None,
            },
            None => None,
        },
        None => None,
    }
}

/// The trading fields of a trade record.
pub open spec fn trade_is(
    t: TradeRecord,
    c: Candle,
    side: Side,
    quantity: Dec,
    price: Dec,
    commission: Dec,
    realized_pnl: Option<Dec>,
    strategy: Seq<char>,
) -> bool {
    &&& t.symbol@ == c.symbol@
    &&& t.market_type == c.market_type
    &&& t.side == side
    &&& t.quantity == quantity
    &&& t.price == price
    &&& t.commission == commission
    &&& t.commission_asset@ == "USDT"@
    &&& t.realized_pnl == realized_pnl
    &&& t.strategy_name@ == strategy
    &&& t.timestamp_ms == c.close_time_ms
}

/// The running state of a backtest.
pub struct BacktestBook {
    pub fill: FillSimulator,
    pub portfolio: PortfolioManager,
    pub trades: Vec<TradeRecord>,
    pub equity_curve: Vec<(i64, Dec)>,
    pub drawdown_curve: Vec<(i64, Dec)>,
    pub peak_equity: Dec,
    pub current_equity: Dec,
    pub total_commission: Dec,
    pub stop_targets: StopTargets,
}

/// Book invariant: stored positions are well formed, both curves have one
/// point per marked bar with the same stamps, and no marked equity exceeds
/// the peak.
pub open spec fn book_wf(b: BacktestBook) -> bool {
    &&& positions_wf(b.portfolio@.positions)
    &&& b.equity_curve@.len() == b.drawdown_curve@.len()
    &&& forall|i: int|
        0 <= i < b.equity_curve@.len() ==> (#[trigger] b.equity_curve@[i]).0
            == b.drawdown_curve@[i].0
    &&& forall|i: int| 0 <= i < b.equity_curve@.len() ==> (#[trigger] b.equity_curve@[i]).1@ <= b.peak_equity@
}

/// Drawdown of `mark` below `peak` in percent; zero when the peak is not
/// positive.
pub open spec fn drawdown_of(peak: Dec, mark: Dec) -> Option<Dec> {
    if peak@ > 0 {
        decimal::mul_spec(
            decimal::div_spec(decimal::sub_spec(Some(peak), Some(mark)), Some(peak)),
            Some(decimal::dec_lit(100, 0)),
        )
    } else {
        Some(decimal::dec_lit(0, 0))
    }
}

/// Closing the open position `pos` at `exit_price` on `candle` for the
/// strategy `name`: the book `b1` after it, with `ok` false and the book
/// unchanged when an amount overflows.
pub open spec fn close_step(
    b0: BacktestBook,
    pos: Position,
    exit_price: Dec,
    candle: Candle,
    name: Seq<char>,
    b1: BacktestBook,
    ok: bool,
) -> bool {
    match close_amounts(b0.fill, pos, exit_price) {
        Some((fill, c, pnl)) => {
            let eq = decimal::add_spec(Some(b0.current_equity), Some(pnl));
            let tc = decimal::add_spec(Some(b0.total_commission), Some(c));
            if eq is Some && tc is Some {
                &&& ok
                &&& b1.current_equity == eq->0
                &&& b1.total_commission == tc->0
                &&& b1.portfolio@.equity == eq->0
                &&& b1.portfolio@.peak_equity == (if eq->0@ > b0.portfolio@.peak_equity@ {
                    eq->0
                } else {
                    b0.portfolio@.peak_equity
                })
                &&& b1.portfolio@.config == b0.portfolio@.config
                &&& b1.portfolio@.positions == (match index_of_key(
                    b0.portfolio@.positions,
                    key_of(pos),
                ) {
                    Some(i) => b0.portfolio@.positions.remove(i),
                    None => b0.portfolio@.positions,
                })
                &&& b1.trades@.len() == b0.trades@.len() + 1
                &&& b1.trades@.drop_last() == b0.trades@
                &&& trade_is(
                    b1.trades@.last(),
                    candle,
                    exit_side_spec(pos.side),
                    pos.quantity,
                    fill,
                    c,
                    Some(pnl),
                    name,
                )
                &&& b1.stop_targets@ == stops_remove(b0.stop_targets@, key_of(pos))
                &&& b1.equity_curve == b0.equity_curve
                &&& b1.drawdown_curve == b0.drawdown_curve
                &&& b1.peak_equity == b0.peak_equity
                &&& b1.fill == b0.fill
            } else {
                !ok && b1 == b0
            }
        },
        None => !ok && b1 == b0,
    }
}

/// Opening a position for the entry `signal` on `candle`: the book `b1`
/// after it, with `ok` false and the book unchanged when an amount
/// overflows.  A size of zero leaves the book as it was.
pub open spec fn open_step(
    b0: BacktestBook,
    signal: Signal,
    candle: Candle,
    atr: Option<Dec>,
    name: Seq<char>,
    b1: BacktestBook,
    ok: bool,
) -> bool {
    let long = signal.direction == SignalDirection::Long;
    let side = if long {
        Side::Buy
    } else {
        Side::Sell
    };
    let entry = fill_price_spec(candle.close, b0.fill.slippage_bps, side);
    let size = position_size_spec(b0.portfolio@, signal, candle.close, atr);
    match (entry, size) {
        (Some(e), Some(q)) => if q@ > 0 {
            match decimal::mul_spec(Some(q), Some(e)) {
                Some(n) => match commission_spec(n, b0.fill.fee_rate_bps) {
                    Some(c) => {
                        let tc = decimal::add_spec(Some(b0.total_commission), Some(c));
                        let eq = decimal::sub_spec(Some(b0.current_equity), Some(c));
                        if tc is Some && eq is Some {
                            &&& ok
                            &&& b1.total_commission == tc->0
                            &&& b1.current_equity == eq->0
                            &&& b1.portfolio@.positions == b0.portfolio@.positions.push(
                                b1.portfolio@.positions.last(),
                            )
                            &&& b1.portfolio@.positions.last().symbol@ == candle.symbol@
                            &&& b1.portfolio@.positions.last().strategy_name@
                                == name
                            &&& b1.portfolio@.positions.last().side == (if long {
                                PositionSide::Long
                            } else {
                                PositionSide::Short
                            })
                            &&& b1.portfolio@.positions.last().quantity == q
                            &&& b1.portfolio@.positions.last().entry_price == e
                            &&& b1.portfolio@.positions.last().total_commission == c
                            &&& b1.portfolio@.equity == b0.portfolio@.equity
                            &&& b1.portfolio@.peak_equity == b0.portfolio@.peak_equity
                            &&& b1.portfolio@.config == b0.portfolio@.config
                            &&& b1.trades@.drop_last() == b0.trades@
                            &&& b1.trades@.len() == b0.trades@.len() + 1
                            &&& trade_is(
                                b1.trades@.last(),
                                candle,
                                side,
                                q,
                                e,
                                c,
                                None,
                                name,
                            )
                            &&& (if signal.stop_loss is Some || signal.take_profit is Some {
                                b1.stop_targets@ == stops_remove(
                                    b0.stop_targets@,
                                    position_key(candle.symbol@, name),
                                ).push(b1.stop_targets@.last())
                                    && b1.stop_targets@.last().0@ == position_key(
                                    candle.symbol@,
                                    name,
                                ) && b1.stop_targets@.last().1 == signal.stop_loss
                                    && b1.stop_targets@.last().2 == signal.take_profit
                            } else {
                                b1.stop_targets == b0.stop_targets
                            })
                            &&& b1.equity_curve == b0.equity_curve
                            &&& b1.drawdown_curve == b0.drawdown_curve
                            &&& b1.peak_equity == b0.peak_equity
                            &&& b1.fill == b0.fill
                        } else {
                            !ok && b1 == b0
                        }
                    },
                    None => !ok && b1 == b0,
                },
                None => !ok && b1 == b0,
            }
        } else {
            ok && b1 == b0
        },
        _ => !ok && b1 == b0,
    }
}

/// Marking the book at the end of a bar closing at `close_time_ms`: the
/// book `b1` after it, with `ok` false and the book unchanged on overflow.
pub open spec fn mark_step(b0: BacktestBook, close_time_ms: i64, b1: BacktestBook, ok: bool) -> bool {
    let m = decimal::add_spec(
        Some(b0.current_equity),
        unrealized_sum(b0.portfolio@.positions),
    );
    match m {
        Some(mark) => {
            let peak = if mark@ > b0.peak_equity@ {
                mark
            } else {
                b0.peak_equity
            };
            match drawdown_of(peak, mark) {
                Some(dd) => {
                    &&& ok
                    &&& b1.peak_equity == peak
                    &&& b1.equity_curve@ == b0.equity_curve@.push((close_time_ms, mark))
                    &&& b1.drawdown_curve@ == b0.drawdown_curve@.push((close_time_ms, dd))
                    &&& b1.portfolio == b0.portfolio
                    &&& b1.trades == b0.trades
                    &&& b1.current_equity == b0.current_equity
                    &&& b1.total_commission == b0.total_commission
                    &&& b1.stop_targets == b0.stop_targets
                    &&& b1.fill == b0.fill
                },
                None => !ok && b1 == b0,
            }
        },
        None => !ok && b1 == b0,
    }
}

impl BacktestBook {
    /// A fresh book for the given settings.
    pub fn new(config: &BacktestConfig, portfolio_config: &PortfolioConfig) -> (r: Self)
        ensures
            fresh_book(r, *config, *portfolio_config),
    {
        BacktestBook {
            fill: FillSimulator::new(config.fee_rate_bps, config.slippage_bps),
            portfolio: PortfolioManager::new(portfolio_config.duplicate()),
            trades: Vec::new(),
            equity_curve: Vec::new(),
            drawdown_curve: Vec::new(),
            peak_equity: config.initial_capital,
            current_equity: config.initial_capital,
            total_commission: Dec::new(0, 0),
            stop_targets: Vec::new(),
        }
    }

    /// Closes the open position `pos` at `exit_price` (slippage applied on
    /// the exit side): books the net PnL into equity and commission, records
    /// the trade, removes the position and its levels.  Returns `false`, with
    /// the book unchanged, when an amount overflows.
    pub fn close_position(
        &mut self,
        pos: &Position,
        exit_price: Dec,
        candle: &Candle,
        strategy_name: &String,
    ) -> (ok: bool)
        requires
            book_wf(*old(self)),
        ensures
            book_wf(*final(self)),
            close_step(*old(self), *pos, exit_price, *candle, strategy_name@, *final(self), ok),
    {
        let fill = match self.fill.simulate_fill_price(exit_price, exit_side(pos.side)) {
            Some(f) => f,
            None => return false,
        };
        let notional = match pos.quantity.mul(fill) {
            Some(n) => n,
            None => return false,
        };
        let commission = match self.fill.compute_commission(notional) {
            Some(c) => c,
            None => return false,
        };
        let pnl = match sub_opt(compute_trade_pnl(pos, fill), Some(commission)) {
            Some(p) => p,
            None => return false,
        };
        let equity = match self.current_equity.add(pnl) {
            Some(e) => e,
            None => return false,
        };
        let total = match self.total_commission.add(commission) {
            Some(t) => t,
            None => return false,
        };
        self.current_equity = equity;
        self.portfolio.update_equity(equity);
        self.total_commission = total;
        self.trades.push(
            TradeRecord {
                trade_id: random_uuid_simple(),
                client_order_id: random_uuid_simple(),
                symbol: candle.symbol.clone(),
                market_type: candle.market_type,
                side: exit_side(pos.side),
                quantity: pos.quantity,
                price: fill,
                commission,
                commission_asset: String::from_str("USDT"),
                realized_pnl: Some(pnl),
                strategy_name: strategy_name.clone(),
                timestamp_ms: candle.close_time_ms,
            },
        );
        let mut closed = pos.duplicate();
        closed.side = PositionSide::Flat;
        closed.quantity = Dec::new(0, 0);
        self.portfolio.update_position(closed);
        let key = position_key_string(&pos.symbol, &pos.strategy_name);
        stops_delete(&mut self.stop_targets, &key);
        assert(self.trades@.drop_last() =~= old(self).trades@);
        true
    }

    /// Opens a position for an entry signal on the candle: the fill is the
    /// close with slippage, the size comes from the portfolio's sizing rule,
    /// the commission is paid from equity and the signal's levels are kept.
    /// A size of zero does nothing.  Returns `false`, with the book
    /// unchanged, when an amount overflows.
    pub fn open_position(
        &mut self,
        signal: &Signal,
        candle: &Candle,
        atr: Option<Dec>,
        strategy_name: &String,
    ) -> (ok: bool)
        requires
            book_wf(*old(self)),
            signal.direction == SignalDirection::Long || signal.direction == SignalDirection::Short,
            index_of_key(old(self).portfolio@.positions, position_key(candle.symbol@, strategy_name@))
                is None,
        ensures
            book_wf(*final(self)),
            open_step(*old(self), *signal, *candle, atr, strategy_name@, *final(self), ok),
    {
        let long = signal.direction == SignalDirection::Long;
        let side = if long {
            Side::Buy
        } else {
            Side::Sell
        };
        let entry = match self.fill.simulate_fill_price(candle.close, side) {
            Some(e) => e,
            None => return false,
        };
        let size = match self.portfolio.compute_position_size(signal, candle.close, atr) {
            Some(q) => q,
            None => return false,
        };
        if !size.gt(&Dec::zero()) {
            return true;
        }
        let notional = match size.mul(entry) {
            Some(n) => n,
            None => return false,
        };
        let commission = match self.fill.compute_commission(notional) {
            Some(c) => c,
            None => return false,
        };
        let total = match self.total_commission.add(commission) {
            Some(t) => t,
            None => return false,
        };
        let equity = match self.current_equity.sub(commission) {
            Some(e) => e,
            None => return false,
        };
        self.total_commission = total;
        self.current_equity = equity;
        let new_pos = Position {
            symbol: candle.symbol.clone(),
            market_type: candle.market_type,
            side: if long {
                PositionSide::Long
            } else {
                PositionSide::Short
            },
            quantity: size,
            entry_price: entry,
            current_price: entry,
            unrealized_pnl: Dec::new(0, 0),
            realized_pnl: Dec::new(0, 0),
            total_commission: commission,
            leverage: Dec::new(1, 0),
            liquidation_price: None,
            opened_at_ms: candle.close_time_ms,
            last_update_ms: candle.close_time_ms,
            strategy_name: strategy_name.clone(),
        };
        proof {
            decimal::lemma_lit(0, 0);
        }
        self.portfolio.update_position(new_pos);
        if signal.stop_loss.is_some() || signal.take_profit.is_some() {
            let key = position_key_string(&candle.symbol, strategy_name);
            stops_delete(&mut self.stop_targets, &key);
            self.stop_targets.push((key, signal.stop_loss, signal.take_profit));
        }
        self.trades.push(
            TradeRecord {
                trade_id: random_uuid_simple(),
                client_order_id: random_uuid_simple(),
                symbol: candle.symbol.clone(),
                market_type: candle.market_type,
                side,
                quantity: size,
                price: entry,
                commission,
                commission_asset: String::from_str("USDT"),
                realized_pnl: None,
                strategy_name: strategy_name.clone(),
                timestamp_ms: candle.close_time_ms,
            },
        );
        assert(self.trades@.drop_last() =~= old(self).trades@);
        assert(self.portfolio@.positions =~= old(self).portfolio@.positions.push(
            self.portfolio@.positions.last(),
        ));
        if signal.stop_loss.is_some() || signal.take_profit.is_some() {
            assert(self.stop_targets@ =~= stops_remove(
                old(self).stop_targets@,
                position_key(candle.symbol@, strategy_name@),
            ).push(self.stop_targets@.last()));
        }
        true
    }

    /// Marks the book at the end of a bar: equity plus unrealized PnL,
    /// raising the peak when exceeded, and records the equity and drawdown
    /// points.  Returns `false`, with the book unchanged, on overflow.
    pub fn mark(&mut self, close_time_ms: i64) -> (ok: bool)
        requires
            book_wf(*old(self)),
        ensures
            book_wf(*final(self)),
            mark_step(*old(self), close_time_ms, *final(self), ok),
    {
        let mark = match add_opt(Some(self.current_equity), self.portfolio.total_unrealized_pnl()) {
            Some(m) => m,
            None => return false,
        };
        let peak = if mark.gt(&self.peak_equity) {
            mark
        } else {
            self.peak_equity
        };
        let dd = if peak.gt(&Dec::zero()) {
            match mul_opt(div_opt(peak.sub(mark), Some(peak)), Some(Dec::new(100, 0))) {
                Some(d) => d,
                None => return false,
            }
        } else {
            Dec::new(0, 0)
        };
        self.peak_equity = peak;
        self.equity_curve.push((close_time_ms, mark));
        self.drawdown_curve.push((close_time_ms, dd));
        true
    }
}

/// A replay's bookkeeping after `k` marked bars over `candles`: one equity
/// and one drawdown point per bar, stamped with that bar's close time; each
/// drawdown is measured against the running peak, which starts at the
/// initial capital; the commission total is the sum of the trades'
/// commissions; the cash equity is the initial capital plus the realized
/// PnL of the exits less the entry commissions; every commission is in
/// USDT.
pub open spec fn book_consistent(b: BacktestBook, candles: Seq<Candle>, initial: Dec, k: int) -> bool {
    &&& b.equity_curve@.len() == k
    &&& b.drawdown_curve@.len() == k
    &&& forall|j: int|
        0 <= j < k ==> (#[trigger] b.equity_curve@[j]).0 == candles[51 + j].close_time_ms
    &&& forall|j: int|
        0 <= j < k ==> (#[trigger] b.drawdown_curve@[j]).0 == candles[51 + j].close_time_ms
            && drawdown_of(peak_of(initial, b.equity_curve@.take(j + 1)), b.equity_curve@[j].1)
            == Some(b.drawdown_curve@[j].1)
    &&& b.peak_equity == peak_of(initial, b.equity_curve@)
    &&& Some(b.total_commission) == commission_sum(b.trades@)
    &&& Some(b.current_equity) == cash_after(initial, b.trades@)
    &&& forall|t: int|
        0 <= t < b.trades@.len() ==> (#[trigger] b.trades@[t]).commission_asset@ == "USDT"@
}

/// The highest of `initial` and the marked equities of `curve`.
pub open spec fn peak_of(initial: Dec, curve: Seq<(i64, Dec)>) -> Dec
    decreases curve.len(),
{
    if curve.len() == 0 {
        initial
    } else {
        let p = peak_of(initial, curve.drop_last());
        if curve.last().1@ > p@ {
            curve.last().1
        } else {
            p
        }
    }
}

/// The sum of the trades' commissions, added up in order; `None` on
/// overflow.
pub open spec fn commission_sum(trades: Seq<TradeRecord>) -> Option<Dec>
    decreases trades.len(),
{
    if trades.len() == 0 {
        Some(decimal::dec_lit(0, 0))
    } else {
        decimal::add_spec(commission_sum(trades.drop_last()), Some(trades.last().commission))
    }
}

/// Cash equity after the trades: each exit adds its realized (net) PnL, each
/// entry pays its commission; `None` on overflow.
pub open spec fn cash_after(initial: Dec, trades: Seq<TradeRecord>) -> Option<Dec>
    decreases trades.len(),
{
    if trades.len() == 0 {
        Some(initial)
    } else {
        let before = cash_after(initial, trades.drop_last());
        match trades.last().realized_pnl {
            Some(p) => decimal::add_spec(before, Some(p)),
            None => decimal::sub_spec(before, Some(trades.last().commission)),
        }
    }
}

/// A book as `BacktestBook::new` makes it.
pub open spec fn fresh_book(b: BacktestBook, config: BacktestConfig, pconfig: PortfolioConfig) -> bool {
    &&& book_wf(b)
    &&& b.fill.fee_rate_bps == config.fee_rate_bps
    &&& b.fill.slippage_bps == config.slippage_bps
    &&& b.portfolio@.config == pconfig
    &&& b.portfolio@.positions.len() == 0
    &&& b.portfolio@.equity == pconfig.initial_capital
    &&& b.portfolio@.peak_equity == pconfig.initial_capital
    &&& b.trades@.len() == 0
    &&& b.equity_curve@.len() == 0
    &&& b.drawdown_curve@.len() == 0
    &&& b.peak_equity == config.initial_capital
    &&& b.current_equity == config.initial_capital
    &&& b.total_commission == decimal::dec_lit(0, 0)
    &&& b.stop_targets@.len() == 0
}

/// The position the book holds under `symbol` for the strategy `name`.
pub open spec fn held(b: BacktestBook, symbol: Seq<char>, name: Seq<char>) -> Option<Position> {
    match index_of_key(b.portfolio@.positions, position_key(symbol, name)) {
        Some(i) => Some(b.portfolio@.positions[i]),
        None => None,
    }
}

/// The stop check at the start of a bar: an open position whose stop loss or
/// take profit the candle reached is closed at that level (the stop first).
pub open spec fn stop_step(
    b0: BacktestBook,
    candle: Candle,
    name: Seq<char>,
    b1: BacktestBook,
    ok: bool,
) -> bool {
    match held(b0, candle.symbol@, name) {
        Some(pos) => {
            let levels = stops_lookup(b0.stop_targets@, key_of(pos));
            let hit = stop_target_spec(pos.side, candle, levels.0, levels.1);
            if !position_is_flat(pos) && hit.0 {
                close_step(b0, pos, hit.1, candle, name, b1, ok)
            } else {
                ok && b1 == b0
            }
        },
        None => ok && b1 == b0,
    }
}

/// The signal applied: an entry opens a position when none is held, any
/// other direction closes the held one at the candle's close.
pub open spec fn signal_step(
    b0: BacktestBook,
    candle: Candle,
    atr: Option<Dec>,
    name: Seq<char>,
    signal: Option<Signal>,
    b1: BacktestBook,
    ok: bool,
) -> bool {
    let pos = held(b0, candle.symbol@, name);
    match signal {
        Some(sig) => if sig.direction == SignalDirection::Long || sig.direction
            == SignalDirection::Short {
            if pos is None {
                open_step(b0, sig, candle, atr, name, b1, ok)
            } else {
                ok && b1 == b0
            }
        } else {
            match pos {
                Some(p) => if !position_is_flat(p) {
                    close_step(b0, p, candle.close, candle, name, b1, ok)
                } else {
                    ok && b1 == b0
                },
                None => ok && b1 == b0,
            }
        },
        None => ok && b1 == b0,
    }
}

/// What one replayed bar went through: the book after the stop check, the
/// strategy's signal and its state after the bar, and the book after the
/// signal and after the mark.
pub struct BarRecord<S> {
    pub after_stop: BacktestBook,
    pub signal: Option<Signal>,
    pub strategy: S,
    pub after_signal: BacktestBook,
    pub after_mark: BacktestBook,
}

/// The features the strategy sees on bar `i`: those of the candles up to
/// and including it.
pub open spec fn bar_features(candles: Seq<Candle>, i: int) -> Option<FeatureRow> {
    features_spec(candles.subrange(0, i + 1))
}

/// Bar `i` replayed from book `b0` with the strategy in state `s0`: the
/// stop check, the strategy's signal on the candle (given the features of
/// the candles up to it and the position held after the stop check), the
/// signal applied and the mark, all without overflow.
pub open spec fn bar_ok<S: Strategy>(
    candles: Seq<Candle>,
    i: int,
    b0: BacktestBook,
    s0: S,
    r: BarRecord<S>,
) -> bool {
    let c = candles[i];
    let f = bar_features(candles, i);
    let name = s0.name_spec();
    &&& f is Some
    &&& stop_step(b0, c, name, r.after_stop, true)
    &&& s0.bar_relation(c, f->0, held(r.after_stop, c.symbol@, name), r.strategy, r.signal)
    &&& signal_step(r.after_stop, c, f->0.atr_14, name, r.signal, r.after_signal, true)
    &&& mark_step(r.after_signal, c.close_time_ms, r.after_mark, true)
}

/// Bar `i` overflowing in one of its stages, the stages before it having
/// gone through.
pub open spec fn bar_overflows<S: Strategy>(
    candles: Seq<Candle>,
    i: int,
    b0: BacktestBook,
    s0: S,
    r: BarRecord<S>,
) -> bool {
    let c = candles[i];
    let f = bar_features(candles, i);
    let name = s0.name_spec();
    &&& f is Some
    &&& {
        ||| stop_step(b0, c, name, r.after_stop, false)
        ||| {
            &&& stop_step(b0, c, name, r.after_stop, true)
            &&& s0.bar_relation(c, f->0, held(r.after_stop, c.symbol@, name), r.strategy, r.signal)
            &&& {
                ||| signal_step(r.after_stop, c, f->0.atr_14, name, r.signal, r.after_signal, false)
                ||| {
                    &&& signal_step(r.after_stop, c, f->0.atr_14, name, r.signal, r.after_signal, true)
                    &&& mark_step(r.after_signal, c.close_time_ms, r.after_mark, false)
                }
            }
        }
    }
}

/// The book before the `k`-th replayed bar.
pub open spec fn book_before<S>(b0: BacktestBook, bars: Seq<BarRecord<S>>, k: int) -> BacktestBook {
    if k == 0 {
        b0
    } else {
        bars[k - 1].after_mark
    }
}

/// The strategy's state before the `k`-th replayed bar.
pub open spec fn state_before<S>(s0: S, bars: Seq<BarRecord<S>>, k: int) -> S {
    if k == 0 {
        s0
    } else {
        bars[k - 1].strategy
    }
}

/// `bars` is a replay of the bars from index 51 on, starting from the book
/// `b0` and the strategy state `s0`.
pub open spec fn replayed<S: Strategy>(
    candles: Seq<Candle>,
    b0: BacktestBook,
    s0: S,
    bars: Seq<BarRecord<S>>,
) -> bool {
    &&& bars.len() <= bars_replayed(candles.len() as int)
    &&& forall|k: int|
        #![trigger bars[k]]
        0 <= k < bars.len() ==> bar_ok(
            candles,
            51 + k,
            book_before(b0, bars, k),
            state_before(s0, bars, k),
            bars[k],
        )
}

proof fn lemma_trade_pushed(b0: BacktestBook, b1: BacktestBook, candles: Seq<Candle>, initial: Dec, k: int)
    requires
        book_consistent(b0, candles, initial, k),
        b1.trades@.len() == b0.trades@.len() + 1,
        b1.trades@.drop_last() == b0.trades@,
        b1.trades@.last().commission_asset@ == "USDT"@,
        b1.equity_curve == b0.equity_curve,
        b1.drawdown_curve == b0.drawdown_curve,
        b1.peak_equity == b0.peak_equity,
        decimal::add_spec(Some(b0.total_commission), Some(b1.trades@.last().commission)) == Some(
            b1.total_commission,
        ),
        (match b1.trades@.last().realized_pnl {
            Some(p) => decimal::add_spec(Some(b0.current_equity), Some(p)),
            None => decimal::sub_spec(Some(b0.current_equity), Some(b1.trades@.last().commission)),
        }) == Some(b1.current_equity),
    ensures
        book_consistent(b1, candles, initial, k),
{
    assert(b1.trades@.drop_last() =~= b0.trades@);
    assert forall|t: int| 0 <= t < b1.trades@.len() implies (#[trigger] b1.trades@[t]).commission_asset@
        == "USDT"@ by {
        if t < b0.trades@.len() {
            assert(b1.trades@[t] == b0.trades@[t]);
        }
    }
}

/// A successful close keeps the bookkeeping consistent.
proof fn lemma_close_keeps(
    b0: BacktestBook,
    pos: Position,
    exit_price: Dec,
    candle: Candle,
    name: Seq<char>,
    b1: BacktestBook,
    candles: Seq<Candle>,
    initial: Dec,
    k: int,
)
    requires
        close_step(b0, pos, exit_price, candle, name, b1, true),
        book_consistent(b0, candles, initial, k),
    ensures
        book_consistent(b1, candles, initial, k),
{
    lemma_trade_pushed(b0, b1, candles, initial, k);
}

/// A successful open keeps the bookkeeping consistent.
proof fn lemma_open_keeps(
    b0: BacktestBook,
    signal: Signal,
    candle: Candle,
    atr: Option<Dec>,
    name: Seq<char>,
    b1: BacktestBook,
    candles: Seq<Candle>,
    initial: Dec,
    k: int,
)
    requires
        open_step(b0, signal, candle, atr, name, b1, true),
        book_consistent(b0, candles, initial, k),
    ensures
        book_consistent(b1, candles, initial, k),
{
    if b1 != b0 {
        lemma_trade_pushed(b0, b1, candles, initial, k);
    }
}

/// A successful stop check keeps the bookkeeping consistent.
proof fn lemma_stop_keeps(
    b0: BacktestBook,
    candle: Candle,
    name: Seq<char>,
    b1: BacktestBook,
    candles: Seq<Candle>,
    initial: Dec,
    k: int,
)
    requires
        stop_step(b0, candle, name, b1, true),
        book_consistent(b0, candles, initial, k),
    ensures
        book_consistent(b1, candles, initial, k),
{
    if b1 != b0 {
        let pos = held(b0, candle.symbol@, name)->0;
        let levels = stops_lookup(b0.stop_targets@, key_of(pos));
        let hit = stop_target_spec(pos.side, candle, levels.0, levels.1);
        lemma_close_keeps(b0, pos, hit.1, candle, name, b1, candles, initial, k);
    }
}

/// A successful signal step keeps the bookkeeping consistent.
proof fn lemma_signal_keeps(
    b0: BacktestBook,
    candle: Candle,
    atr: Option<Dec>,
    name: Seq<char>,
    signal: Option<Signal>,
    b1: BacktestBook,
    candles: Seq<Candle>,
    initial: Dec,
    k: int,
)
    requires
        signal_step(b0, candle, atr, name, signal, b1, true),
        book_consistent(b0, candles, initial, k),
    ensures
        book_consistent(b1, candles, initial, k),
{
    if b1 != b0 {
        let sig = signal->0;
        if sig.direction == SignalDirection::Long || sig.direction == SignalDirection::Short {
            lemma_open_keeps(b0, sig, candle, atr, name, b1, candles, initial, k);
        } else {
            let p = held(b0, candle.symbol@, name)->0;
            lemma_close_keeps(b0, p, candle.close, candle, name, b1, candles, initial, k);
        }
    }
}

/// Marking bar `51 + k` adds its equity and drawdown points.
proof fn lemma_mark_keeps(b0: BacktestBook, b1: BacktestBook, candles: Seq<Candle>, initial: Dec, k: int)
    requires
        mark_step(b0, candles[51 + k].close_time_ms, b1, true),
        book_consistent(b0, candles, initial, k),
    ensures
        book_consistent(b1, candles, initial, k + 1),
{
    let e0 = b0.equity_curve@;
    let e1 = b1.equity_curve@;
    assert(e1.drop_last() =~= e0);
    assert(e1.take(k + 1) =~= e1);
    assert forall|j: int| 0 <= j < k + 1 implies (#[trigger] b1.equity_curve@[j]).0
        == candles[51 + j].close_time_ms by {
        if j < k {
            assert(e1[j] == e0[j]);
        }
    }
    assert forall|j: int| 0 <= j < k + 1 implies (#[trigger] b1.drawdown_curve@[j]).0
        == candles[51 + j].close_time_ms && drawdown_of(
        peak_of(initial, b1.equity_curve@.take(j + 1)),
        b1.equity_curve@[j].1,
    ) == Some(b1.drawdown_curve@[j].1) by {
        if j < k {
            assert(e1.take(j + 1) =~= e0.take(j + 1));
            assert(e1[j] == e0[j]);
            assert(b1.drawdown_curve@[j] == b0.drawdown_curve@[j]);
        }
    }
}

/// Metrics of a run that made no trades.
pub open spec fn no_trade_metrics(m: PerformanceMetrics) -> bool {
    &&& m.total_return == decimal::dec_lit(0, 0)
    &&& m.total_return_pct == decimal::dec_lit(0, 0)
    &&& m.max_drawdown_pct == decimal::dec_lit(0, 0)
    &&& m.win_rate == decimal::dec_lit(0, 0)
    &&& m.total_trades == 0
    &&& m.max_consecutive_losses == 0
    &&& m.total_commission == decimal::dec_lit(0, 0)
    &&& m.profit_factor is None
    &&& m.annualized_return_pct is None
    &&& m.sharpe_ratio is None
    &&& m.sortino_ratio is None
    &&& m.calmar_ratio is None
    &&& m.avg_trade_return_pct == decimal::dec_lit(0, 0)
    &&& m.avg_win_pct == decimal::dec_lit(0, 0)
    &&& m.avg_loss_pct == decimal::dec_lit(0, 0)
    &&& m.exposure_pct == decimal::dec_lit(0, 0)
}

/// The number of bars a backtest over `n` candles replays.
pub open spec fn bars_replayed(n: int) -> int {
    if n > 51 {
        n - 51
    } else {
        0
    }
}

/// How a backtest of the strategy (in state `before`, left in state
/// `after`) over `candles` ends with `r`, explained by the fresh book `b0`,
/// the reset state `s0` and the replayed `bars`.  A result holds the trades
/// and curves of the book after the last bar, whose bookkeeping is
/// consistent, the metrics of those trades (the no-trade metrics for
/// fewer than 51 candles) and the parameters of the strategy's final state.  There is no result only when a bar overflows
/// (recorded in `failed`) or the metrics do.
pub open spec fn run_outcome<S: Strategy>(
    candles: Seq<Candle>,
    config: BacktestConfig,
    pconfig: PortfolioConfig,
    before: S,
    after: S,
    b0: BacktestBook,
    s0: S,
    bars: Seq<BarRecord<S>>,
    failed: BarRecord<S>,
    r: Option<BacktestResult>,
) -> bool {
    let n = candles.len() as int;
    let m = bars_replayed(n);
    let k = bars.len() as int;
    let last = book_before(b0, bars, k);
    &&& fresh_book(b0, config, pconfig)
    &&& before.reset_relation(s0)
    &&& replayed(candles, b0, s0, bars)
    &&& k <= m
    &&& book_consistent(last, candles, config.initial_capital, k)
    &&& match r {
        Some(res) => {
            &&& k == m
            &&& after == state_before(s0, bars, k)
            &&& after.params_relation(res.params_used@)
            &&& res.trades@ == last.trades@
            &&& res.equity_curve@ == last.equity_curve@
            &&& res.drawdown_curve@ == last.drawdown_curve@
            &&& if n < 51 {
                no_trade_metrics(res.metrics)
            } else {
                metrics_spec(
                    last.trades@,
                    config.initial_capital,
                    last.current_equity,
                    last.total_commission,
                ) == Some(res.metrics)
            }
        },
        None => {
            &&& n >= 51
            &&& if k < m {
                bar_overflows(candles, 51 + k, last, state_before(s0, bars, k), failed)
            } else {
                metrics_spec(
                    last.trades@,
                    config.initial_capital,
                    last.current_equity,
                    last.total_commission,
                ) is None
            }
        },
    }
}

/// Bar `i` replayed and applied to `book`.
proof fn lemma_bar_keeps<S: Strategy>(
    candles: Seq<Candle>,
    i: int,
    b0: BacktestBook,
    s0: S,
    rec: BarRecord<S>,
    initial: Dec,
    k: int,
)
    requires
        i == 51 + k,
        bar_ok(candles, i, b0, s0, rec),
        book_consistent(b0, candles, initial, k),
    ensures
        book_consistent(rec.after_mark, candles, initial, k + 1),
{
    let c = candles[i];
    let f = bar_features(candles, i)->0;
    let name = s0.name_spec();
    lemma_stop_keeps(b0, c, name, rec.after_stop, candles, initial, k);
    lemma_signal_keeps(rec.after_stop, c, f.atr_14, name, rec.signal, rec.after_signal, candles, initial, k);
    lemma_mark_keeps(rec.after_signal, rec.after_mark, candles, initial, k);
}

/// Replays bar `i`: the stop check, the strategy's signal and the mark.
/// Returns `false` when an amount overflows; the record tells what the bar
/// went through.
#[verifier::rlimit(40)]
fn replay_bar<S: Strategy>(book: &mut BacktestBook, strategy: &mut S, candles: &[Candle], i: usize) -> (r: (
    bool,
    Ghost<BarRecord<S>>,
))
    requires
        book_wf(*old(book)),
        51 <= i < candles@.len(),
    ensures
        book_wf(*final(book)),
        r.0 ==> bar_ok(candles@, i as int, *old(book), *old(strategy), r.1@),
        r.0 ==> *final(book) == r.1@.after_mark && *final(strategy) == r.1@.strategy,
        !r.0 ==> bar_overflows(candles@, i as int, *old(book), *old(strategy), r.1@),
{
    let ghost bk0 = *book;
    let ghost st0 = *strategy;
    let end: usize = if i < candles.len() {
        i + 1
    } else {
        i
    };
    let window = slice_subrange(candles, 0, end);
    let candle = &candles[i];
    proof {
        assert(window@ == candles@.subrange(0, i as int + 1));
    }
    let features = match compute_features(window) {
        Some(f) => f,
        None => {
            proof {
                assert(false);
            }
            return (false, Ghost(BarRecord {
                after_stop: bk0,
                signal: None,
                strategy: st0,
                after_signal: bk0,
                after_mark: bk0,
            }));
        },
    };
    let name = String::from_str(strategy.name());
    let position = match book.portfolio.get_position(&candle.symbol, &name) {
        Some(p) => Some(p.duplicate()),
        None => None,
    };
    if let Some(pos) = position {
        if !pos.is_flat() {
            let key = position_key_string(&pos.symbol, &pos.strategy_name);
            let (sl, tp) = stops_get(&book.stop_targets, &key);
            let (should_exit, exit_price) = check_stop_target(&pos, candle, sl, tp);
            if should_exit {
                if !book.close_position(&pos, exit_price, candle, &name) {
                    let ghost failed = BarRecord {
                        after_stop: *book,
                        signal: None,
                        strategy: st0,
                        after_signal: *book,
                        after_mark: *book,
                    };
                    return (false, Ghost(failed));
                }
            }
        }
    }
    let ghost ba = *book;
    proof {
        assert(stop_step(bk0, *candle, st0.name_spec(), ba, true));
    }
    let snapshot = match book.portfolio.get_position(&candle.symbol, &name) {
        Some(p) => Some(p.duplicate()),
        None => None,
    };
    proof {
        assert(snapshot == held(ba, candle.symbol@, st0.name_spec()));
    }
    let signal = strategy.on_bar(candle, &features, snapshot.as_ref());
    let ghost sig_g = signal;
    let ghost st1 = *strategy;
    let mut failed_signal = false;
    if let Some(sig) = signal {
        match sig.direction {
            SignalDirection::Long | SignalDirection::Short => {
                if snapshot.is_none() {
                    if !book.open_position(&sig, candle, features.atr_14, &name) {
                        failed_signal = true;
                    }
                }
            },
            _ => {
                if let Some(pos) = snapshot {
                    if !pos.is_flat() {
                        if !book.close_position(&pos, candle.close, candle, &name) {
                            failed_signal = true;
                        }
                    }
                }
            },
        }
    }
    let ghost bc = *book;
    proof {
        assert(signal_step(ba, *candle, features.atr_14, st0.name_spec(), sig_g, bc, !failed_signal));
    }
    if failed_signal {
        return (false, Ghost(BarRecord {
            after_stop: ba,
            signal: sig_g,
            strategy: st1,
            after_signal: bc,
            after_mark: bc,
        }));
    }
    let ok = book.mark(candle.close_time_ms);
    (ok, Ghost(BarRecord {
        after_stop: ba,
        signal: sig_g,
        strategy: st1,
        after_signal: bc,
        after_mark: *book,
    }))
}

/// What a finished backtest reports: one equity and one drawdown point per
/// replayed bar, stamped with that bar's close time; each drawdown measured
/// from the running peak of the equity points (starting at the initial
/// capital); the trade count, the commission total (the sum of the trades'
/// commissions) and the total return (the exits' realized PnL less the entry
/// commissions) taken from the trade list; every commission in USDT.
pub proof fn law_backtest_bookkeeping<S: Strategy>(
    candles: Seq<Candle>,
    config: BacktestConfig,
    pconfig: PortfolioConfig,
    before: S,
    after: S,
    b0: BacktestBook,
    s0: S,
    bars: Seq<BarRecord<S>>,
    failed: BarRecord<S>,
    res: BacktestResult,
)
    requires
        run_outcome(candles, config, pconfig, before, after, b0, s0, bars, failed, Some(res)),
        res.trades@.len() <= usize::MAX,
    ensures
        res.equity_curve@.len() == bars_replayed(candles.len() as int),
        res.drawdown_curve@.len() == bars_replayed(candles.len() as int),
        forall|k: int|
            0 <= k < res.equity_curve@.len() ==> {
                &&& (#[trigger] res.equity_curve@[k]).0 == candles[51 + k].close_time_ms
                &&& res.drawdown_curve@[k].0 == candles[51 + k].close_time_ms
                &&& drawdown_of(
                    peak_of(config.initial_capital, res.equity_curve@.take(k + 1)),
                    res.equity_curve@[k].1,
                ) == Some(res.drawdown_curve@[k].1)
            },
        res.metrics.total_trades == res.trades@.len(),
        commission_sum(res.trades@) == Some(res.metrics.total_commission),
        candles.len() >= 51 ==> decimal::sub_spec(
            cash_after(config.initial_capital, res.trades@),
            Some(config.initial_capital),
        ) == Some(res.metrics.total_return),
        forall|t: int|
            0 <= t < res.trades@.len() ==> (#[trigger] res.trades@[t]).commission_asset@ == "USDT"@,
{
    let last = book_before(b0, bars, bars.len() as int);
    if candles.len() < 51 {
        assert(last == b0);
    }
    lemma_result_bookkeeping(candles, config.initial_capital, last, res);
}

proof fn lemma_result_bookkeeping(candles: Seq<Candle>, initial: Dec, last: BacktestBook, res: BacktestResult)
    requires
        book_consistent(last, candles, initial, bars_replayed(candles.len() as int)),
        res.trades@ == last.trades@,
        res.equity_curve@ == last.equity_curve@,
        res.drawdown_curve@ == last.drawdown_curve@,
        res.trades@.len() <= usize::MAX,
        candles.len() < 51 ==> no_trade_metrics(res.metrics) && last.trades@.len() == 0,
        candles.len() >= 51 ==> metrics_spec(
            last.trades@,
            initial,
            last.current_equity,
            last.total_commission,
        ) == Some(res.metrics),
    ensures
        res.metrics.total_trades == res.trades@.len(),
        commission_sum(res.trades@) == Some(res.metrics.total_commission),
        candles.len() >= 51 ==> decimal::sub_spec(cash_after(initial, res.trades@), Some(initial))
            == Some(res.metrics.total_return),
{
    if candles.len() < 51 {
        assert(res.trades@ =~= Seq::<TradeRecord>::empty());
        decimal::lemma_lit(0, 0);
    }
}

/// No lookahead: whatever explains the first `j` replayed bars over
/// `candles_a` also explains the first `j` bars over any `candles_b` that
/// agrees with it on the candles up to bar `50 + j`; what happens on a bar
/// depends only on the candles up to and including it.
pub proof fn law_replay_depends_on_prefix<S: Strategy>(
    candles_a: Seq<Candle>,
    candles_b: Seq<Candle>,
    b0: BacktestBook,
    s0: S,
    bars: Seq<BarRecord<S>>,
    j: int,
)
    requires
        replayed(candles_a, b0, s0, bars),
        0 <= j <= bars.len(),
        candles_b.len() >= 51 + j,
        candles_a.subrange(0, 51 + j) == candles_b.subrange(0, 51 + j),
    ensures
        replayed(candles_b, b0, s0, bars.take(j)),
{
    let t = bars.take(j);
    assert forall|k: int| #![trigger t[k]] 0 <= k < t.len() implies bar_ok(
        candles_b,
        51 + k,
        book_before(b0, t, k),
        state_before(s0, t, k),
        t[k],
    ) by {
        assert(t[k] == bars[k]);
        assert(book_before(b0, t, k) == book_before(b0, bars, k));
        assert(state_before(s0, t, k) == state_before(s0, bars, k));
        assert(candles_a[51 + k] == candles_a.subrange(0, 51 + j)[51 + k]);
        assert(candles_b[51 + k] == candles_b.subrange(0, 51 + j)[51 + k]);
        assert(candles_a.subrange(0, 51 + k + 1) =~= candles_a.subrange(0, 51 + j).subrange(0, 52 + k));
        assert(candles_b.subrange(0, 51 + k + 1) =~= candles_b.subrange(0, 51 + j).subrange(0, 52 + k));
    }
}

/// Runs a backtest of `strategy` over `candles` (oldest first).
///
/// The strategy is reset, then bars from index 51 on are replayed, each
/// with features computed from the candles up to and including it (no
/// lookahead).  On each bar an open position is first checked against its
/// stop and target (the stop wins when both are reached), then the
/// strategy's signal is applied: an entry opens a position when none is
/// open, any other direction closes the open one at the close.  Fills carry
/// the configured slippage and commission.  After each bar the book is
/// marked: equity plus unrealized PnL, and the drawdown from the running
/// peak.  Fewer than 51 candles give an empty result.
///
/// The result is `None` only when an amount overflows the decimal range.
/// The risk limits do not influence a backtest: no order is checked against
/// them.
#[verifier::rlimit(30)]
pub fn run_backtest<S: Strategy>(
    candles: &[Candle],
    strategy: &mut S,
    config: &BacktestConfig,
    risk_config: &RiskConfig,
    portfolio_config: &PortfolioConfig,
) -> (r: Option<BacktestResult>)
    ensures
        exists|b0: BacktestBook, s0: S, bars: Seq<BarRecord<S>>, failed: BarRecord<S>|
            #[trigger] run_outcome(
                candles@,
                *config,
                *portfolio_config,
                *old(strategy),
                *final(strategy),
                b0,
                s0,
                bars,
                failed,
                r,
            ),
        candles@.len() < 51 ==> r is Some && r->0.trades@.len() == 0 && no_trade_metrics(
            r->0.metrics,
        ),
        r matches Some(res) ==> res.equity_curve@.len() == bars_replayed(candles@.len() as int)
            && res.drawdown_curve@.len() == bars_replayed(candles@.len() as int),
        r matches Some(res) ==> forall|j: int|
            0 <= j < res.equity_curve@.len() ==> (#[trigger] res.equity_curve@[j]).0
                == candles@[51 + j].close_time_ms && res.drawdown_curve@[j].0
                == candles@[51 + j].close_time_ms,
{
    let mut book = BacktestBook::new(config, portfolio_config);
    strategy.reset();
    let ghost b0 = book;
    let ghost s0 = *strategy;
    let ghost mut bars: Seq<BarRecord<S>> = Seq::empty();
    let ghost initial = config.initial_capital;
    proof {
        assert(book.equity_curve@ =~= Seq::<(i64, Dec)>::empty());
        assert(book.trades@ =~= Seq::<TradeRecord>::empty());
        decimal::lemma_lit(0, 0);
    }
    if candles.len() < 51 {
        let res = BacktestResult {
            metrics: empty_metrics(),
            trades: book.trades,
            equity_curve: book.equity_curve,
            drawdown_curve: book.drawdown_curve,
            params_used: strategy.params(),
        };
        proof {
            let failed = BarRecord {
                after_stop: b0,
                signal: None,
                strategy: s0,
                after_signal: b0,
                after_mark: b0,
            };
            assert(run_outcome(
                candles@,
                *config,
                *portfolio_config,
                *old(strategy),
                *strategy,
                b0,
                s0,
                bars,
                failed,
                Some(res),
            ));
        }
        return Some(res);
    }
    let mut i: usize = 51;
    while i < candles.len()
        invariant
            51 <= i <= candles@.len(),
            book_wf(book),
            fresh_book(b0, *config, *portfolio_config),
            old(strategy).reset_relation(s0),
            initial == config.initial_capital,
            replayed(candles@, b0, s0, bars),
            bars.len() == i - 51,
            book == book_before(b0, bars, bars.len() as int),
            *strategy == state_before(s0, bars, bars.len() as int),
            book_consistent(book, candles@, initial, i - 51),
        decreases candles@.len() - i,
    {
        let ghost k = bars.len() as int;
        let ghost bk0 = book;
        let (ok, Ghost(rec)) = replay_bar(&mut book, strategy, candles, i);
        if !ok {
            proof {
                assert(run_outcome(
                    candles@,
                    *config,
                    *portfolio_config,
                    *old(strategy),
                    *strategy,
                    b0,
                    s0,
                    bars,
                    rec,
                    None,
                ));
            }
            return None;
        }
        proof {
            lemma_bar_keeps(candles@, 51 + k, bk0, state_before(s0, bars, k), rec, initial, k);
            let old_bars = bars;
            bars = bars.push(rec);
            assert forall|j: int| #![trigger bars[j]] 0 <= j < bars.len() implies bar_ok(
                candles@,
                51 + j,
                book_before(b0, bars, j),
                state_before(s0, bars, j),
                bars[j],
            ) by {
                if j < k {
                    assert(bars[j] == old_bars[j]);
                    assert(book_before(b0, bars, j) == book_before(b0, old_bars, j));
                    assert(state_before(s0, bars, j) == state_before(s0, old_bars, j));
                }
            }
        }
        i = i + 1;
    }
    let metrics = match compute_metrics(
        book.trades.as_slice(),
        config.initial_capital,
        book.current_equity,
        book.total_commission,
    ) {
        Some(m) => m,
        None => {
            proof {
                let failed = BarRecord {
                    after_stop: b0,
                    signal: None,
                    strategy: s0,
                    after_signal: b0,
                    after_mark: b0,
                };
                assert(run_outcome(
                    candles@,
                    *config,
                    *portfolio_config,
                    *old(strategy),
                    *strategy,
                    b0,
                    s0,
                    bars,
                    failed,
                    None,
                ));
            }
            return None;
        },
    };
    let ghost last = book;
    let res = BacktestResult {
        metrics,
        trades: book.trades,
        equity_curve: book.equity_curve,
        drawdown_curve: book.drawdown_curve,
        params_used: strategy.params(),
    };
    proof {
        let failed = BarRecord {
            after_stop: b0,
            signal: None,
            strategy: s0,
            after_signal: b0,
            after_mark: b0,
        };
        assert(run_outcome(
            candles@,
            *config,
            *portfolio_config,
            *old(strategy),
            *strategy,
            b0,
            s0,
            bars,
            failed,
            Some(res),
        ));
    }
    Some(res)
}

} // verus!
