//! Backtest accounting: simulated fills, stop/target checks, trade PnL and
//! performance metrics.
use vstd::prelude::*;
use crate::decimal::{self, Dec, add_opt, sub_opt, mul_opt, div_opt};
use crate::indicators::{self, sum};
use crate::types::{Side, PositionSide, Position, Candle, TradeRecord, PerformanceMetrics};

verus! {

/// The side of the order that closes a position (`Sell` for a flat one).
pub open spec fn exit_side_spec(side: PositionSide) -> Side {
    match side {
        PositionSide::Long => Side::Sell,
        PositionSide::Short => Side::Buy,
        PositionSide::Flat => Side::Sell,
    }
}

/// The side of the order that closes a position.
pub fn exit_side(side: PositionSide) -> (r: Side)
    ensures
        r == exit_side_spec(side),
{
    match side {
        PositionSide::Long => Side::Sell,
        PositionSide::Short => Side::Buy,
        PositionSide::Flat => Side::Sell,
    }
}

/// Simulated fill model: fees and slippage in basis points.
pub struct FillSimulator {
    pub fee_rate_bps: Dec,
    pub slippage_bps: Dec,
}

/// `price * slippage_bps / 10000`, added for buys and subtracted for sells.
pub open spec fn fill_price_spec(price: Dec, slippage_bps: Dec, side: Side) -> Option<Dec> {
    let slip = decimal::div_spec(
        decimal::mul_spec(Some(price), Some(slippage_bps)),
        Some(decimal::dec_lit(10000, 0)),
    );
    match side {
        Side::Buy => decimal::add_spec(Some(price), slip),
        Side::Sell => decimal::sub_spec(Some(price), slip),
    }
}

/// `notional * fee_rate_bps / 10000`.
pub open spec fn commission_spec(notional: Dec, fee_rate_bps: Dec) -> Option<Dec> {
    decimal::div_spec(
        decimal::mul_spec(Some(notional), Some(fee_rate_bps)),
        Some(decimal::dec_lit(10000, 0)),
    )
}

impl FillSimulator {
    pub fn new(fee_bps: Dec, slippage_bps: Dec) -> (r: FillSimulator)
        ensures
            r.fee_rate_bps == fee_bps,
            r.slippage_bps == slippage_bps,
    {
        FillSimulator { fee_rate_bps: fee_bps, slippage_bps: slippage_bps }
    }

    /// The fill price after slippage against the trader; `None` on overflow.
    pub fn simulate_fill_price(&self, price: Dec, side: Side) -> (r: Option<Dec>)
        ensures
            r == fill_price_spec(price, self.slippage_bps, side),
    {
        let slippage = div_opt(price.mul(self.slippage_bps), Some(Dec::new(10000, 0)));
        match side {
            Side::Buy => add_opt(Some(price), slippage),
            Side::Sell => sub_opt(Some(price), slippage),
        }
    }

    /// The commission on a notional; `None` on overflow.
    pub fn compute_commission(&self, notional: Dec) -> (r: Option<Dec>)
        ensures
            r == commission_spec(notional, self.fee_rate_bps),
    {
        div_opt(notional.mul(self.fee_rate_bps), Some(Dec::new(10000, 0)))
    }
}

/// Whether a bar's range hits the stop or the target, and at which price.
/// The stop is checked first: when both could trigger on one bar the stop
/// is assumed to have been hit.
pub open spec fn stop_target_spec(
    side: PositionSide,
    candle: Candle,
    stop_loss: Option<Dec>,
    take_profit: Option<Dec>,
) -> (bool, Dec) {
    match side {
        PositionSide::Long => if stop_loss is Some && candle.low@ <= stop_loss->0@ {
            (true, stop_loss->0)
        } else if take_profit is Some && candle.high@ >= take_profit->0@ {
            (true, take_profit->0)
        } else {
            (false, candle.close)
        },
        PositionSide::Short => if stop_loss is Some && candle.high@ >= stop_loss->0@ {
            (true, stop_loss->0)
        } else if take_profit is Some && candle.low@ <= take_profit->0@ {
            (true, take_profit->0)
        } else {
            (false, candle.close)
        },
        PositionSide::Flat => (false, candle.close),
    }
}

/// Checks the bar against the position's stop loss and take profit.
/// Returns whether to exit and the exit price (the close when not exiting).
pub fn check_stop_target(
    pos: &Position,
    candle: &Candle,
    stop_loss: Option<Dec>,
    take_profit: Option<Dec>,
) -> (r: (bool, Dec))
    ensures
        r == stop_target_spec(pos.side, *candle, stop_loss, take_profit),
{
    match pos.side {
        PositionSide::Long => {
            if let Some(sl) = stop_loss {
                if candle.low.le(&sl) {
                    return (true, sl);
                }
            }
            if let Some(tp) = take_profit {
                if candle.high.ge(&tp) {
                    return (true, tp);
                }
            }
            (false, candle.close)
        },
        PositionSide::Short => {
            if let Some(sl) = stop_loss {
                if candle.high.ge(&sl) {
                    return (true, sl);
                }
            }
            if let Some(tp) = take_profit {
                if candle.low.le(&tp) {
                    return (true, tp);
                }
            }
            (false, candle.close)
        },
        PositionSide::Flat => (false, candle.close),
    }
}

/// `(exit - entry) * qty` for longs, `(entry - exit) * qty` for shorts, zero
/// for a flat position.
pub open spec fn trade_pnl_spec(side: PositionSide, entry: Dec, quantity: Dec, exit: Dec) -> Option<
    Dec,
> {
    match side {
        PositionSide::Long => decimal::mul_spec(
            decimal::sub_spec(Some(exit), Some(entry)),
            Some(quantity),
        ),
        PositionSide::Short => decimal::mul_spec(
            decimal::sub_spec(Some(entry), Some(exit)),
            Some(quantity),
        ),
        PositionSide::Flat => Some(decimal::dec_lit(0, 0)),
    }
}

/// Gross PnL of closing the position at `exit_price`; `None` on overflow.
pub fn compute_trade_pnl(pos: &Position, exit_price: Dec) -> (r: Option<Dec>)
    ensures
        r == trade_pnl_spec(pos.side, pos.entry_price, pos.quantity, exit_price),
{
    match pos.side {
        PositionSide::Long => mul_opt(exit_price.sub(pos.entry_price), Some(pos.quantity)),
        PositionSide::Short => mul_opt(pos.entry_price.sub(exit_price), Some(pos.quantity)),
        PositionSide::Flat => Some(Dec::new(0, 0)),
    }
}

// ---------------------------------------------------------------------------
// Performance metrics
// ---------------------------------------------------------------------------

/// The realized PnLs of the trades that have one, in order.
pub open spec fn realized_pnls(trades: Seq<TradeRecord>) -> Seq<Dec>
    decreases trades.len(),
{
    if trades.len() == 0 {
        Seq::empty()
    } else {
        let rest = realized_pnls(trades.drop_last());
        match trades.last().realized_pnl {
            Some(p) => rest.push(p),
            None => rest,
        }
    }
}

/// The strictly positive values, in order.
pub open spec fn positives(s: Seq<Dec>) -> Seq<Dec>
    decreases s.len(),
{
    if s.len() == 0 {
        Seq::empty()
    } else if s.last()@ > 0 {
        positives(s.drop_last()).push(s.last())
    } else {
        positives(s.drop_last())
    }
}

/// The strictly negative values, in order.
pub open spec fn negatives(s: Seq<Dec>) -> Seq<Dec>
    decreases s.len(),
{
    if s.len() == 0 {
        Seq::empty()
    } else if s.last()@ < 0 {
        negatives(s.drop_last()).push(s.last())
    } else {
        negatives(s.drop_last())
    }
}

/// `|x|` of each value (`Decimal::abs`).
pub open spec fn abs_all(s: Seq<Dec>) -> Seq<Dec> {
    Seq::new(s.len(), |i: int| decimal::dec_abs_of(s[i]))
}

/// The longest run of strictly negative values, and the current run.
pub open spec fn loss_runs(s: Seq<Dec>) -> (nat, nat)
    decreases s.len(),
{
    if s.len() == 0 {
        (0, 0)
    } else {
        let (best, cur) = loss_runs(s.drop_last());
        if s.last()@ < 0 {
            let c = cur + 1;
            (if c > best { c } else { best }, c)
        } else {
            (best, 0)
        }
    }
}

/// `(peak - equity) / peak * 100` when the peak is positive, else zero.
pub open spec fn drawdown_pct_spec(peak: Dec, equity: Dec) -> Option<Dec> {
    if peak@ > 0 {
        decimal::mul_spec(
            decimal::div_spec(decimal::sub_spec(Some(peak), Some(equity)), Some(peak)),
            Some(decimal::dec_lit(100, 0)),
        )
    } else {
        Some(decimal::dec_lit(0, 0))
    }
}

/// Equity, peak and largest drawdown after replaying the PnLs from `initial`.
pub open spec fn equity_path(s: Seq<Dec>, initial: Dec) -> Option<(Dec, Dec, Dec)>
    decreases s.len(),
{
    if s.len() == 0 {
        Some((initial, initial, decimal::dec_lit(0, 0)))
    } else {
        match equity_path(s.drop_last(), initial) {
            None => None,
            Some((equity, peak, max_dd)) => match decimal::add_spec(Some(equity), Some(s.last())) {
                None => None,
                Some(e) => {
                    let p = if e@ > peak@ {
                        e
                    } else {
                        peak
                    };
                    match drawdown_pct_spec(p, e) {
                        None => None,
                        Some(dd) => Some((e, p, if dd@ > max_dd@ { dd } else { max_dd })),
                    }
                },
            },
        }
    }
}

/// The drawdown (in percent, from the running peak) after the first `k`
/// PnLs of `s` have been booked onto `initial`.
pub open spec fn drawdown_after(s: Seq<Dec>, initial: Dec, k: int) -> Option<Dec> {
    match equity_path(s.take(k), initial) {
        Some((equity, peak, _)) => drawdown_pct_spec(peak, equity),
        None => None,
    }
}

/// The maximum drawdown of an equity path is the largest drawdown reached
/// after any number of booked PnLs: never below zero, at least the drawdown
/// after every prefix, and equal to one of them (or zero when none is
/// positive).
pub proof fn law_max_drawdown_is_largest(s: Seq<Dec>, initial: Dec)
    requires
        equity_path(s, initial) is Some,
    ensures
        ({
            let m = (equity_path(s, initial)->0).2;
            &&& m@ >= 0
            &&& forall|k: int|
                1 <= k <= s.len() ==> (#[trigger] drawdown_after(s, initial, k) matches Some(d)
                    && d@ <= m@)
            &&& (m == decimal::dec_lit(0, 0) || exists|k: int|
                1 <= k <= s.len() && #[trigger] drawdown_after(s, initial, k) == Some(m))
        }),
    decreases s.len(),
{
    if s.len() == 0 {
        decimal::lemma_lit(0, 0);
    } else {
        let t = s.drop_last();
        law_max_drawdown_is_largest(t, initial);
        let n = s.len() as int;
        assert(s.take(n) =~= s);
        assert forall|k: int| 1 <= k < n implies #[trigger] drawdown_after(s, initial, k)
            == drawdown_after(t, initial, k) by {
            assert(s.take(k) =~= t.take(k));
        }
        let m = (equity_path(s, initial)->0).2;
        if m != decimal::dec_lit(0, 0) && m != (equity_path(t, initial)->0).2 {
            assert(drawdown_after(s, initial, n) == Some(m));
        }
        if m == (equity_path(t, initial)->0).2 && m != decimal::dec_lit(0, 0) {
            let k = choose|k: int| 1 <= k <= t.len() && #[trigger] drawdown_after(t, initial, k) == Some(m);
            assert(drawdown_after(s, initial, k) == Some(m));
        }
    }
}

/// The reported maximum drawdown of a backtest is the largest drawdown the
/// realized-PnL equity path reaches after any trade: never below zero, at
/// least the drawdown after every prefix of exits, and equal to one of them
/// (or zero).
pub proof fn law_metrics_max_drawdown(
    trades: Seq<TradeRecord>,
    initial: Dec,
    final_equity: Dec,
    total_commission: Dec,
)
    requires
        metrics_spec(trades, initial, final_equity, total_commission) is Some,
    ensures
        ({
            let m = metrics_spec(trades, initial, final_equity, total_commission)->0.max_drawdown_pct;
            let pnls = realized_pnls(trades);
            &&& m@ >= 0
            &&& forall|k: int|
                1 <= k <= pnls.len() ==> (#[trigger] drawdown_after(pnls, initial, k) matches Some(d)
                    && d@ <= m@)
            &&& (m == decimal::dec_lit(0, 0) || exists|k: int|
                1 <= k <= pnls.len() && #[trigger] drawdown_after(pnls, initial, k) == Some(m))
        }),
{
    law_max_drawdown_is_largest(realized_pnls(trades), initial);
}

/// `sum / count` for a non-empty sequence, else zero.
pub open spec fn mean_or_zero(s: Seq<Dec>) -> Option<Dec> {
    if s.len() > 0 {
        decimal::div_spec(indicators::sum_spec(s), Some(indicators::dec_of_u32(s.len() as int)))
    } else {
        Some(decimal::dec_lit(0, 0))
    }
}

pub open spec fn metrics_spec(
    trades: Seq<TradeRecord>,
    initial: Dec,
    final_equity: Dec,
    total_commission: Dec,
) -> Option<PerformanceMetrics> {
    let pnls = realized_pnls(trades);
    let winning = positives(pnls);
    let losing = negatives(pnls);
    let total_return = decimal::sub_spec(Some(final_equity), Some(initial));
    let total_return_pct = if initial@ > 0 {
        decimal::mul_spec(
            decimal::div_spec(total_return, Some(initial)),
            Some(decimal::dec_lit(100, 0)),
        )
    } else {
        Some(decimal::dec_lit(0, 0))
    };
    let win_rate = if pnls.len() > 0 {
        decimal::mul_spec(
            decimal::div_spec(
                Some(indicators::dec_of_u32(winning.len() as int)),
                Some(indicators::dec_of_u32(pnls.len() as int)),
            ),
            Some(decimal::dec_lit(100, 0)),
        )
    } else {
        Some(decimal::dec_lit(0, 0))
    };
    let avg_win = mean_or_zero(winning);
    let avg_loss = mean_or_zero(losing);
    let avg_trade = mean_or_zero(pnls);
    let profit_factor: Option<Option<Dec>> = if losing.len() > 0 {
        match (indicators::sum_spec(winning), indicators::sum_spec(abs_all(losing))) {
            (Some(gp), Some(gl)) => if gl@ > 0 {
                match decimal::div_spec(Some(gp), Some(gl)) {
                    Some(pf) => Some(Some(pf)),
                    None => None,
                }
            } else {
                Some(None)
            },
            _ => None,
        }
    } else {
        Some(None)
    };
    match (
        total_return,
        total_return_pct,
        win_rate,
        avg_win,
        avg_loss,
        avg_trade,
        profit_factor,
        equity_path(pnls, initial),
    ) {
        (
            Some(tr),
            Some(trp),
            Some(wr),
            Some(aw),
            Some(al),
            Some(at),
            Some(pf),
            Some((_, _, max_dd)),
        ) => Some(
            PerformanceMetrics {
                total_return: tr,
                total_return_pct: trp,
                annualized_return_pct: None,
                max_drawdown_pct: max_dd,
                sharpe_ratio: None,
                sortino_ratio: None,
                calmar_ratio: None,
                win_rate: wr,
                profit_factor: pf,
                total_trades: trades.len() as usize,
                avg_trade_return_pct: at,
                avg_win_pct: aw,
                avg_loss_pct: al,
                max_consecutive_losses: loss_runs(pnls).0 as usize,
                exposure_pct: decimal::dec_lit(0, 0),
                total_commission: total_commission,
            },
        ),
        _ => None,
    }
}

fn collect_pnls(trades: &[TradeRecord]) -> (r: Vec<Dec>)
    ensures
        r@ == realized_pnls(trades@),
{
    let mut out: Vec<Dec> = Vec::new();
    let mut i: usize = 0;
    while i < trades.len()
        invariant
            0 <= i <= trades.len(),
            out@ == realized_pnls(trades@.subrange(0, i as int)),
        decreases trades.len() - i,
    {
        assert(trades@.subrange(0, i + 1).drop_last() =~= trades@.subrange(0, i as int));
        if let Some(p) = trades[i].realized_pnl {
            out.push(p);
        }
        i = i + 1;
    }
    assert(trades@.subrange(0, trades@.len() as int) =~= trades@);
    out
}

fn select_positive(s: &[Dec]) -> (r: Vec<Dec>)
    ensures
        r@ == positives(s@),
{
    let mut out: Vec<Dec> = Vec::new();
    let mut i: usize = 0;
    let zero = Dec::zero();
    while i < s.len()
        invariant
            0 <= i <= s.len(),
            zero@ == 0,
            out@ == positives(s@.subrange(0, i as int)),
        decreases s.len() - i,
    {
        assert(s@.subrange(0, i + 1).drop_last() =~= s@.subrange(0, i as int));
        if s[i].gt(&zero) {
            out.push(s[i]);
        }
        i = i + 1;
    }
    assert(s@.subrange(0, s@.len() as int) =~= s@);
    out
}

fn select_negative(s: &[Dec]) -> (r: Vec<Dec>)
    ensures
        r@ == negatives(s@),
{
    let mut out: Vec<Dec> = Vec::new();
    let mut i: usize = 0;
    let zero = Dec::zero();
    while i < s.len()
        invariant
            0 <= i <= s.len(),
            zero@ == 0,
            out@ == negatives(s@.subrange(0, i as int)),
        decreases s.len() - i,
    {
        assert(s@.subrange(0, i + 1).drop_last() =~= s@.subrange(0, i as int));
        if s[i].lt(&zero) {
            out.push(s[i]);
        }
        i = i + 1;
    }
    assert(s@.subrange(0, s@.len() as int) =~= s@);
    out
}

fn abs_each(s: &[Dec]) -> (r: Vec<Dec>)
    ensures
        r@ == abs_all(s@),
{
    let mut out: Vec<Dec> = Vec::new();
    let mut i: usize = 0;
    while i < s.len()
        invariant
            0 <= i <= s.len(),
            out@.len() == i,
            forall|j: int| 0 <= j < i ==> out@[j] == decimal::dec_abs_of(s@[j]),
        decreases s.len() - i,
    {
        out.push(s[i].abs());
        i = i + 1;
    }
    assert(out@ =~= abs_all(s@));
    out
}

fn longest_loss_run(s: &[Dec]) -> (r: usize)
    ensures
        r == loss_runs(s@).0,
{
    let mut best: usize = 0;
    let mut cur: usize = 0;
    let mut i: usize = 0;
    let zero = Dec::zero();
    while i < s.len()
        invariant
            0 <= i <= s.len(),
            zero@ == 0,
            cur <= i,
            best <= i,
            (best as nat, cur as nat) == loss_runs(s@.subrange(0, i as int)),
        decreases s.len() - i,
    {
        assert(s@.subrange(0, i + 1).drop_last() =~= s@.subrange(0, i as int));
        if s[i].lt(&zero) {
            cur = cur + 1;
            if cur > best {
                best = cur;
            }
        } else {
            cur = 0;
        }
        i = i + 1;
    }
    assert(s@.subrange(0, s@.len() as int) =~= s@);
    best
}

/// Drawdown in percent from `peak` to `equity`; zero for a non-positive peak.
pub fn drawdown_pct(peak: Dec, equity: Dec) -> (r: Option<Dec>)
    ensures
        r == drawdown_pct_spec(peak, equity),
{
    if peak.gt(&Dec::zero()) {
        mul_opt(div_opt(peak.sub(equity), Some(peak)), Some(Dec::new(100, 0)))
    } else {
        Some(Dec::new(0, 0))
    }
}

fn replay_equity(s: &[Dec], initial: Dec) -> (r: Option<(Dec, Dec, Dec)>)
    ensures
        r == equity_path(s@, initial),
{
    let mut equity = initial;
    let mut peak = initial;
    let mut max_dd = Dec::new(0, 0);
    let mut i: usize = 0;
    while i < s.len()
        invariant
            0 <= i <= s.len(),
            equity_path(s@.subrange(0, i as int), initial) == Some((equity, peak, max_dd)),
        decreases s.len() - i,
    {
        assert(s@.subrange(0, i + 1).drop_last() =~= s@.subrange(0, i as int));
        equity = match equity.add(s[i]) {
            None => {
                proof {
                    lemma_equity_path_none_stays(s@, initial, (i + 1) as nat);
                }
                return None;
            },
            Some(e) => e,
        };
        if equity.gt(&peak) {
            peak = equity;
        }
        let dd = match drawdown_pct(peak, equity) {
            None => {
                proof {
                    lemma_equity_path_none_stays(s@, initial, (i + 1) as nat);
                }
                return None;
            },
            Some(d) => d,
        };
        if dd.gt(&max_dd) {
            max_dd = dd;
        }
        i = i + 1;
    }
    assert(s@.subrange(0, s@.len() as int) =~= s@);
    Some((equity, peak, max_dd))
}

proof fn lemma_equity_path_none_stays(s: Seq<Dec>, initial: Dec, k: nat)
    requires
        k <= s.len(),
        equity_path(s.subrange(0, k as int), initial) is None,
    ensures
        equity_path(s, initial) is None,
    decreases s.len() - k,
{
    if k < s.len() {
        assert(s.subrange(0, (k + 1) as int).drop_last() =~= s.subrange(0, k as int));
        lemma_equity_path_none_stays(s, initial, k + 1);
    } else {
        assert(s.subrange(0, k as int) =~= s);
    }
}

fn mean_or_zero_of(s: &[Dec]) -> (r: Option<Dec>)
    ensures
        r == mean_or_zero(s@),
{
    if s.len() > 0 {
        div_opt(sum(s), Some(Dec::from_u32(#[verifier::truncate] (s.len() as u32))))
    } else {
        Some(Dec::new(0, 0))
    }
}

/// Performance metrics of a trade list: returns, win rate, averages, profit
/// factor, longest losing streak and the largest drawdown of the realized
/// equity path.  `None` where an intermediate value overflows.
pub fn compute_metrics(
    trades: &[TradeRecord],
    initial_capital: Dec,
    final_equity: Dec,
    total_commission: Dec,
) -> (r: Option<PerformanceMetrics>)
    ensures
        r == metrics_spec(trades@, initial_capital, final_equity, total_commission),
{
    let pnls = collect_pnls(trades);
    let winning = select_positive(&pnls);
    let losing = select_negative(&pnls);
    let hundred = Dec::new(100, 0);
    let total_return = final_equity.sub(initial_capital);
    let total_return_pct = if initial_capital.gt(&Dec::zero()) {
        mul_opt(div_opt(total_return, Some(initial_capital)), Some(hundred))
    } else {
        Some(Dec::new(0, 0))
    };
    let win_rate = if pnls.len() > 0 {
        mul_opt(
            Dec::from_u32(#[verifier::truncate] (winning.len() as u32)).div(
                Dec::from_u32(#[verifier::truncate] (pnls.len() as u32)),
            ),
            Some(hundred),
        )
    } else {
        Some(Dec::new(0, 0))
    };
    let avg_win = mean_or_zero_of(&winning);
    let avg_loss = mean_or_zero_of(&losing);
    let avg_trade = mean_or_zero_of(&pnls);
    let profit_factor: Option<Option<Dec>> = if losing.len() > 0 {
        let losses_abs = abs_each(&losing);
        match (sum(&winning), sum(&losses_abs)) {
            (Some(gp), Some(gl)) => {
                if gl.gt(&Dec::zero()) {
                    match gp.div(gl) {
                        Some(pf) => Some(Some(pf)),
                        None => None,
                    }
                } else {
                    Some(None)
                }
            },
            _ => None,
        }
    } else {
        Some(None)
    };
    let max_consec = longest_loss_run(&pnls);
    let path = replay_equity(&pnls, initial_capital);
    match (total_return, total_return_pct, win_rate, avg_win, avg_loss, avg_trade, profit_factor, path) {
        (
            Some(tr),
            Some(trp),
            Some(wr),
            Some(aw),
            Some(al),
            Some(at),
            Some(pf),
            Some((_, _, max_dd)),
        ) => Some(
            PerformanceMetrics {
                total_return: tr,
                total_return_pct: trp,
                annualized_return_pct: None,
                max_drawdown_pct: max_dd,
                sharpe_ratio: None,
                sortino_ratio: None,
                calmar_ratio: None,
                win_rate: wr,
                profit_factor: pf,
                total_trades: trades.len(),
                avg_trade_return_pct: at,
                avg_win_pct: aw,
                avg_loss_pct: al,
                max_consecutive_losses: max_consec,
                exposure_pct: Dec::new(0, 0),
                total_commission: total_commission,
            },
        ),
        _ => None,
    }
}

/// Metrics of a backtest that made no trades.
pub fn empty_metrics() -> (r: PerformanceMetrics)
    ensures
        r.total_return == decimal::dec_lit(0, 0),
        r.total_return_pct == decimal::dec_lit(0, 0),
        r.max_drawdown_pct == decimal::dec_lit(0, 0),
        r.win_rate == decimal::dec_lit(0, 0),
        r.total_trades == 0,
        r.max_consecutive_losses == 0,
        r.total_commission == decimal::dec_lit(0, 0),
        r.profit_factor is None,
        r.annualized_return_pct is None,
        r.sharpe_ratio is None,
        r.sortino_ratio is None,
        r.calmar_ratio is None,
        r.avg_trade_return_pct == decimal::dec_lit(0, 0),
        r.avg_win_pct == decimal::dec_lit(0, 0),
        r.avg_loss_pct == decimal::dec_lit(0, 0),
        r.exposure_pct == decimal::dec_lit(0, 0),
{
    PerformanceMetrics {
        total_return: Dec::new(0, 0),
        total_return_pct: Dec::new(0, 0),
        annualized_return_pct: None,
        max_drawdown_pct: Dec::new(0, 0),
        sharpe_ratio: None,
        sortino_ratio: None,
        calmar_ratio: None,
        win_rate: Dec::new(0, 0),
        profit_factor: None,
        total_trades: 0,
        avg_trade_return_pct: Dec::new(0, 0),
        avg_win_pct: Dec::new(0, 0),
        avg_loss_pct: Dec::new(0, 0),
        max_consecutive_losses: 0,
        exposure_pct: Dec::new(0, 0),
        total_commission: Dec::new(0, 0),
    }
}

} // verus!
