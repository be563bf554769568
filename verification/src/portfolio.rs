//! Portfolio bookkeeping and position sizing: risk-per-trade sizing from the
//! stop distance, a Kelly fraction cap, volatility targeting, drawdown-aware
//! de-risking, and concentration and leverage limits.
use vstd::prelude::*;
use crate::decimal::{self, Dec, add_opt, sub_opt, mul_opt, div_opt};
use crate::types::{Position, Signal, position_is_flat};
use crate::config::PortfolioConfig;
use crate::risk::{open_notional, unrealized_sum};

verus! {

/// The key a position is stored under: `"{symbol}:{strategy}"`.
pub open spec fn position_key(symbol: Seq<char>, strategy: Seq<char>) -> Seq<char> {
    symbol + ":"@ + strategy
}

pub open spec fn key_of(p: Position) -> Seq<char> {
    position_key(p.symbol@, p.strategy_name@)
}

/// Stored positions: none flat, no key twice.
pub open spec fn positions_wf(ps: Seq<Position>) -> bool {
    &&& forall|i: int| 0 <= i < ps.len() ==> !position_is_flat(#[trigger] ps[i])
    &&& forall|i: int, j: int|
        0 <= i < j < ps.len() ==> key_of(#[trigger] ps[i]) != key_of(#[trigger] ps[j])
}

/// Index of the position stored under `key`, if any.
pub open spec fn index_of_key(ps: Seq<Position>, key: Seq<char>) -> Option<int> {
    if exists|i: int| 0 <= i < ps.len() && key_of(ps[i]) == key {
        Some(choose|i: int| 0 <= i < ps.len() && key_of(ps[i]) == key)
    } else {
        None
    }
}

/// The abstract state of a portfolio manager.
pub struct PortfolioView {
    pub config: PortfolioConfig,
    pub positions: Seq<Position>,
    pub equity: Dec,
    pub peak_equity: Dec,
}

/// Portfolio manager tracking positions and computing sizes.
pub struct PortfolioManager {
    config: PortfolioConfig,
    positions: Vec<Position>,
    equity: Dec,
    peak_equity: Dec,
}

impl View for PortfolioManager {
    type V = PortfolioView;

    closed spec fn view(&self) -> PortfolioView {
        PortfolioView {
            config: self.config,
            positions: self.positions@,
            equity: self.equity,
            peak_equity: self.peak_equity,
        }
    }
}

/// `Decimal::min` on optional operands.
pub open spec fn min_opt(a: Option<Dec>, b: Option<Dec>) -> Option<Dec> {
    match (a, b) {
        (Some(x), Some(y)) => Some(decimal::dec_min(x, y)),
        _ => None,
    }
}

/// `Decimal::max` on optional operands.
pub open spec fn max_opt(a: Option<Dec>, b: Option<Dec>) -> Option<Dec> {
    match (a, b) {
        (Some(x), Some(y)) => Some(decimal::dec_max(x, y)),
        _ => None,
    }
}

/// Units affordable with the risk budget: `risk_amount / |entry - stop|`
/// when the signal has both and they differ, else `risk_amount / price`.
pub open spec fn size_from_risk_spec(signal: Signal, price: Dec, risk_amount: Option<Dec>) -> Option<
    Dec,
> {
    match (signal.stop_loss, signal.entry_price) {
        (Some(stop), Some(entry)) => match decimal::sub_spec(Some(entry), Some(stop)) {
            None => None,
            Some(d) => {
                let per_unit = decimal::dec_abs_of(d);
                if per_unit@ > 0 {
                    decimal::div_spec(risk_amount, Some(per_unit))
                } else {
                    decimal::div_spec(risk_amount, Some(price))
                }
            },
        },
        _ => decimal::div_spec(risk_amount, Some(price)),
    }
}

/// Volatility targeting: scale by `min(target / atr_pct, 1)` when an ATR and
/// a target are known.
pub open spec fn vol_adjusted_spec(cfg: PortfolioConfig, price: Dec, atr: Option<Dec>, kelly: Option<Dec>) -> Option<
    Dec,
> {
    match atr {
        Some(a) => if a@ > 0 && price@ > 0 {
            match decimal::mul_spec(
                decimal::div_spec(Some(a), Some(price)),
                Some(decimal::dec_lit(100, 0)),
            ) {
                None => None,
                Some(atr_pct) => match cfg.target_volatility_pct {
                    Some(target) => if atr_pct@ > 0 {
                        decimal::mul_spec(
                            kelly,
                            min_opt(
                                decimal::div_spec(Some(target), Some(atr_pct)),
                                Some(decimal::dec_lit(1, 0)),
                            ),
                        )
                    } else {
                        kelly
                    },
                    None => kelly,
                },
            }
        } else {
            kelly
        },
        None => kelly,
    }
}

/// De-risking factor: 1 up to a 5% drawdown, then `1 - (dd - 5) / 10`,
/// never below 0.1.
pub open spec fn dd_scale_spec(drawdown: Dec) -> Option<Dec> {
    if drawdown@ > decimal::dec_lit(5, 0)@ {
        max_opt(
            decimal::sub_spec(
                Some(decimal::dec_lit(1, 0)),
                decimal::div_spec(
                    decimal::sub_spec(Some(drawdown), Some(decimal::dec_lit(5, 0))),
                    Some(decimal::dec_lit(10, 0)),
                ),
            ),
            Some(decimal::dec_lit(1, 1)),
        )
    } else {
        Some(decimal::dec_lit(1, 0))
    }
}

/// `(peak - equity) / peak * 100`, or 0 for a non-positive peak.
pub open spec fn portfolio_drawdown(v: PortfolioView) -> Option<Dec> {
    if v.peak_equity@ > 0 {
        decimal::mul_spec(
            decimal::div_spec(
                decimal::sub_spec(Some(v.peak_equity), Some(v.equity)),
                Some(v.peak_equity),
            ),
            Some(decimal::dec_lit(100, 0)),
        )
    } else {
        Some(decimal::dec_lit(0, 0))
    }
}

/// The size `compute_position_size` returns; `None` on overflow.
pub open spec fn position_size_spec(v: PortfolioView, signal: Signal, price: Dec, atr: Option<Dec>) -> Option<
    Dec,
> {
    let cfg = v.config;
    if price@ <= 0 {
        Some(decimal::dec_lit(0, 0))
    } else {
        let hundred = Some(decimal::dec_lit(100, 0));
        let risk_amount = decimal::div_spec(
            decimal::mul_spec(Some(v.equity), Some(cfg.risk_per_trade_pct)),
            hundred,
        );
        let kelly = decimal::mul_spec(
            size_from_risk_spec(signal, price, risk_amount),
            Some(cfg.kelly_fraction),
        );
        let vol_adjusted = vol_adjusted_spec(cfg, price, atr, kelly);
        let dd_adjusted = match portfolio_drawdown(v) {
            None => None,
            Some(dd) => decimal::mul_spec(vol_adjusted, dd_scale_spec(dd)),
        };
        max_opt(
            min_opt(min_opt(dd_adjusted, concentration_cap(v, price)), leverage_cap(v, price)),
            Some(decimal::dec_lit(0, 0)),
        )
    }
}

/// Volatility targeting only scales the Kelly size down: without an ATR
/// the size is the Kelly size itself; with one it is the Kelly size, or the
/// Kelly size times a factor of at most one (`min(target / atr_pct, 1)`),
/// or an overflow.
pub proof fn law_volatility_factor_at_most_one(
    cfg: PortfolioConfig,
    price: Dec,
    atr: Option<Dec>,
    kelly: Option<Dec>,
)
    ensures
        vol_adjusted_spec(cfg, price, None, kelly) == kelly,
        ({
            let adjusted = vol_adjusted_spec(cfg, price, atr, kelly);
            ||| adjusted == kelly
            ||| adjusted is None
            ||| exists|f: Dec|
                f@ <= decimal::dec_lit(1, 0)@ && #[trigger] decimal::mul_spec(kelly, Some(f))
                    == adjusted
        }),
{
    let adjusted = vol_adjusted_spec(cfg, price, atr, kelly);
    if adjusted != kelly && adjusted is Some {
        let a = atr->0;
        let atr_pct = decimal::mul_spec(
            decimal::div_spec(Some(a), Some(price)),
            Some(decimal::dec_lit(100, 0)),
        )->0;
        let q = decimal::div_spec(Some(cfg.target_volatility_pct->0), Some(atr_pct));
        let f = decimal::dec_min(q->0, decimal::dec_lit(1, 0));
        assert(decimal::mul_spec(kelly, Some(f)) == adjusted);
    }
}

/// The most units the concentration limit allows at `price`:
/// `equity * concentration_limit_pct / 100 / price`.
pub open spec fn concentration_cap(v: PortfolioView, price: Dec) -> Option<Dec> {
    decimal::div_spec(
        decimal::div_spec(
            decimal::mul_spec(Some(v.equity), Some(v.config.concentration_limit_pct)),
            Some(decimal::dec_lit(100, 0)),
        ),
        Some(price),
    )
}

/// The most units the leverage limit leaves room for at `price`:
/// `(equity * max_portfolio_leverage - exposure) / price`, zero when there
/// is no headroom.
pub open spec fn leverage_cap(v: PortfolioView, price: Dec) -> Option<Dec> {
    match decimal::sub_spec(
        decimal::mul_spec(Some(v.equity), Some(v.config.max_portfolio_leverage)),
        open_notional(v.positions, None),
    ) {
        None => None,
        Some(r) => if r@ > 0 {
            decimal::div_spec(Some(r), Some(price))
        } else {
            Some(decimal::dec_lit(0, 0))
        },
    }
}

/// Position sizes are never negative, zero at a non-positive price, and
/// never above the concentration cap nor the leverage headroom (each as the
/// decimal operations compute it).
pub proof fn law_position_size_caps(v: PortfolioView, signal: Signal, price: Dec, atr: Option<Dec>)
    requires
        position_size_spec(v, signal, price, atr) is Some,
    ensures
        ({
            let size = position_size_spec(v, signal, price, atr)->0;
            &&& size@ >= 0
            &&& price@ <= 0 ==> size == decimal::dec_lit(0, 0)
            &&& price@ > 0 ==> (concentration_cap(v, price) matches Some(c) && (size@ <= c@
                || size@ == 0))
            &&& price@ > 0 ==> (leverage_cap(v, price) matches Some(l) && (size@ <= l@ || size@
                == 0))
        }),
{
    decimal::lemma_lit(0, 0);
}

/// Builds `"{symbol}:{strategy}"`.
pub fn position_key_string(symbol: &String, strategy: &String) -> (r: String)
    ensures
        r@ == position_key(symbol@, strategy@),
{
    let mut k = symbol.clone();
    k.append(":");
    k.append(strategy.as_str());
    k
}

fn min_of(a: Option<Dec>, b: Option<Dec>) -> (r: Option<Dec>)
    ensures
        r == min_opt(a, b),
{
    match (a, b) {
        (Some(x), Some(y)) => Some(x.min(y)),
        _ => None,
    }
}

fn max_of(a: Option<Dec>, b: Option<Dec>) -> (r: Option<Dec>)
    ensures
        r == max_opt(a, b),
{
    match (a, b) {
        (Some(x), Some(y)) => Some(x.max(y)),
        _ => None,
    }
}

impl PortfolioManager {
    /// An empty portfolio whose equity and peak are the initial capital.
    pub fn new(config: PortfolioConfig) -> (r: PortfolioManager)
        ensures
            positions_wf(r@.positions),
            r@.config == config,
            r@.positions.len() == 0,
            r@.equity == config.initial_capital,
            r@.peak_equity == config.initial_capital,
    {
        let equity = config.initial_capital;
        PortfolioManager { config, positions: Vec::new(), equity, peak_equity: equity }
    }

    /// Position size for a new signal at `current_price`, given the ATR.
    /// Zero for a non-positive price; never negative.
    pub fn compute_position_size(&self, signal: &Signal, current_price: Dec, atr: Option<Dec>) -> (r:
        Option<Dec>)
        ensures
            r == position_size_spec(self@, *signal, current_price, atr),
    {
        let zero = Dec::zero();
        if current_price.le(&zero) {
            return Some(Dec::new(0, 0));
        }
        let hundred = Some(Dec::new(100, 0));
        let risk_amount = div_opt(self.equity.mul(self.config.risk_per_trade_pct), hundred);
        let size_from_risk = match (signal.stop_loss, signal.entry_price) {
            (Some(stop), Some(entry)) => match entry.sub(stop) {
                None => None,
                Some(d) => {
                    let per_unit = d.abs();
                    if per_unit.gt(&zero) {
                        div_opt(risk_amount, Some(per_unit))
                    } else {
                        div_opt(risk_amount, Some(current_price))
                    }
                },
            },
            _ => div_opt(risk_amount, Some(current_price)),
        };
        let kelly = mul_opt(size_from_risk, Some(self.config.kelly_fraction));
        let vol_adjusted = match atr {
            Some(a) => {
                if a.gt(&zero) && current_price.gt(&zero) {
                    match mul_opt(a.div(current_price), hundred) {
                        None => None,
                        Some(atr_pct) => match self.config.target_volatility_pct {
                            Some(target) => {
                                if atr_pct.gt(&zero) {
                                    mul_opt(kelly, min_of(target.div(atr_pct), Some(Dec::new(1, 0))))
                                } else {
                                    kelly
                                }
                            },
                            None => kelly,
                        },
                    }
                } else {
                    kelly
                }
            },
            None => kelly,
        };
        let drawdown = if self.peak_equity.gt(&zero) {
            mul_opt(div_opt(self.peak_equity.sub(self.equity), Some(self.peak_equity)), hundred)
        } else {
            Some(Dec::new(0, 0))
        };
        let dd_adjusted = match drawdown {
            None => None,
            Some(dd) => {
                let scale = if dd.gt(&Dec::new(5, 0)) {
                    max_of(
                        sub_opt(
                            Some(Dec::new(1, 0)),
                            div_opt(dd.sub(Dec::new(5, 0)), Some(Dec::new(10, 0))),
                        ),
                        Some(Dec::new(1, 1)),
                    )
                } else {
                    Some(Dec::new(1, 0))
                };
                mul_opt(vol_adjusted, scale)
            },
        };
        let max_size = div_opt(
            div_opt(self.equity.mul(self.config.concentration_limit_pct), hundred),
            Some(current_price),
        );
        let remaining = sub_opt(
            self.equity.mul(self.config.max_portfolio_leverage),
            self.total_notional_exposure(),
        );
        let leverage_max = match remaining {
            None => None,
            Some(r) => {
                if r.gt(&zero) {
                    r.div(current_price)
                } else {
                    Some(Dec::new(0, 0))
                }
            },
        };
        max_of(min_of(min_of(dd_adjusted, max_size), leverage_max), Some(Dec::new(0, 0)))
    }

    /// Total notional of the open positions; `None` on overflow.
    pub fn total_notional_exposure(&self) -> (r: Option<Dec>)
        ensures
            r == open_notional(self@.positions, None),
    {
        let mut acc = Some(Dec::zero());
        let mut i: usize = 0;
        while i < self.positions.len()
            invariant
                0 <= i <= self.positions@.len(),
                acc == open_notional(self.positions@.subrange(0, i as int), None),
            decreases self.positions@.len() - i,
        {
            assert(self.positions@.subrange(0, i + 1).drop_last() =~= self.positions@.subrange(
                0,
                i as int,
            ));
            let p = &self.positions[i];
            if !p.is_flat() {
                acc = add_opt(acc, p.notional_value());
            }
            i = i + 1;
        }
        assert(self.positions@.subrange(0, self.positions@.len() as int) =~= self.positions@);
        acc
    }

    /// Total unrealized PnL; `None` on overflow.
    pub fn total_unrealized_pnl(&self) -> (r: Option<Dec>)
        ensures
            r == unrealized_sum(self@.positions),
    {
        let mut acc = Some(Dec::zero());
        let mut i: usize = 0;
        while i < self.positions.len()
            invariant
                0 <= i <= self.positions@.len(),
                acc == unrealized_sum(self.positions@.subrange(0, i as int)),
            decreases self.positions@.len() - i,
        {
            assert(self.positions@.subrange(0, i + 1).drop_last() =~= self.positions@.subrange(
                0,
                i as int,
            ));
            acc = add_opt(acc, Some(self.positions[i].unrealized_pnl));
            i = i + 1;
        }
        assert(self.positions@.subrange(0, self.positions@.len() as int) =~= self.positions@);
        acc
    }

    /// Sets the equity, raising the peak when exceeded.
    pub fn update_equity(&mut self, equity: Dec)
        ensures
            final(self)@ == (PortfolioView {
                equity,
                peak_equity: if equity@ > old(self)@.peak_equity@ {
                    equity
                } else {
                    old(self)@.peak_equity
                },
                ..old(self)@
            }),
    {
        self.equity = equity;
        if equity.gt(&self.peak_equity) {
            self.peak_equity = equity;
        }
    }

    /// Index of the stored position with the given key.
    fn find_key(&self, key: &String) -> (r: Option<usize>)
        requires
            positions_wf(self@.positions),
        ensures
            r matches Some(i) ==> i < self@.positions.len() && key_of(self@.positions[i as int]) == key@
                && index_of_key(self@.positions, key@) == Some(i as int),
            r is None ==> index_of_key(self@.positions, key@) is None,
    {
        let mut i: usize = 0;
        while i < self.positions.len()
            invariant
                0 <= i <= self.positions@.len(),
                positions_wf(self@.positions),
                forall|j: int| 0 <= j < i ==> key_of(self.positions@[j]) != key@,
            decreases self.positions@.len() - i,
        {
            let k = position_key_string(&self.positions[i].symbol, &self.positions[i].strategy_name);
            if k == *key {
                proof {
                    let c = choose|j: int| 0 <= j < self.positions@.len() && key_of(self.positions@[j]) == key@;
                    if c != i {
                        if c < i {
                            assert(key_of(self.positions@[c]) != key@);
                        } else {
                            assert(key_of(self.positions@[i as int]) != key_of(self.positions@[c]));
                        }
                    }
                }
                return Some(i);
            }
            i = i + 1;
        }
        None
    }

    /// Stores a position under `"{symbol}:{strategy}"`, replacing the one
    /// stored there; a flat position removes the entry instead.
    pub fn update_position(&mut self, position: Position)
        requires
            positions_wf(old(self)@.positions),
        ensures
            positions_wf(final(self)@.positions),
            final(self)@.config == old(self)@.config,
            final(self)@.equity == old(self)@.equity,
            final(self)@.peak_equity == old(self)@.peak_equity,
            final(self)@.positions == (if position_is_flat(position) {
                match index_of_key(old(self)@.positions, key_of(position)) {
                    Some(i) => old(self)@.positions.remove(i),
                    None => old(self)@.positions,
                }
            } else {
                match index_of_key(old(self)@.positions, key_of(position)) {
                    Some(i) => old(self)@.positions.update(i, position),
                    None => old(self)@.positions.push(position),
                }
            }),
    {
        let key = position_key_string(&position.symbol, &position.strategy_name);
        let found = self.find_key(&key);
        if position.is_flat() {
            if let Some(i) = found {
                self.positions.remove(i);
                assert forall|a: int, b: int| 0 <= a < b < self.positions@.len() implies key_of(
                    #[trigger] self.positions@[a],
                ) != key_of(#[trigger] self.positions@[b]) by {
                    let a0 = if a < i { a } else { a + 1 };
                    let b0 = if b < i { b } else { b + 1 };
                    assert(self.positions@[a] == old(self)@.positions[a0]);
                    assert(self.positions@[b] == old(self)@.positions[b0]);
                }
                assert forall|a: int| 0 <= a < self.positions@.len() implies !position_is_flat(
                    #[trigger] self.positions@[a],
                ) by {
                    let a0 = if a < i { a } else { a + 1 };
                    assert(self.positions@[a] == old(self)@.positions[a0]);
                }
            }
        } else {
            match found {
                Some(i) => {
                    self.positions.set(i, position);
                },
                None => {
                    self.positions.push(position);
                },
            }
        }
    }

    /// The position stored for a symbol and strategy.
    pub fn get_position(&self, symbol: &String, strategy: &String) -> (r: Option<&Position>)
        requires
            positions_wf(self@.positions),
        ensures
            r == (match index_of_key(self@.positions, position_key(symbol@, strategy@)) {
                Some(i) => Some(&self@.positions[i]),
                None => None,
            }),
    {
        let key = position_key_string(symbol, strategy);
        match self.find_key(&key) {
            Some(i) => Some(&self.positions[i]),
            None => None,
        }
    }

    /// All open positions (every stored position is open).
    pub fn open_positions(&self) -> (r: Vec<&Position>)
        requires
            positions_wf(self@.positions),
        ensures
            r@.len() == self@.positions.len(),
            forall|i: int| 0 <= i < r@.len() ==> *r@[i] == self@.positions[i],
    {
        let mut out: Vec<&Position> = Vec::new();
        let mut i: usize = 0;
        while i < self.positions.len()
            invariant
                0 <= i <= self.positions@.len(),
                out@.len() == i,
                forall|j: int| 0 <= j < i ==> *out@[j] == self.positions@[j],
            decreases self.positions@.len() - i,
        {
            out.push(&self.positions[i]);
            i = i + 1;
        }
        out
    }

    /// Copies of the stored positions.
    pub fn positions_vec(&self) -> (r: Vec<Position>)
        ensures
            r@ == self@.positions,
    {
        let mut out: Vec<Position> = Vec::new();
        let mut i: usize = 0;
        while i < self.positions.len()
            invariant
                0 <= i <= self.positions@.len(),
                out@ == self.positions@.subrange(0, i as int),
            decreases self.positions@.len() - i,
        {
            out.push(self.positions[i].duplicate());
            i = i + 1;
        }
        out
    }

    /// The current equity.
    pub fn equity(&self) -> (r: Dec)
        ensures
            r == self@.equity,
    {
        self.equity
    }
}

} // verus!
