//! Pre-trade risk engine: kill switches, daily loss and drawdown circuit
//! breakers, position, exposure, leverage and rate limits.
use vstd::prelude::*;
use crate::decimal::{self, Dec, add_opt, sub_opt, mul_opt, div_opt};
use crate::types::{
    Signal, OrderRequest, Position, RiskVerdict, KillSwitchType, KillSwitchState,
    PortfolioRiskSnapshot, position_is_flat,
};
use crate::config::{RiskConfig, usize_display, usize_to_string};

verus! {

/// Slot of each kill switch in the engine's table.
pub open spec fn switch_slot(k: KillSwitchType) -> int {
    match k {
        KillSwitchType::Global => 0,
        KillSwitchType::ExchangeConnectivity => 1,
        KillSwitchType::StaleMarketData => 2,
        KillSwitchType::ModelConfidence => 3,
        KillSwitchType::ExtremeVolatility => 4,
        KillSwitchType::OrderRejectionAnomaly => 5,
        KillSwitchType::RunawayTrading => 6,
        KillSwitchType::DailyLossLimit => 7,
        KillSwitchType::MaxDrawdown => 8,
    }
}

fn slot_of(k: KillSwitchType) -> (r: usize)
    ensures
        r == switch_slot(k),
        r < 9,
{
    match k {
        KillSwitchType::Global => 0,
        KillSwitchType::ExchangeConnectivity => 1,
        KillSwitchType::StaleMarketData => 2,
        KillSwitchType::ModelConfidence => 3,
        KillSwitchType::ExtremeVolatility => 4,
        KillSwitchType::OrderRejectionAnomaly => 5,
        KillSwitchType::RunawayTrading => 6,
        KillSwitchType::DailyLossLimit => 7,
        KillSwitchType::MaxDrawdown => 8,
    }
}

/// The abstract state of a risk engine.
pub struct RiskView {
    pub config: RiskConfig,
    pub kill_switches: Map<KillSwitchType, KillSwitchState>,
    pub daily_pnl: Dec,
    pub daily_trade_count: nat,
    pub peak_equity: Dec,
    pub current_equity: Dec,
    pub order_rejections_this_hour: u32,
    pub orders_this_minute: u32,
    pub last_minute_reset_ms: i64,
    pub last_hour_reset_ms: i64,
}

/// Whether any kill switch has fired.
pub open spec fn any_triggered(ks: Map<KillSwitchType, KillSwitchState>) -> bool {
    exists|k: KillSwitchType| ks[k] == KillSwitchState::Triggered
}

/// Central risk controller.
pub struct RiskEngine {
    config: RiskConfig,
    kill_switches: [KillSwitchState; 9],
    daily_pnl: Dec,
    daily_trade_count: usize,
    peak_equity: Dec,
    current_equity: Dec,
    order_rejections_this_hour: u32,
    orders_this_minute: u32,
    last_minute_reset_ms: i64,
    last_hour_reset_ms: i64,
}

impl View for RiskEngine {
    type V = RiskView;

    closed spec fn view(&self) -> RiskView {
        RiskView {
            config: self.config,
            kill_switches: Map::new(
                |k: KillSwitchType| true,
                |k: KillSwitchType| self.kill_switches@[switch_slot(k)],
            ),
            daily_pnl: self.daily_pnl,
            daily_trade_count: self.daily_trade_count as nat,
            peak_equity: self.peak_equity,
            current_equity: self.current_equity,
            order_rejections_this_hour: self.order_rejections_this_hour,
            orders_this_minute: self.orders_this_minute,
            last_minute_reset_ms: self.last_minute_reset_ms,
            last_hour_reset_ms: self.last_hour_reset_ms,
        }
    }
}

/// Reads the wall clock (`chrono::Utc::now`) as Unix milliseconds.  Nothing
/// is promised of the value.
#[verifier::external_body]
pub(crate) fn now_millis() -> (r: i64) {
    chrono::Utc::now().timestamp_millis()
}

/// The counters after the per-minute and per-hour resets at `now`.
pub open spec fn reset_counters(v: RiskView, now: i64) -> RiskView {
    let v1 = if now - v.last_minute_reset_ms >= 60000 {
        RiskView { orders_this_minute: 0, last_minute_reset_ms: now, ..v }
    } else {
        v
    };
    if now - v1.last_hour_reset_ms >= 3600000 {
        RiskView { order_rejections_this_hour: 0, last_hour_reset_ms: now, ..v1 }
    } else {
        v1
    }
}

/// Which check decided an order, with the figures quoted in its message.
pub enum RiskDecision {
    KillSwitchActive,
    LowConfidence,
    DailyLossBreached { loss_pct: Dec },
    DrawdownBreached { drawdown_pct: Dec },
    TooManyPositions,
    TooManyTrades,
    RateLimited,
    OrderTooLarge { notional: Dec, new_quantity: Dec },
    PositionTooLarge,
    ExposureTooLarge,
    LeverageTooHigh { leverage: Dec },
    Approved,
}

/// Number of positions that are not flat.
pub open spec fn open_count(ps: Seq<Position>) -> nat
    decreases ps.len(),
{
    if ps.len() == 0 {
        0
    } else if position_is_flat(ps.last()) {
        open_count(ps.drop_last())
    } else {
        open_count(ps.drop_last()) + 1
    }
}

/// Sum of `quantity * current_price` over the positions that are not flat
/// (and, when `symbol` is given, trade that symbol).
pub open spec fn open_notional(ps: Seq<Position>, symbol: Option<Seq<char>>) -> Option<Dec>
    decreases ps.len(),
{
    if ps.len() == 0 {
        Some(decimal::dec_zero())
    } else {
        let rest = open_notional(ps.drop_last(), symbol);
        let p = ps.last();
        if !position_is_flat(p) && (symbol is None || p.symbol@ == symbol->0) {
            decimal::add_spec(rest, decimal::mul_spec(Some(p.quantity), Some(p.current_price)))
        } else {
            rest
        }
    }
}

/// `|daily_pnl / equity * 100|`, or 100 when equity is not positive.
pub open spec fn daily_loss_pct_spec(v: RiskView) -> Option<Dec> {
    if v.current_equity@ > 0 {
        match decimal::mul_spec(
            decimal::div_spec(Some(v.daily_pnl), Some(v.current_equity)),
            Some(decimal::dec_lit(100, 0)),
        ) {
            Some(x) => Some(decimal::dec_abs_of(x)),
            None => None,
        }
    } else {
        Some(decimal::dec_lit(100, 0))
    }
}

/// `(peak - equity) / peak * 100`, or 0 when the peak is not positive.
pub open spec fn engine_drawdown_pct(v: RiskView) -> Option<Dec> {
    if v.peak_equity@ > 0 {
        decimal::mul_spec(
            decimal::div_spec(
                decimal::sub_spec(Some(v.peak_equity), Some(v.current_equity)),
                Some(v.peak_equity),
            ),
            Some(decimal::dec_lit(100, 0)),
        )
    } else {
        Some(decimal::dec_lit(0, 0))
    }
}

/// The order's price, or `default` for a market order without one.
pub open spec fn price_or(order: OrderRequest, default: Dec) -> Dec {
    match order.price {
        Some(p) => p,
        None => default,
    }
}

/// The checks of `check_order`, in order; the first that fails decides.
/// `None` where an intermediate value overflows.
pub open spec fn risk_decision(
    v: RiskView,
    confidence: Dec,
    order: OrderRequest,
    positions: Seq<Position>,
) -> Option<RiskDecision> {
    let cfg = v.config;
    if any_triggered(v.kill_switches) {
        Some(RiskDecision::KillSwitchActive)
    } else if confidence@ < cfg.min_confidence_threshold@ {
        Some(RiskDecision::LowConfidence)
    } else {
        match daily_loss_pct_spec(v) {
            None => None,
            Some(loss_pct) => if v.daily_pnl@ < 0 && loss_pct@ > cfg.max_daily_loss_pct@ {
                Some(RiskDecision::DailyLossBreached { loss_pct })
            } else {
                match engine_drawdown_pct(v) {
                    None => None,
                    Some(dd) => if dd@ > cfg.max_drawdown_pct@ {
                        Some(RiskDecision::DrawdownBreached { drawdown_pct: dd })
                    } else if open_count(positions) >= cfg.max_open_positions {
                        Some(RiskDecision::TooManyPositions)
                    } else if v.daily_trade_count >= cfg.max_trades_per_day {
                        Some(RiskDecision::TooManyTrades)
                    } else if v.orders_this_minute >= cfg.max_orders_per_minute {
                        Some(RiskDecision::RateLimited)
                    } else {
                        order_size_decision(v, order, positions)
                    },
                }
            },
        }
    }
}

/// Checks 8 to 11: single order size, symbol position size, total exposure
/// and leverage.
pub open spec fn order_size_decision(v: RiskView, order: OrderRequest, positions: Seq<Position>) -> Option<
    RiskDecision,
> {
    let cfg = v.config;
    match decimal::mul_spec(Some(order.quantity), Some(price_or(order, decimal::dec_lit(0, 0)))) {
        None => None,
        Some(notional) => if notional@ > cfg.max_single_order_usd@ {
            match decimal::div_spec(
                Some(cfg.max_single_order_usd),
                Some(price_or(order, decimal::dec_lit(1, 0))),
            ) {
                None => None,
                Some(q) => Some(RiskDecision::OrderTooLarge { notional, new_quantity: q }),
            }
        } else {
            match decimal::add_spec(open_notional(positions, Some(order.symbol@)), Some(notional)) {
                None => None,
                Some(sym_total) => if sym_total@ > cfg.max_position_size_usd@ {
                    Some(RiskDecision::PositionTooLarge)
                } else {
                    match decimal::add_spec(open_notional(positions, None), Some(notional)) {
                        None => None,
                        Some(total) => if total@ > cfg.max_notional_exposure_usd@ {
                            Some(RiskDecision::ExposureTooLarge)
                        } else if v.current_equity@ > 0 {
                            match decimal::div_spec(Some(total), Some(v.current_equity)) {
                                None => None,
                                Some(lev) => if lev@ > cfg.max_leverage@ {
                                    Some(RiskDecision::LeverageTooHigh { leverage: lev })
                                } else {
                                    Some(RiskDecision::Approved)
                                },
                            }
                        } else {
                            Some(RiskDecision::Approved)
                        },
                    }
                },
            }
        },
    }
}

/// An approved order keeps every limit: no kill switch is active, the
/// confidence reaches the threshold, the position, trade and rate counts
/// are below their maxima, the order's notional is within the single-order
/// limit, the symbol's open notional plus the order within the position
/// limit, all open notional plus the order within the exposure limit, and,
/// with positive equity, the resulting leverage
/// `(open notional + order notional) / equity` within the maximum leverage.
pub proof fn law_approved_order_within_limits(
    v: RiskView,
    confidence: Dec,
    order: OrderRequest,
    positions: Seq<Position>,
)
    requires
        risk_decision(v, confidence, order, positions) == Some(RiskDecision::Approved),
    ensures
        !any_triggered(v.kill_switches),
        confidence@ >= v.config.min_confidence_threshold@,
        open_count(positions) < v.config.max_open_positions,
        v.daily_trade_count < v.config.max_trades_per_day,
        v.orders_this_minute < v.config.max_orders_per_minute,
        ({
            let cfg = v.config;
            let notional = decimal::mul_spec(
                Some(order.quantity),
                Some(price_or(order, decimal::dec_lit(0, 0))),
            );
            &&& notional is Some
            &&& notional->0@ <= cfg.max_single_order_usd@
            &&& (decimal::add_spec(open_notional(positions, Some(order.symbol@)), notional) matches Some(
                sym_total,
            ) && sym_total@ <= cfg.max_position_size_usd@)
            &&& (decimal::add_spec(open_notional(positions, None), notional) matches Some(total)
                && total@ <= cfg.max_notional_exposure_usd@ && (v.current_equity@ > 0 ==> (
            decimal::div_spec(Some(total), Some(v.current_equity)) matches Some(leverage)
                && leverage@ <= cfg.max_leverage@)))
        }),
{
}

/// The message of a rejection or size reduction.
pub open spec fn decision_message(d: RiskDecision, cfg: RiskConfig, confidence: Dec, symbol: Seq<char>) -> Seq<
    char,
> {
    match d {
        RiskDecision::KillSwitchActive => "Kill switch is active"@,
        RiskDecision::LowConfidence => "Confidence "@ + decimal::decimal_display(confidence)
            + " below threshold "@ + decimal::decimal_display(cfg.min_confidence_threshold),
        RiskDecision::DailyLossBreached { loss_pct } => "Daily loss limit breached: "@
            + decimal::decimal_display(loss_pct) + "%"@,
        RiskDecision::DrawdownBreached { drawdown_pct } => "Max drawdown breached: "@
            + decimal::decimal_display(drawdown_pct) + "%"@,
        RiskDecision::TooManyPositions => "Max open positions "@ + usize_display(
            cfg.max_open_positions,
        ) + " reached"@,
        RiskDecision::TooManyTrades => "Max daily trades "@ + usize_display(cfg.max_trades_per_day)
            + " reached"@,
        RiskDecision::RateLimited => "Order rate limit exceeded"@,
        RiskDecision::OrderTooLarge { notional, new_quantity } => "Notional "@
            + decimal::decimal_display(notional) + " exceeds max "@ + decimal::decimal_display(
            cfg.max_single_order_usd,
        ),
        RiskDecision::PositionTooLarge => "Position size would exceed max "@
            + decimal::decimal_display(cfg.max_position_size_usd) + " for "@ + symbol,
        RiskDecision::ExposureTooLarge => "Total exposure would exceed max "@
            + decimal::decimal_display(cfg.max_notional_exposure_usd),
        RiskDecision::LeverageTooHigh { leverage } => "Leverage "@ + decimal::decimal_display(
            leverage,
        ) + " would exceed max "@ + decimal::decimal_display(cfg.max_leverage),
        RiskDecision::Approved => Seq::empty(),
    }
}

/// Whether a verdict is the one a decision calls for.
pub open spec fn verdict_matches(
    r: RiskVerdict,
    d: RiskDecision,
    cfg: RiskConfig,
    confidence: Dec,
    symbol: Seq<char>,
) -> bool {
    match d {
        RiskDecision::Approved => r is Approved,
        RiskDecision::OrderTooLarge { notional, new_quantity } => r matches RiskVerdict::ReducedSize {
            new_quantity: q,
            reason,
        } && q == new_quantity && reason@ == decision_message(d, cfg, confidence, symbol),
        _ => r matches RiskVerdict::Rejected { reason } && reason@ == decision_message(
            d,
            cfg,
            confidence,
            symbol,
        ),
    }
}

/// The engine state after a decision: the daily-loss or drawdown switch
/// fires on those rejections, and an approval counts against the rate limit.
pub open spec fn state_after(v: RiskView, d: RiskDecision) -> RiskView {
    match d {
        RiskDecision::DailyLossBreached { .. } => RiskView {
            kill_switches: v.kill_switches.insert(
                KillSwitchType::DailyLossLimit,
                KillSwitchState::Triggered,
            ),
            ..v
        },
        RiskDecision::DrawdownBreached { .. } => RiskView {
            kill_switches: v.kill_switches.insert(
                KillSwitchType::MaxDrawdown,
                KillSwitchState::Triggered,
            ),
            ..v
        },
        RiskDecision::Approved => RiskView { orders_this_minute: (v.orders_this_minute + 1) as u32, ..v },
        _ => v,
    }
}

pub(crate) fn concat3(a: &str, b: String, c: &str) -> (r: String)
    ensures
        r@ == a@ + b@ + c@,
{
    let mut s = String::from_str(a);
    s.append(b.as_str());
    s.append(c);
    s
}

pub(crate) fn concat4(a: &str, b: String, c: &str, d: String) -> (r: String)
    ensures
        r@ == a@ + b@ + c@ + d@,
{
    let mut s = String::from_str(a);
    s.append(b.as_str());
    s.append(c);
    s.append(d.as_str());
    s
}

fn rejected(reason: String) -> (r: RiskVerdict)
    ensures
        r matches RiskVerdict::Rejected { reason: x } && x@ == reason@,
{
    RiskVerdict::Rejected { reason }
}

/// Sum of the notionals of the open positions (of `symbol`, when given).
fn open_notional_of(positions: &[Position], symbol: Option<&String>) -> (r: Option<Dec>)
    ensures
        r == open_notional(
            positions@,
            match symbol {
                Some(s) => Some(s@),
                None => None,
            },
        ),
{
    let ghost sym = match symbol {
        Some(s) => Some(s@),
        None => None,
    };
    let mut acc = Some(Dec::zero());
    let mut i: usize = 0;
    while i < positions.len()
        invariant
            0 <= i <= positions.len(),
            sym == (match symbol {
                Some(s) => Some(s@),
                None => None,
            }),
            acc == open_notional(positions@.subrange(0, i as int), sym),
        decreases positions.len() - i,
    {
        assert(positions@.subrange(0, i + 1).drop_last() =~= positions@.subrange(0, i as int));
        let p = &positions[i];
        let matches_symbol = match symbol {
            Some(s) => p.symbol == *s,
            None => true,
        };
        if !p.is_flat() && matches_symbol {
            acc = add_opt(acc, p.notional_value());
        }
        i = i + 1;
    }
    assert(positions@.subrange(0, positions@.len() as int) =~= positions@);
    acc
}

/// Number of positions that are not flat.
pub fn count_open(positions: &[Position]) -> (r: usize)
    ensures
        r == open_count(positions@),
{
    let mut n: usize = 0;
    let mut i: usize = 0;
    while i < positions.len()
        invariant
            0 <= i <= positions.len(),
            n == open_count(positions@.subrange(0, i as int)),
            n <= i,
        decreases positions.len() - i,
    {
        assert(positions@.subrange(0, i + 1).drop_last() =~= positions@.subrange(0, i as int));
        if !positions[i].is_flat() {
            n = n + 1;
        }
        i = i + 1;
    }
    assert(positions@.subrange(0, positions@.len() as int) =~= positions@);
    n
}

impl RiskEngine {
    /// A fresh engine with every kill switch armed, starting equity as both
    /// current and peak equity, and counters reset at `now_ms`.
    pub fn new_at(config: RiskConfig, initial_equity: Dec, now_ms: i64) -> (r: RiskEngine)
        ensures
            r@.config == config,
            forall|k: KillSwitchType| r@.kill_switches[k] == KillSwitchState::Active,
            r@.daily_pnl == decimal::dec_lit(0, 0),
            r@.daily_trade_count == 0,
            r@.peak_equity == initial_equity,
            r@.current_equity == initial_equity,
            r@.order_rejections_this_hour == 0,
            r@.orders_this_minute == 0,
            r@.last_minute_reset_ms == now_ms,
            r@.last_hour_reset_ms == now_ms,
    {
        let ks = [KillSwitchState::Active; 9];
        RiskEngine {
            config,
            kill_switches: ks,
            daily_pnl: Dec::new(0, 0),
            daily_trade_count: 0,
            peak_equity: initial_equity,
            current_equity: initial_equity,
            order_rejections_this_hour: 0,
            orders_this_minute: 0,
            last_minute_reset_ms: now_ms,
            last_hour_reset_ms: now_ms,
        }
    }

    /// A fresh engine whose rate counters start at the current time.
    pub fn new(config: RiskConfig, initial_equity: Dec) -> (r: RiskEngine)
        ensures
            r@.config == config,
            forall|k: KillSwitchType| r@.kill_switches[k] == KillSwitchState::Active,
            r@.daily_pnl == decimal::dec_lit(0, 0),
            r@.daily_trade_count == 0,
            r@.peak_equity == initial_equity,
            r@.current_equity == initial_equity,
            r@.order_rejections_this_hour == 0,
            r@.orders_this_minute == 0,
            r@.last_minute_reset_ms == r@.last_hour_reset_ms,
    {
        let now = now_millis();
        RiskEngine::new_at(config, initial_equity, now)
    }

    /// Whether any kill switch is triggered.
    pub fn any_kill_switch_triggered(&self) -> (r: bool)
        ensures
            r == any_triggered(self@.kill_switches),
    {
        let mut i: usize = 0;
        while i < 9
            invariant
                i <= 9,
                self.kill_switches@.len() == 9,
                forall|j: int| 0 <= j < i ==> self.kill_switches@[j] == KillSwitchState::Active,
            decreases 9 - i,
        {
            if self.kill_switches[i] == KillSwitchState::Triggered {
                proof {
                    let k = slot_kind(i as int);
                    assert(self@.kill_switches[k] == KillSwitchState::Triggered);
                }
                return true;
            }
            i = i + 1;
        }
        proof {
            assert forall|k: KillSwitchType| self@.kill_switches[k] != KillSwitchState::Triggered by {
                assert(0 <= switch_slot(k) < 9);
            }
        }
        false
    }

    /// Fires a kill switch.
    pub fn trigger_kill_switch(&mut self, switch: KillSwitchType, reason: &str)
        ensures
            final(self)@ == (RiskView {
                kill_switches: old(self)@.kill_switches.insert(switch, KillSwitchState::Triggered),
                ..old(self)@
            }),
    {
        let slot = slot_of(switch);
        self.kill_switches[slot] = KillSwitchState::Triggered;
        proof {
            lemma_slots_distinct();
        }
        assert(self@.kill_switches =~= old(self)@.kill_switches.insert(switch, KillSwitchState::Triggered));
    }

    /// Re-arms a kill switch (manual override).
    pub fn reset_kill_switch(&mut self, switch: KillSwitchType)
        ensures
            final(self)@ == (RiskView {
                kill_switches: old(self)@.kill_switches.insert(switch, KillSwitchState::Active),
                ..old(self)@
            }),
    {
        let slot = slot_of(switch);
        self.kill_switches[slot] = KillSwitchState::Active;
        proof {
            lemma_slots_distinct();
        }
        assert(self@.kill_switches =~= old(self)@.kill_switches.insert(switch, KillSwitchState::Active));
    }

    /// Pre-trade check at the current time; see [`RiskEngine::check_order_at`].
    pub fn check_order(&mut self, signal: &Signal, order: &OrderRequest, positions: &[Position]) -> (r: Option<RiskVerdict>)
        ensures
            exists|now: i64| #![trigger reset_counters(old(self)@, now)] {
                let v = reset_counters(old(self)@, now);
                match risk_decision(v, signal.confidence, *order, positions@) {
                    None => r is None && final(self)@ == v,
                    Some(d) => r matches Some(verdict) && verdict_matches(
                        verdict,
                        d,
                        v.config,
                        signal.confidence,
                        order.symbol@,
                    ) && final(self)@ == state_after(v, d),
                }
            },
    {
        let now = now_millis();
        self.check_order_at(now, signal, order, positions)
    }

    /// Pre-trade risk check at `now_ms`.  First the per-minute and per-hour
    /// counters are reset when their window has passed; then the checks of
    /// [`risk_decision`] run in order and the first failing one decides.
    /// `None` where an intermediate value overflows.
    pub fn check_order_at(
        &mut self,
        now_ms: i64,
        signal: &Signal,
        order: &OrderRequest,
        positions: &[Position],
    ) -> (r: Option<RiskVerdict>)
        ensures
            ({
                let v = reset_counters(old(self)@, now_ms);
                match risk_decision(v, signal.confidence, *order, positions@) {
                    None => r is None && final(self)@ == v,
                    Some(d) => r matches Some(verdict) && verdict_matches(
                        verdict,
                        d,
                        v.config,
                        signal.confidence,
                        order.symbol@,
                    ) && final(self)@ == state_after(v, d),
                }
            }),
    {
        if (now_ms as i128) - (self.last_minute_reset_ms as i128) >= 60000 {
            self.orders_this_minute = 0;
            self.last_minute_reset_ms = now_ms;
        }
        if (now_ms as i128) - (self.last_hour_reset_ms as i128) >= 3600000 {
            self.order_rejections_this_hour = 0;
            self.last_hour_reset_ms = now_ms;
        }
        let ghost v = self@;
        assert(v == reset_counters(old(self)@, now_ms));
        if self.any_kill_switch_triggered() {
            return Some(rejected(String::from_str("Kill switch is active")));
        }
        if signal.confidence.lt(&self.config.min_confidence_threshold) {
            return Some(
                rejected(
                    concat4(
                        "Confidence ",
                        signal.confidence.to_string(),
                        " below threshold ",
                        self.config.min_confidence_threshold.to_string(),
                    ),
                ),
            );
        }
        let hundred = Dec::new(100, 0);
        let zero = Dec::zero();
        let daily_loss_pct = if self.current_equity.gt(&zero) {
            match mul_opt(self.daily_pnl.div(self.current_equity), Some(hundred)) {
                Some(x) => x.abs(),
                None => return None,
            }
        } else {
            hundred
        };
        if self.daily_pnl.lt(&zero) && daily_loss_pct.gt(&self.config.max_daily_loss_pct) {
            self.trigger_kill_switch(KillSwitchType::DailyLossLimit, "daily loss");
            return Some(rejected(concat3("Daily loss limit breached: ", daily_loss_pct.to_string(), "%")));
        }
        let drawdown_pct = if self.peak_equity.gt(&zero) {
            match mul_opt(
                div_opt(self.peak_equity.sub(self.current_equity), Some(self.peak_equity)),
                Some(hundred),
            ) {
                Some(x) => x,
                None => return None,
            }
        } else {
            Dec::new(0, 0)
        };
        if drawdown_pct.gt(&self.config.max_drawdown_pct) {
            self.trigger_kill_switch(KillSwitchType::MaxDrawdown, "drawdown");
            return Some(rejected(concat3("Max drawdown breached: ", drawdown_pct.to_string(), "%")));
        }
        let open = count_open(positions);
        if open >= self.config.max_open_positions {
            return Some(
                rejected(
                    concat3("Max open positions ", usize_to_string(self.config.max_open_positions), " reached"),
                ),
            );
        }
        if self.daily_trade_count >= self.config.max_trades_per_day {
            return Some(
                rejected(
                    concat3("Max daily trades ", usize_to_string(self.config.max_trades_per_day), " reached"),
                ),
            );
        }
        if self.orders_this_minute >= self.config.max_orders_per_minute {
            return Some(rejected(String::from_str("Order rate limit exceeded")));
        }
        let price_or_zero = match order.price {
            Some(p) => p,
            None => Dec::new(0, 0),
        };
        let notional = match order.quantity.mul(price_or_zero) {
            Some(n) => n,
            None => return None,
        };
        if notional.gt(&self.config.max_single_order_usd) {
            let price_or_one = match order.price {
                Some(p) => p,
                None => Dec::new(1, 0),
            };
            let new_quantity = match self.config.max_single_order_usd.div(price_or_one) {
                Some(q) => q,
                None => return None,
            };
            return Some(
                RiskVerdict::ReducedSize {
                    new_quantity,
                    reason: concat4(
                        "Notional ",
                        notional.to_string(),
                        " exceeds max ",
                        self.config.max_single_order_usd.to_string(),
                    ),
                },
            );
        }
        let symbol_total = match add_opt(open_notional_of(positions, Some(&order.symbol)), Some(notional)) {
            Some(t) => t,
            None => return None,
        };
        if symbol_total.gt(&self.config.max_position_size_usd) {
            let mut msg = String::from_str("Position size would exceed max ");
            msg.append(self.config.max_position_size_usd.to_string().as_str());
            msg.append(" for ");
            msg.append(order.symbol.as_str());
            return Some(rejected(msg));
        }
        let total = match add_opt(open_notional_of(positions, None), Some(notional)) {
            Some(t) => t,
            None => return None,
        };
        if total.gt(&self.config.max_notional_exposure_usd) {
            let mut msg = String::from_str("Total exposure would exceed max ");
            msg.append(self.config.max_notional_exposure_usd.to_string().as_str());
            return Some(rejected(msg));
        }
        if self.current_equity.gt(&zero) {
            let leverage = match total.div(self.current_equity) {
                Some(l) => l,
                None => return None,
            };
            if leverage.gt(&self.config.max_leverage) {
                return Some(
                    rejected(
                        concat4(
                            "Leverage ",
                            leverage.to_string(),
                            " would exceed max ",
                            self.config.max_leverage.to_string(),
                        ),
                    ),
                );
            }
        }
        self.orders_this_minute = self.orders_this_minute + 1;
        Some(RiskVerdict::Approved)
    }
}

/// Sum of the unrealized PnL of all positions.
pub open spec fn unrealized_sum(ps: Seq<Position>) -> Option<Dec>
    decreases ps.len(),
{
    if ps.len() == 0 {
        Some(decimal::dec_zero())
    } else {
        decimal::add_spec(unrealized_sum(ps.drop_last()), Some(ps.last().unrealized_pnl))
    }
}

fn unrealized_of(positions: &[Position]) -> (r: Option<Dec>)
    ensures
        r == unrealized_sum(positions@),
{
    let mut acc = Some(Dec::zero());
    let mut i: usize = 0;
    while i < positions.len()
        invariant
            0 <= i <= positions.len(),
            acc == unrealized_sum(positions@.subrange(0, i as int)),
        decreases positions.len() - i,
    {
        assert(positions@.subrange(0, i + 1).drop_last() =~= positions@.subrange(0, i as int));
        acc = add_opt(acc, Some(positions[i].unrealized_pnl));
        i = i + 1;
    }
    assert(positions@.subrange(0, positions@.len() as int) =~= positions@);
    acc
}

/// The snapshot a risk engine reports for a set of positions.
pub open spec fn snapshot_spec(v: RiskView, ps: Seq<Position>) -> Option<PortfolioRiskSnapshot> {
    match (unrealized_sum(ps), open_notional(ps, None)) {
        (Some(unrealized), Some(notional)) => {
            let leverage = if v.current_equity@ > 0 {
                decimal::div_spec(Some(notional), Some(v.current_equity))
            } else {
                Some(decimal::dec_lit(0, 0))
            };
            match (leverage, engine_drawdown_pct(v)) {
                (Some(lev), Some(dd)) => Some(
                    PortfolioRiskSnapshot {
                        total_equity: v.current_equity,
                        total_notional_exposure: notional,
                        total_unrealized_pnl: unrealized,
                        total_realized_pnl_today: v.daily_pnl,
                        current_drawdown_pct: dd,
                        peak_equity: v.peak_equity,
                        open_position_count: open_count(ps) as usize,
                        leverage_ratio: lev,
                        var_95: None,
                        cvar_95: None,
                    },
                ),
                _ => None,
            }
        },
        _ => None,
    }
}

/// The state after recording a closed trade's PnL, or `None` when a running
/// total overflows.
pub open spec fn after_trade(v: RiskView, pnl: Dec) -> Option<RiskView> {
    match (
        decimal::add_spec(Some(v.daily_pnl), Some(pnl)),
        decimal::add_spec(Some(v.current_equity), Some(pnl)),
    ) {
        (Some(d), Some(e)) => Some(
            RiskView {
                daily_pnl: d,
                daily_trade_count: v.daily_trade_count + 1,
                current_equity: e,
                peak_equity: if e@ > v.peak_equity@ {
                    e
                } else {
                    v.peak_equity
                },
                ..v
            },
        ),
        _ => None,
    }
}

impl RiskEngine {
    /// Records a completed trade: adds its PnL to the daily PnL and to the
    /// equity, counts it, and raises the peak equity when exceeded.  Returns
    /// `false`, changing nothing, when a running total would overflow.
    pub fn record_trade(&mut self, pnl: Dec) -> (ok: bool)
        requires
            old(self)@.daily_trade_count < usize::MAX,
        ensures
            ok == after_trade(old(self)@, pnl) is Some,
            ok ==> final(self)@ == after_trade(old(self)@, pnl)->0,
            !ok ==> final(self)@ == old(self)@,
    {
        let daily = self.daily_pnl.add(pnl);
        let equity = self.current_equity.add(pnl);
        match (daily, equity) {
            (Some(d), Some(e)) => {
                self.daily_pnl = d;
                self.daily_trade_count = self.daily_trade_count + 1;
                self.current_equity = e;
                if e.gt(&self.peak_equity) {
                    self.peak_equity = e;
                }
                true
            },
            _ => false,
        }
    }

    /// Counts an order rejected by the exchange; at the hourly limit the
    /// order-rejection kill switch fires.
    pub fn record_order_rejection(&mut self)
        requires
            old(self)@.order_rejections_this_hour < u32::MAX,
        ensures
            final(self)@.order_rejections_this_hour == old(self)@.order_rejections_this_hour + 1,
            final(self)@.kill_switches == (if old(self)@.order_rejections_this_hour + 1
                >= old(self)@.config.max_order_rejections_per_hour {
                old(self)@.kill_switches.insert(
                    KillSwitchType::OrderRejectionAnomaly,
                    KillSwitchState::Triggered,
                )
            } else {
                old(self)@.kill_switches
            }),
            final(self)@ == (RiskView {
                order_rejections_this_hour: final(self)@.order_rejections_this_hour,
                kill_switches: final(self)@.kill_switches,
                ..old(self)@
            }),
    {
        self.order_rejections_this_hour = self.order_rejections_this_hour + 1;
        if self.order_rejections_this_hour >= self.config.max_order_rejections_per_hour {
            self.trigger_kill_switch(KillSwitchType::OrderRejectionAnomaly, "order rejections");
        }
    }

    /// Sets the current equity, raising the peak when exceeded.
    pub fn update_equity(&mut self, equity: Dec)
        ensures
            final(self)@ == (RiskView {
                current_equity: equity,
                peak_equity: if equity@ > old(self)@.peak_equity@ {
                    equity
                } else {
                    old(self)@.peak_equity
                },
                ..old(self)@
            }),
    {
        self.current_equity = equity;
        if equity.gt(&self.peak_equity) {
            self.peak_equity = equity;
        }
    }

    /// Resets the daily PnL and trade count (start of a trading day).
    pub fn reset_daily(&mut self)
        ensures
            final(self)@ == (RiskView {
                daily_pnl: decimal::dec_lit(0, 0),
                daily_trade_count: 0,
                ..old(self)@
            }),
    {
        self.daily_pnl = Dec::new(0, 0);
        self.daily_trade_count = 0;
    }

    /// Portfolio-wide risk figures for the given positions; `None` on overflow.
    pub fn snapshot(&self, positions: &[Position]) -> (r: Option<PortfolioRiskSnapshot>)
        ensures
            r == snapshot_spec(self@, positions@),
    {
        let unrealized = match unrealized_of(positions) {
            Some(u) => u,
            None => return None,
        };
        let notional = match open_notional_of(positions, None) {
            Some(n) => n,
            None => return None,
        };
        let zero = Dec::zero();
        let leverage = if self.current_equity.gt(&zero) {
            match notional.div(self.current_equity) {
                Some(l) => l,
                None => return None,
            }
        } else {
            Dec::new(0, 0)
        };
        let drawdown = if self.peak_equity.gt(&zero) {
            match mul_opt(
                div_opt(self.peak_equity.sub(self.current_equity), Some(self.peak_equity)),
                Some(Dec::new(100, 0)),
            ) {
                Some(d) => d,
                None => return None,
            }
        } else {
            Dec::new(0, 0)
        };
        Some(
            PortfolioRiskSnapshot {
                total_equity: self.current_equity,
                total_notional_exposure: notional,
                total_unrealized_pnl: unrealized,
                total_realized_pnl_today: self.daily_pnl,
                current_drawdown_pct: drawdown,
                peak_equity: self.peak_equity,
                open_position_count: count_open(positions),
                leverage_ratio: leverage,
                var_95: None,
                cvar_95: None,
            },
        )
    }

    /// The current equity.
    pub fn current_equity(&self) -> (r: Dec)
        ensures
            r == self@.current_equity,
    {
        self.current_equity
    }

    /// The PnL realized today.
    pub fn daily_pnl(&self) -> (r: Dec)
        ensures
            r == self@.daily_pnl,
    {
        self.daily_pnl
    }

    /// The state of one kill switch.
    pub fn kill_switch_state(&self, switch: KillSwitchType) -> (r: KillSwitchState)
        ensures
            r == self@.kill_switches[switch],
    {
        self.kill_switches[slot_of(switch)]
    }
}

// ---------------------------------------------------------------------------
// Laws
// ---------------------------------------------------------------------------

/// While any kill switch is triggered, every order is rejected with
/// "Kill switch is active", and the check changes nothing but the counters.
pub proof fn law_kill_switch_blocks_orders(v: RiskView, now: i64, confidence: Dec, order: OrderRequest, positions: Seq<Position>)
    requires
        any_triggered(v.kill_switches),
    ensures
        risk_decision(reset_counters(v, now), confidence, order, positions) == Some(RiskDecision::KillSwitchActive),
{
}

/// An approved order passed every check: no kill switch, enough confidence,
/// daily loss and drawdown within limits, room for another position, trade
/// and order counts below their limits, the order within the single-order
/// limit, and the symbol position, total exposure and leverage within theirs.
pub proof fn law_approval_respects_limits(v: RiskView, confidence: Dec, order: OrderRequest, positions: Seq<Position>)
    requires
        risk_decision(v, confidence, order, positions) == Some(RiskDecision::Approved),
    ensures
        !any_triggered(v.kill_switches),
        confidence@ >= v.config.min_confidence_threshold@,
        open_count(positions) < v.config.max_open_positions,
        v.daily_trade_count < v.config.max_trades_per_day,
        v.orders_this_minute < v.config.max_orders_per_minute,
        engine_drawdown_pct(v) matches Some(dd) && dd@ <= v.config.max_drawdown_pct@,
        daily_loss_pct_spec(v) matches Some(l) && (v.daily_pnl@ >= 0 || l@ <= v.config.max_daily_loss_pct@),
        decimal::mul_spec(Some(order.quantity), Some(price_or(order, decimal::dec_lit(0, 0)))) matches Some(n) && {
            &&& n@ <= v.config.max_single_order_usd@
            &&& decimal::add_spec(open_notional(positions, Some(order.symbol@)), Some(n)) matches Some(st) && st@ <= v.config.max_position_size_usd@
            &&& decimal::add_spec(open_notional(positions, None), Some(n)) matches Some(t) && t@ <= v.config.max_notional_exposure_usd@
        },
{
}

/// A daily-loss or drawdown rejection fires the matching kill switch, so
/// every later order is rejected until the switch is reset.
pub proof fn law_breaker_latches(v: RiskView, confidence: Dec, order: OrderRequest, positions: Seq<Position>, now: i64, confidence2: Dec, order2: OrderRequest, positions2: Seq<Position>)
    requires
        risk_decision(v, confidence, order, positions) matches Some(d) && (d is DailyLossBreached || d is DrawdownBreached),
    ensures
        risk_decision(
            reset_counters(state_after(v, risk_decision(v, confidence, order, positions)->0), now),
            confidence2,
            order2,
            positions2,
        ) == Some(RiskDecision::KillSwitchActive),
{
    let d = risk_decision(v, confidence, order, positions)->0;
    let w = state_after(v, d);
    if d is DailyLossBreached {
        assert(w.kill_switches[KillSwitchType::DailyLossLimit] == KillSwitchState::Triggered);
    } else {
        assert(w.kill_switches[KillSwitchType::MaxDrawdown] == KillSwitchState::Triggered);
    }
}

/// Recording trades and equity updates never lets the peak equity fall
/// below the current equity.
pub proof fn law_peak_bounds_equity(v: RiskView, pnl: Dec, equity: Dec)
    requires
        v.peak_equity@ >= v.current_equity@,
    ensures
        after_trade(v, pnl) matches Some(w) ==> w.peak_equity@ >= w.current_equity@ && w.peak_equity@ >= v.peak_equity@,
        (if equity@ > v.peak_equity@ { equity } else { v.peak_equity })@ >= equity@,
{
}

/// Triggering and then resetting a kill switch re-arms it.
pub proof fn law_trigger_then_reset(ks: Map<KillSwitchType, KillSwitchState>, k: KillSwitchType)
    ensures
        ks.insert(k, KillSwitchState::Triggered).insert(k, KillSwitchState::Active)[k] == KillSwitchState::Active,
        ks.insert(k, KillSwitchState::Triggered)[k] == KillSwitchState::Triggered,
{
}

/// The kill switch held in slot `i`.
pub open spec fn slot_kind(i: int) -> KillSwitchType {
    if i == 0 {
        KillSwitchType::Global
    } else if i == 1 {
        KillSwitchType::ExchangeConnectivity
    } else if i == 2 {
        KillSwitchType::StaleMarketData
    } else if i == 3 {
        KillSwitchType::ModelConfidence
    } else if i == 4 {
        KillSwitchType::ExtremeVolatility
    } else if i == 5 {
        KillSwitchType::OrderRejectionAnomaly
    } else if i == 6 {
        KillSwitchType::RunawayTrading
    } else if i == 7 {
        KillSwitchType::DailyLossLimit
    } else {
        KillSwitchType::MaxDrawdown
    }
}

proof fn lemma_slots_distinct()
    ensures
        forall|a: KillSwitchType, b: KillSwitchType| switch_slot(a) == switch_slot(b) ==> a == b,
        forall|i: int| 0 <= i < 9 ==> switch_slot(#[trigger] slot_kind(i)) == i,
{
}

} // verus!
