//! A simulated exchange: every order fills at once at the limit price (or
//! the last known price) with slippage and a fee, and balances, prices and
//! orders are kept in memory.
use vstd::prelude::*;
use crate::decimal::{self, Dec, mul_opt, div_opt};
use crate::types::{OrderRequest, Side};
use crate::execution::{
    same_tracked,
    OrderStatus, FillEvent, TrackedOrder, orders_unique, orders_insert, order_index, find_order,
    insert_order,
};
use crate::backtest::fill_price_spec;
use crate::errors::OtError;
use crate::models::random_uuid_simple;
use crate::text::same_text;

verus! {

/// The value stored first under `key`.
pub open spec fn lookup_first(s: Seq<(String, Dec)>, key: Seq<char>) -> Option<Dec>
    decreases s.len(),
{
    if s.len() == 0 {
        None
    } else if s[0].0@ == key {
        Some(s[0].1)
    } else {
        lookup_first(s.drop_first(), key)
    }
}

/// Index of the first entry stored under `key`.
pub open spec fn first_index(s: Seq<(String, Dec)>, key: Seq<char>) -> Option<int>
    decreases s.len(),
{
    if s.len() == 0 {
        None
    } else if s[0].0@ == key {
        Some(0)
    } else {
        match first_index(s.drop_first(), key) {
            Some(i) => Some(i + 1),
            None => None,
        }
    }
}

proof fn lemma_first_index(s: Seq<(String, Dec)>, key: Seq<char>)
    ensures
        match first_index(s, key) {
            Some(i) => 0 <= i < s.len() && s[i].0@ == key && lookup_first(s, key) == Some(s[i].1)
                && forall|j: int| 0 <= j < i ==> (#[trigger] s[j]).0@ != key,
            None => lookup_first(s, key) is None && forall|j: int| 0 <= j < s.len() ==> (#[trigger] s[j]).0@
                != key,
        },
    decreases s.len(),
{
    if s.len() > 0 && s[0].0@ != key {
        lemma_first_index(s.drop_first(), key);
        assert forall|j: int| 0 < j < s.len() implies s[j] == s.drop_first()[j - 1] by {}
    }
}

proof fn lemma_lookup_after_set(s: Seq<(String, Dec)>, i: int, key: Seq<char>, v: Dec, other: Seq<char>)
    requires
        first_index(s, key) == Some(i),
    ensures
        lookup_first(s.update(i, (s[i].0, v)), key) == Some(v),
        other != key ==> lookup_first(s.update(i, (s[i].0, v)), other) == lookup_first(s, other),
    decreases s.len(),
{
    lemma_first_index(s, key);
    let t = s.update(i, (s[i].0, v));
    if i == 0 {
        assert(t.drop_first() =~= s.drop_first());
    } else {
        assert(t.drop_first() =~= s.drop_first().update(i - 1, (s[i].0, v)));
        lemma_lookup_after_set(s.drop_first(), i - 1, key, v, other);
    }
}

proof fn lemma_lookup_after_push(s: Seq<(String, Dec)>, k: String, v: Dec, other: Seq<char>)
    requires
        first_index(s, k@) is None,
    ensures
        lookup_first(s.push((k, v)), k@) == Some(v),
        other != k@ ==> lookup_first(s.push((k, v)), other) == lookup_first(s, other),
    decreases s.len(),
{
    lemma_first_index(s, k@);
    let t = s.push((k, v));
    if s.len() > 0 {
        assert(t[0] == s[0]);
        assert(t.drop_first() =~= s.drop_first().push((k, v)));
        lemma_lookup_after_push(s.drop_first(), k, v, other);
    } else {
        assert(t.drop_first() =~= Seq::<(String, Dec)>::empty());
        reveal_with_fuel(lookup_first, 2);
    }
}

fn find_first(s: &Vec<(String, Dec)>, key: &str) -> (r: Option<usize>)
    ensures
        first_index(s@, key@) == match r {
            Some(k) => Some(k as int),
            None => None::<int>,
        },
        r matches Some(k) ==> k < s@.len(),
{
    proof {
        lemma_first_index(s@, key@);
    }
    let mut i: usize = 0;
    while i < s.len()
        invariant
            i <= s@.len(),
            forall|j: int| 0 <= j < i ==> (#[trigger] s@[j]).0@ != key@,
            match first_index(s@, key@) {
                Some(k) => 0 <= k < s@.len() && s@[k].0@ == key@ && forall|j: int|
                    0 <= j < k ==> (#[trigger] s@[j]).0@ != key@,
                None => forall|j: int| 0 <= j < s@.len() ==> (#[trigger] s@[j]).0@ != key@,
            },
        decreases s@.len() - i,
    {
        if same_text(s[i].0.as_str(), key) {
            return Some(i);
        }
        i = i + 1;
    }
    None
}

/// Stores `value` under `key` (replacing the first entry with that key).
fn put(s: &mut Vec<(String, Dec)>, key: &str, value: Dec)
    ensures
        lookup_first(final(s)@, key@) == Some(value),
        forall|o: Seq<char>| o != key@ ==> #[trigger] lookup_first(final(s)@, o) == lookup_first(
            old(s)@,
            o,
        ),
{
    let ghost s0 = s@;
    match find_first(s, key) {
        Some(i) => {
            let k = s[i].0.clone();
            s.set(i, (k, value));
            proof {
                assert forall|o: Seq<char>| true implies #[trigger] lookup_first(s@, o) == (if o == key@ {
                    Some(value)
                } else {
                    lookup_first(s0, o)
                }) by {
                    lemma_lookup_after_set(s0, i as int, key@, value, o);
                }
            }
        },
        None => {
            let k = String::from_str(key);
            s.push((k, value));
            proof {
                assert forall|o: Seq<char>| true implies #[trigger] lookup_first(s@, o) == (if o == key@ {
                    Some(value)
                } else {
                    lookup_first(s0, o)
                }) by {
                    lemma_lookup_after_push(s0, k, value, o);
                }
            }
        },
    }
}

/// The simulated exchange.
pub struct PaperExchange {
    balances: Vec<(String, Dec)>,
    orders: Vec<TrackedOrder>,
    pub slippage_bps: Dec,
    pub fee_bps: Dec,
    prices: Vec<(String, Dec)>,
}

/// The abstract state of the simulated exchange.
pub struct PaperView {
    pub balances: Seq<(String, Dec)>,
    pub orders: Seq<TrackedOrder>,
    pub prices: Seq<(String, Dec)>,
    pub slippage_bps: Dec,
    pub fee_bps: Dec,
}

impl View for PaperExchange {
    type V = PaperView;

    closed spec fn view(&self) -> PaperView {
        PaperView {
            balances: self.balances@,
            orders: self.orders@,
            prices: self.prices@,
            slippage_bps: self.slippage_bps,
            fee_bps: self.fee_bps,
        }
    }
}

/// Fill price, commission of an immediate fill of `request`; `None` on
/// overflow.  Without a limit price the last known price is used (zero
/// when unknown).
pub open spec fn paper_fill(v: PaperView, request: OrderRequest) -> Option<(Dec, Dec)> {
    let base = match request.price {
        Some(p) => p,
        None => match lookup_first(v.prices, request.symbol@) {
            Some(p) => p,
            None => decimal::dec_lit(0, 0),
        },
    };
    match fill_price_spec(base, v.slippage_bps, request.side) {
        Some(fill) => match decimal::mul_spec(Some(request.quantity), Some(fill)) {
            Some(notional) => match decimal::div_spec(
                decimal::mul_spec(Some(notional), Some(v.fee_bps)),
                Some(decimal::dec_lit(10000, 0)),
            ) {
                Some(c) => Some((fill, c)),
                None => None,
            },
            None => None,
        },
        None => None,
    }
}

impl PaperExchange {
    /// An exchange holding `initial_balance_usdt` USDT.
    pub fn new(initial_balance_usdt: Dec, slippage_bps: Dec, fee_bps: Dec) -> (r: Self)
        ensures
            lookup_first(r@.balances, "USDT"@) == Some(initial_balance_usdt),
            r@.orders.len() == 0,
            r@.prices.len() == 0,
            r@.slippage_bps == slippage_bps,
            r@.fee_bps == fee_bps,
    {
        let mut balances: Vec<(String, Dec)> = Vec::new();
        balances.push((String::from_str("USDT"), initial_balance_usdt));
        proof {
            reveal_with_fuel(lookup_first, 2);
        }
        PaperExchange { balances, orders: Vec::new(), slippage_bps, fee_bps, prices: Vec::new() }
    }

    /// Records the last price of a symbol.
    pub fn set_price(&mut self, symbol: &str, price: Dec)
        ensures
            lookup_first(final(self)@.prices, symbol@) == Some(price),
            forall|o: Seq<char>| o != symbol@ ==> #[trigger] lookup_first(final(self)@.prices, o)
                == lookup_first(old(self)@.prices, o),
            final(self)@.orders == old(self)@.orders,
            final(self)@.balances == old(self)@.balances,
            final(self)@.slippage_bps == old(self)@.slippage_bps,
            final(self)@.fee_bps == old(self)@.fee_bps,
    {
        put(&mut self.prices, symbol, price);
    }

    /// The last price of a symbol.
    pub fn get_price(&self, symbol: &str) -> (r: Option<Dec>)
        ensures
            r == lookup_first(self@.prices, symbol@),
    {
        proof {
            lemma_first_index(self.prices@, symbol@);
        }
        match find_first(&self.prices, symbol) {
            Some(i) => Some(self.prices[i].1),
            None => None,
        }
    }

    /// Fills an order at once and records it under its client id.
    /// `None` (nothing recorded) when an amount overflows.
    pub fn submit_order(&mut self, request: &OrderRequest, now_ms: i64) -> (r: Option<TrackedOrder>)
        requires
            orders_unique(old(self)@.orders),
        ensures
            orders_unique(final(self)@.orders),
            match paper_fill(old(self)@, *request) {
                Some((fill, c)) => r matches Some(o) && o.status == OrderStatus::Filled && o.request
                    == *request && o.filled_quantity == request.quantity && o.average_fill_price == Some(
                    fill,
                ) && o.commission == c && o.client_order_id@ == request.client_order_id@
                    && o.last_update_ms == now_ms && exists|stored: TrackedOrder|
                    #![trigger orders_insert(old(self)@.orders, stored)]
                    same_tracked(stored, o) && final(self)@ == (PaperView {
                    orders: orders_insert(old(self)@.orders, stored),
                    ..old(self)@
                }),
                None => r is None && final(self)@ == old(self)@,
            },
    {
        let base = match request.price {
            Some(p) => p,
            None => match self.get_price(request.symbol.as_str()) {
                Some(p) => p,
                None => Dec::new(0, 0),
            },
        };
        let slip = div_opt(base.mul(self.slippage_bps), Some(Dec::new(10000, 0)));
        let fill = match request.side {
            Side::Buy => decimal::add_opt(Some(base), slip),
            Side::Sell => decimal::sub_opt(Some(base), slip),
        };
        let fill = match fill {
            Some(f) => f,
            None => return None,
        };
        let notional = match request.quantity.mul(fill) {
            Some(n) => n,
            None => return None,
        };
        let commission = match div_opt(notional.mul(self.fee_bps), Some(Dec::new(10000, 0))) {
            Some(c) => c,
            None => return None,
        };
        let mut events: Vec<FillEvent> = Vec::new();
        events.push(
            FillEvent {
                timestamp_ms: now_ms,
                price: fill,
                quantity: request.quantity,
                commission,
                commission_asset: String::from_str("USDT"),
            },
        );
        let mut exchange_id = String::from_str("paper_");
        exchange_id.append(random_uuid_simple().as_str());
        let order = TrackedOrder {
            client_order_id: request.client_order_id.clone(),
            exchange_order_id: Some(exchange_id),
            request: request.duplicate(),
            status: OrderStatus::Filled,
            filled_quantity: request.quantity,
            average_fill_price: Some(fill),
            commission,
            commission_asset: Some(String::from_str("USDT")),
            submitted_at_ms: Some(now_ms),
            last_update_ms: now_ms,
            fill_events: events,
        };
        let out = order.duplicate();
        let ghost stored = order;
        insert_order(&mut self.orders, order);
        assert(same_tracked(stored, out) && self@ == (PaperView {
            orders: orders_insert(old(self)@.orders, stored),
            ..old(self)@
        }));
        Some(out)
    }

    /// Marks a recorded order cancelled (nothing happens for an unknown id).
    pub fn cancel_order(&mut self, client_order_id: &String, now_ms: i64)
        requires
            orders_unique(old(self)@.orders),
        ensures
            orders_unique(final(self)@.orders),
            final(self)@.balances == old(self)@.balances,
            final(self)@.prices == old(self)@.prices,
            match order_index(old(self)@.orders, client_order_id@) {
                Some(i) => final(self)@.orders == old(self)@.orders.update(
                    i,
                    TrackedOrder {
                        status: OrderStatus::Cancelled,
                        last_update_ms: now_ms,
                        ..old(self)@.orders[i]
                    },
                ),
                None => final(self)@.orders == old(self)@.orders,
            },
    {
        match find_order(&self.orders, client_order_id) {
            Some(i) => {
                let ghost before = self.orders@;
                let mut o = self.orders.remove(i);
                o.status = OrderStatus::Cancelled;
                o.last_update_ms = now_ms;
                self.orders.insert(i, o);
                proof {
                    assert(self.orders@ =~= before.update(
                        i as int,
                        TrackedOrder {
                            status: OrderStatus::Cancelled,
                            last_update_ms: now_ms,
                            ..before[i as int]
                        },
                    ));
                    let ns = self.orders@;
                    assert forall|a: int, b: int| 0 <= a < b < ns.len() implies (#[trigger] ns[a]).client_order_id@
                        != (#[trigger] ns[b]).client_order_id@ by {
                        assert(ns[a].client_order_id@ == before[a].client_order_id@);
                        assert(ns[b].client_order_id@ == before[b].client_order_id@);
                        assert(before[a].client_order_id@ != before[b].client_order_id@);
                    }
                }
            },
            None => {},
        }
    }

    /// Marks every still-active order of `symbol` cancelled.
    pub fn cancel_all_orders(&mut self, symbol: &String, now_ms: i64)
        requires
            orders_unique(old(self)@.orders),
        ensures
            orders_unique(final(self)@.orders),
            final(self)@.orders.len() == old(self)@.orders.len(),
            forall|i: int| 0 <= i < old(self)@.orders.len() ==> (#[trigger] final(self)@.orders[i]) == if old(
                self,
            )@.orders[i].request.symbol@ == symbol@ && !crate::execution::status_terminal(
                old(self)@.orders[i].status,
            ) {
                TrackedOrder {
                    status: OrderStatus::Cancelled,
                    last_update_ms: now_ms,
                    ..old(self)@.orders[i]
                }
            } else {
                old(self)@.orders[i]
            },
            final(self)@.balances == old(self)@.balances,
            final(self)@.prices == old(self)@.prices,
    {
        let mut i: usize = 0;
        while i < self.orders.len()
            invariant
                i <= self.orders@.len(),
                self.orders@.len() == old(self)@.orders.len(),
                orders_unique(self.orders@),
                self.balances@ == old(self)@.balances,
                self.prices@ == old(self)@.prices,
                forall|j: int| 0 <= j < self.orders@.len() ==> (#[trigger] self.orders@[j]).client_order_id@
                    == old(self)@.orders[j].client_order_id@,
                forall|j: int| i <= j < self.orders@.len() ==> (#[trigger] self.orders@[j]) == old(self)@.orders[j],
                forall|j: int| 0 <= j < i ==> (#[trigger] self.orders@[j]) == if old(self)@.orders[j].request.symbol@
                    == symbol@ && !crate::execution::status_terminal(old(self)@.orders[j].status) {
                    TrackedOrder {
                        status: OrderStatus::Cancelled,
                        last_update_ms: now_ms,
                        ..old(self)@.orders[j]
                    }
                } else {
                    old(self)@.orders[j]
                },
            decreases self.orders@.len() - i,
        {
            if self.orders[i].request.symbol == *symbol && self.orders[i].status.is_active() {
                let ghost before = self.orders@;
                let mut o = self.orders.remove(i);
                o.status = OrderStatus::Cancelled;
                o.last_update_ms = now_ms;
                self.orders.insert(i, o);
                proof {
                    assert(self.orders@ =~= before.update(
                        i as int,
                        TrackedOrder {
                            status: OrderStatus::Cancelled,
                            last_update_ms: now_ms,
                            ..before[i as int]
                        },
                    ));
                    let ns = self.orders@;
                    assert forall|a: int, b: int| 0 <= a < b < ns.len() implies (#[trigger] ns[a]).client_order_id@
                        != (#[trigger] ns[b]).client_order_id@ by {
                        assert(ns[a].client_order_id@ == before[a].client_order_id@);
                        assert(ns[b].client_order_id@ == before[b].client_order_id@);
                        assert(before[a].client_order_id@ != before[b].client_order_id@);
                    }
                }
            }
            i = i + 1;
        }
    }

    /// The USDT (or other asset) balance; zero for an unknown asset.
    pub fn get_balance(&self, asset: &str) -> (r: Dec)
        ensures
            r == match lookup_first(self@.balances, asset@) {
                Some(b) => b,
                None => decimal::dec_lit(0, 0),
            },
    {
        proof {
            lemma_first_index(self.balances@, asset@);
        }
        match find_first(&self.balances, asset) {
            Some(i) => self.balances[i].1,
            None => Dec::new(0, 0),
        }
    }

    /// A recorded order, or an execution error when unknown.
    pub fn get_order_status(&self, client_order_id: &String) -> (r: Result<TrackedOrder, OtError>)
        requires
            orders_unique(self@.orders),
        ensures
            match order_index(self@.orders, client_order_id@) {
                Some(i) => r matches Ok(t) && same_tracked(t, self@.orders[i]),
                None => r matches Err(OtError::Execution(m)) && m@ == "Order not found"@,
            },
    {
        match find_order(&self.orders, client_order_id) {
            Some(i) => Ok(self.orders[i].duplicate()),
            None => Err(OtError::Execution(String::from_str("Order not found"))),
        }
    }
}

} // verus!
