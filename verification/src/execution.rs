//! Order lifecycle bookkeeping: tracked orders, bracket (stop-loss /
//! take-profit) pairs, and the order manager that keeps active orders by
//! client id and a bounded history of completed ones.
use vstd::prelude::*;
use crate::decimal::Dec;
use crate::types::OrderRequest;

verus! {

/// Lifecycle state of an order.
#[derive(Clone, Copy, Debug, PartialEq, Eq, Structural)]
pub enum OrderStatus {
    Pending,
    Submitted,
    PartiallyFilled,
    Filled,
    Cancelled,
    Rejected,
    Expired,
}

/// Filled, cancelled, rejected and expired orders are done.
pub open spec fn status_terminal(s: OrderStatus) -> bool {
    s == OrderStatus::Filled || s == OrderStatus::Cancelled || s == OrderStatus::Rejected || s
        == OrderStatus::Expired
}

impl OrderStatus {
    /// Whether the order is done.
    pub fn is_terminal(&self) -> (r: bool)
        ensures
            r == status_terminal(*self),
    {
        match self {
            OrderStatus::Filled | OrderStatus::Cancelled | OrderStatus::Rejected
            | OrderStatus::Expired => true,
            _ => false,
        }
    }

    /// Whether the order may still fill.
    pub fn is_active(&self) -> (r: bool)
        ensures
            r == !status_terminal(*self),
    {
        !self.is_terminal()
    }
}

/// One fill of an order.
#[derive(Clone, Debug)]
pub struct FillEvent {
    pub timestamp_ms: i64,
    pub price: Dec,
    pub quantity: Dec,
    pub commission: Dec,
    pub commission_asset: String,
}

/// An order and what is known of its execution.
#[derive(Clone, Debug)]
pub struct TrackedOrder {
    pub client_order_id: String,
    pub exchange_order_id: Option<String>,
    pub request: OrderRequest,
    pub status: OrderStatus,
    pub filled_quantity: Dec,
    pub average_fill_price: Option<Dec>,
    pub commission: Dec,
    pub commission_asset: Option<String>,
    pub submitted_at_ms: Option<i64>,
    pub last_update_ms: i64,
    pub fill_events: Vec<FillEvent>,
}

fn copy_opt_string(s: &Option<String>) -> (r: Option<String>)
    ensures
        r == *s,
{
    match s {
        Some(x) => Some(x.clone()),
        None => None,
    }
}

/// Two orders hold the same values (the fill lists compared by content).
pub open spec fn same_tracked(a: TrackedOrder, b: TrackedOrder) -> bool {
    &&& a.client_order_id == b.client_order_id
    &&& a.exchange_order_id == b.exchange_order_id
    &&& a.request == b.request
    &&& a.status == b.status
    &&& a.filled_quantity == b.filled_quantity
    &&& a.average_fill_price == b.average_fill_price
    &&& a.commission == b.commission
    &&& a.commission_asset == b.commission_asset
    &&& a.submitted_at_ms == b.submitted_at_ms
    &&& a.last_update_ms == b.last_update_ms
    &&& a.fill_events@ == b.fill_events@
}

impl TrackedOrder {
    /// A copy of the order.
    pub fn duplicate(&self) -> (r: TrackedOrder)
        ensures
            same_tracked(r, *self),
    {
        let mut events: Vec<FillEvent> = Vec::new();
        let mut i: usize = 0;
        while i < self.fill_events.len()
            invariant
                i <= self.fill_events@.len(),
                events@ == self.fill_events@.subrange(0, i as int),
            decreases self.fill_events@.len() - i,
        {
            let e = &self.fill_events[i];
            events.push(
                FillEvent {
                    timestamp_ms: e.timestamp_ms,
                    price: e.price,
                    quantity: e.quantity,
                    commission: e.commission,
                    commission_asset: e.commission_asset.clone(),
                },
            );
            assert(events@ =~= self.fill_events@.subrange(0, i + 1));
            i = i + 1;
        }
        assert(events@ =~= self.fill_events@);
        TrackedOrder {
            client_order_id: self.client_order_id.clone(),
            exchange_order_id: copy_opt_string(&self.exchange_order_id),
            request: self.request.duplicate(),
            status: self.status,
            filled_quantity: self.filled_quantity,
            average_fill_price: self.average_fill_price,
            commission: self.commission,
            commission_asset: copy_opt_string(&self.commission_asset),
            submitted_at_ms: self.submitted_at_ms,
            last_update_ms: self.last_update_ms,
            fill_events: events,
        }
    }
}

/// A pending order for `request`, submitted at `now_ms`.
pub fn create_tracked_order(request: OrderRequest, now_ms: i64) -> (r: TrackedOrder)
    ensures
        r.client_order_id@ == request.client_order_id@,
        r.request == request,
        r.status == OrderStatus::Pending,
        r.filled_quantity == crate::decimal::dec_lit(0, 0),
        r.average_fill_price is None,
        r.commission == crate::decimal::dec_lit(0, 0),
        r.commission_asset is None,
        r.exchange_order_id is None,
        r.submitted_at_ms == Some(now_ms),
        r.last_update_ms == now_ms,
        r.fill_events@.len() == 0,
{
    TrackedOrder {
        client_order_id: request.client_order_id.clone(),
        exchange_order_id: None,
        request,
        status: OrderStatus::Pending,
        filled_quantity: Dec::new(0, 0),
        average_fill_price: None,
        commission: Dec::new(0, 0),
        commission_asset: None,
        submitted_at_ms: Some(now_ms),
        last_update_ms: now_ms,
        fill_events: Vec::new(),
    }
}

/// Stop-loss and take-profit orders attached to an entry.
#[derive(Clone, Debug)]
pub struct BracketPair {
    pub entry_order_id: String,
    pub stop_loss_order_id: Option<String>,
    pub take_profit_order_id: Option<String>,
    pub symbol: String,
}

fn copy_opt(s: &Option<String>) -> (r: Option<String>)
    ensures
        r == *s,
{
    match s {
        Some(x) => Some(x.clone()),
        None => None,
    }
}

impl BracketPair {
    /// A copy of the bracket.
    pub fn duplicate(&self) -> (r: BracketPair)
        ensures
            r == *self,
    {
        BracketPair {
            entry_order_id: self.entry_order_id.clone(),
            stop_loss_order_id: copy_opt(&self.stop_loss_order_id),
            take_profit_order_id: copy_opt(&self.take_profit_order_id),
            symbol: self.symbol.clone(),
        }
    }
}

/// The brackets on `symbol`, in order.
pub open spec fn brackets_on(s: Seq<BracketPair>, symbol: Seq<char>) -> Seq<BracketPair>
    decreases s.len(),
{
    if s.len() == 0 {
        Seq::empty()
    } else {
        let rest = brackets_on(s.drop_last(), symbol);
        if s.last().symbol@ == symbol {
            rest.push(s.last())
        } else {
            rest
        }
    }
}

/// Index of the order with client id `id`.
pub open spec fn order_index(s: Seq<TrackedOrder>, id: Seq<char>) -> Option<int> {
    if exists|i: int| 0 <= i < s.len() && (#[trigger] s[i]).client_order_id@ == id {
        Some(choose|i: int| 0 <= i < s.len() && (#[trigger] s[i]).client_order_id@ == id)
    } else {
        None
    }
}

/// Index of the bracket of entry `id`.
pub open spec fn bracket_index(s: Seq<BracketPair>, id: Seq<char>) -> Option<int> {
    if exists|i: int| 0 <= i < s.len() && (#[trigger] s[i]).entry_order_id@ == id {
        Some(choose|i: int| 0 <= i < s.len() && (#[trigger] s[i]).entry_order_id@ == id)
    } else {
        None
    }
}

pub open spec fn orders_unique(s: Seq<TrackedOrder>) -> bool {
    forall|i: int, j: int|
        0 <= i < j < s.len() ==> (#[trigger] s[i]).client_order_id@ != (#[trigger] s[j]).client_order_id@
}

pub open spec fn brackets_unique(s: Seq<BracketPair>) -> bool {
    forall|i: int, j: int|
        0 <= i < j < s.len() ==> (#[trigger] s[i]).entry_order_id@ != (#[trigger] s[j]).entry_order_id@
}

/// `s` with the order stored under its id (replacing one with the same id).
pub open spec fn orders_insert(s: Seq<TrackedOrder>, o: TrackedOrder) -> Seq<TrackedOrder> {
    match order_index(s, o.client_order_id@) {
        Some(i) => s.update(i, o),
        None => s.push(o),
    }
}

/// `s` without the order with id `id`.
pub open spec fn orders_remove(s: Seq<TrackedOrder>, id: Seq<char>) -> Seq<TrackedOrder> {
    match order_index(s, id) {
        Some(i) => s.remove(i),
        None => s,
    }
}

/// The history after completing `o`: appended, the oldest dropped beyond
/// `max` entries.
pub open spec fn history_push(s: Seq<TrackedOrder>, o: TrackedOrder, max: usize) -> Seq<TrackedOrder> {
    let t = s.push(o);
    if t.len() > max {
        t.drop_first()
    } else {
        t
    }
}

/// The orders for `symbol`, in order.
pub open spec fn orders_for_symbol(s: Seq<TrackedOrder>, symbol: Seq<char>) -> Seq<TrackedOrder>
    decreases s.len(),
{
    if s.len() == 0 {
        Seq::empty()
    } else {
        let rest = orders_for_symbol(s.drop_last(), symbol);
        if s.last().request.symbol@ == symbol {
            rest.push(s.last())
        } else {
            rest
        }
    }
}

/// The abstract state of an order manager.
pub struct OrderBookView {
    pub active: Seq<TrackedOrder>,
    pub completed: Seq<TrackedOrder>,
    pub max_history: usize,
    pub brackets: Seq<BracketPair>,
}

/// Active orders by client id, a bounded history of completed orders, and
/// bracket pairs by entry id.
pub struct OrderManager {
    active_orders: Vec<TrackedOrder>,
    completed_orders: Vec<TrackedOrder>,
    max_completed_history: usize,
    bracket_orders: Vec<BracketPair>,
}

impl View for OrderManager {
    type V = OrderBookView;

    closed spec fn view(&self) -> OrderBookView {
        OrderBookView {
            active: self.active_orders@,
            completed: self.completed_orders@,
            max_history: self.max_completed_history,
            brackets: self.bracket_orders@,
        }
    }
}

/// No client id is active twice and no entry has two brackets.
pub open spec fn manager_wf(v: OrderBookView) -> bool {
    orders_unique(v.active) && brackets_unique(v.brackets)
}

proof fn lemma_order_index_unique(s: Seq<TrackedOrder>, i: int)
    requires
        orders_unique(s),
        0 <= i < s.len(),
    ensures
        order_index(s, s[i].client_order_id@) == Some(i),
{
    let id = s[i].client_order_id@;
    let c = choose|j: int| 0 <= j < s.len() && (#[trigger] s[j]).client_order_id@ == id;
    if c != i {
        if c < i {
            assert(s[c].client_order_id@ != s[i].client_order_id@);
        } else {
            assert(s[i].client_order_id@ != s[c].client_order_id@);
        }
    }
}

/// Tracking an order makes its client id find exactly that order, keeps
/// client ids unique, and adds an entry only for a new id.
pub proof fn law_tracked_order_is_found(s: Seq<TrackedOrder>, o: TrackedOrder)
    requires
        orders_unique(s),
    ensures
        orders_unique(orders_insert(s, o)),
        order_index(orders_insert(s, o), o.client_order_id@) is Some,
        orders_insert(s, o)[order_index(orders_insert(s, o), o.client_order_id@)->0] == o,
        orders_insert(s, o).len() == s.len() + if order_index(s, o.client_order_id@) is Some {
            0int
        } else {
            1int
        },
{
    let id = o.client_order_id@;
    let t = orders_insert(s, o);
    match order_index(s, id) {
        Some(i) => {
            assert(s[i].client_order_id@ == id);
            assert forall|a: int, b: int| 0 <= a < b < t.len() implies (#[trigger] t[a]).client_order_id@
                != (#[trigger] t[b]).client_order_id@ by {
                assert(s[a].client_order_id@ != s[b].client_order_id@);
            }
            lemma_order_index_unique(t, i);
        },
        None => {
            assert forall|a: int, b: int| 0 <= a < b < t.len() implies (#[trigger] t[a]).client_order_id@
                != (#[trigger] t[b]).client_order_id@ by {
                if b < s.len() {
                    assert(s[a].client_order_id@ != s[b].client_order_id@);
                } else {
                    assert(t[a] == s[a]);
                }
            }
            lemma_order_index_unique(t, s.len() as int);
        },
    }
}

/// After an order leaves the active set its client id finds nothing, the
/// other client ids stay unique, and exactly one entry goes when it was
/// there.
pub proof fn law_removed_order_is_gone(s: Seq<TrackedOrder>, id: Seq<char>)
    requires
        orders_unique(s),
    ensures
        orders_unique(orders_remove(s, id)),
        order_index(orders_remove(s, id), id) is None,
        orders_remove(s, id).len() == s.len() - if order_index(s, id) is Some {
            1int
        } else {
            0int
        },
{
    let t = orders_remove(s, id);
    match order_index(s, id) {
        Some(i) => {
            assert(s[i].client_order_id@ == id);
            assert forall|a: int, b: int| 0 <= a < b < t.len() implies (#[trigger] t[a]).client_order_id@
                != (#[trigger] t[b]).client_order_id@ by {
                let a0 = if a < i { a } else { a + 1 };
                let b0 = if b < i { b } else { b + 1 };
                assert(t[a] == s[a0]);
                assert(t[b] == s[b0]);
                assert(s[a0].client_order_id@ != s[b0].client_order_id@);
            }
            assert forall|j: int| 0 <= j < t.len() implies (#[trigger] t[j]).client_order_id@ != id by {
                let j0 = if j < i { j } else { j + 1 };
                assert(t[j] == s[j0]);
                if j0 < i {
                    assert(s[j0].client_order_id@ != s[i].client_order_id@);
                } else {
                    assert(s[i].client_order_id@ != s[j0].client_order_id@);
                }
            }
        },
        None => {},
    }
}

/// The completed history never grows past its limit, and the latest
/// completed order is last.
pub proof fn law_history_bounded(s: Seq<TrackedOrder>, o: TrackedOrder, max: usize)
    requires
        s.len() <= max,
        max > 0,
    ensures
        history_push(s, o, max).len() <= max,
        history_push(s, o, max).last() == o,
{
}

proof fn lemma_bracket_index_unique(s: Seq<BracketPair>, i: int)
    requires
        brackets_unique(s),
        0 <= i < s.len(),
    ensures
        bracket_index(s, s[i].entry_order_id@) == Some(i),
{
    let id = s[i].entry_order_id@;
    let c = choose|j: int| 0 <= j < s.len() && (#[trigger] s[j]).entry_order_id@ == id;
    if c != i {
        if c < i {
            assert(s[c].entry_order_id@ != s[i].entry_order_id@);
        } else {
            assert(s[i].entry_order_id@ != s[c].entry_order_id@);
        }
    }
}

pub(crate) fn find_order(v: &Vec<TrackedOrder>, id: &String) -> (r: Option<usize>)
    requires
        orders_unique(v@),
    ensures
        r matches Some(k) ==> k < v@.len() && v@[k as int].client_order_id@ == id@ && order_index(v@, id@)
            == Some(k as int),
        r is None ==> order_index(v@, id@) is None,
{
    let mut i: usize = 0;
    while i < v.len()
        invariant
            i <= v@.len(),
            orders_unique(v@),
            forall|j: int| 0 <= j < i ==> (#[trigger] v@[j]).client_order_id@ != id@,
        decreases v@.len() - i,
    {
        if v[i].client_order_id == *id {
            proof {
                lemma_order_index_unique(v@, i as int);
            }
            return Some(i);
        }
        i = i + 1;
    }
    None
}

/// Stores `order` under its client id, replacing an order with that id.
pub(crate) fn insert_order(v: &mut Vec<TrackedOrder>, order: TrackedOrder)
    requires
        orders_unique(old(v)@),
    ensures
        orders_unique(final(v)@),
        final(v)@ == orders_insert(old(v)@, order),
{
    let ghost old_s = v@;
    match find_order(v, &order.client_order_id) {
        Some(i) => {
            proof {
                assert(old_s[i as int].client_order_id@ == order.client_order_id@);
            }
            v.set(i, order);
            proof {
                let ns = v@;
                assert forall|a: int, b: int| 0 <= a < b < ns.len() implies (#[trigger] ns[a]).client_order_id@
                    != (#[trigger] ns[b]).client_order_id@ by {
                    assert(ns[a].client_order_id@ == old_s[a].client_order_id@);
                    assert(ns[b].client_order_id@ == old_s[b].client_order_id@);
                    assert(old_s[a].client_order_id@ != old_s[b].client_order_id@);
                }
            }
        },
        None => {
            v.push(order);
            proof {
                let ns = v@;
                assert forall|a: int, b: int| 0 <= a < b < ns.len() implies (#[trigger] ns[a]).client_order_id@
                    != (#[trigger] ns[b]).client_order_id@ by {
                    if b < old_s.len() {
                        assert(old_s[a].client_order_id@ != old_s[b].client_order_id@);
                    } else {
                        assert(ns[a] == old_s[a]);
                    }
                }
            }
        },
    }
}

fn find_bracket(v: &Vec<BracketPair>, id: &String) -> (r: Option<usize>)
    requires
        brackets_unique(v@),
    ensures
        r matches Some(k) ==> k < v@.len() && v@[k as int].entry_order_id@ == id@ && bracket_index(v@, id@)
            == Some(k as int),
        r is None ==> bracket_index(v@, id@) is None,
{
    let mut i: usize = 0;
    while i < v.len()
        invariant
            i <= v@.len(),
            brackets_unique(v@),
            forall|j: int| 0 <= j < i ==> (#[trigger] v@[j]).entry_order_id@ != id@,
        decreases v@.len() - i,
    {
        if v[i].entry_order_id == *id {
            proof {
                lemma_bracket_index_unique(v@, i as int);
            }
            return Some(i);
        }
        i = i + 1;
    }
    None
}

/// Whether `id` is one of the bracket's legs.
pub open spec fn bracket_has_leg(b: BracketPair, id: Seq<char>) -> bool {
    (b.stop_loss_order_id is Some && b.stop_loss_order_id->0@ == id) || (b.take_profit_order_id is Some
        && b.take_profit_order_id->0@ == id)
}

fn leg_matches(leg: &Option<String>, id: &String) -> (r: bool)
    ensures
        r == (leg is Some && leg->0@ == id@),
{
    match leg {
        Some(l) => *l == *id,
        None => false,
    }
}

impl OrderManager {
    /// An empty manager keeping at most `max_history` completed orders.
    pub fn new(max_history: usize) -> (r: Self)
        ensures
            manager_wf(r@),
            r@.active.len() == 0,
            r@.completed.len() == 0,
            r@.brackets.len() == 0,
            r@.max_history == max_history,
    {
        OrderManager {
            active_orders: Vec::new(),
            completed_orders: Vec::new(),
            max_completed_history: max_history,
            bracket_orders: Vec::new(),
        }
    }

    fn store_active(&mut self, order: TrackedOrder)
        requires
            manager_wf(old(self)@),
        ensures
            manager_wf(final(self)@),
            final(self)@ == (OrderBookView { active: orders_insert(old(self)@.active, order), ..old(self)@ }),
    {
        insert_order(&mut self.active_orders, order);
    }

    /// Starts tracking an order (replacing one with the same client id).
    pub fn track_order(&mut self, order: TrackedOrder)
        requires
            manager_wf(old(self)@),
        ensures
            manager_wf(final(self)@),
            final(self)@ == (OrderBookView { active: orders_insert(old(self)@.active, order), ..old(self)@ }),
    {
        self.store_active(order);
    }

    /// Records an order update: a terminal order leaves the active set and
    /// joins the history (the oldest dropped beyond the limit); any other
    /// replaces the active entry.
    pub fn update_order(&mut self, order: TrackedOrder)
        requires
            manager_wf(old(self)@),
        ensures
            manager_wf(final(self)@),
            status_terminal(order.status) ==> final(self)@ == (OrderBookView {
                active: orders_remove(old(self)@.active, order.client_order_id@),
                completed: history_push(old(self)@.completed, order, old(self)@.max_history),
                ..old(self)@
            }),
            !status_terminal(order.status) ==> final(self)@ == (OrderBookView {
                active: orders_insert(old(self)@.active, order),
                ..old(self)@
            }),
    {
        if order.status.is_terminal() {
            let ghost old_s = self.active_orders@;
            match find_order(&self.active_orders, &order.client_order_id) {
                Some(i) => {
                    self.active_orders.remove(i);
                    proof {
                        let ns = self.active_orders@;
                        assert forall|a: int, b: int| 0 <= a < b < ns.len() implies (#[trigger] ns[a]).client_order_id@
                            != (#[trigger] ns[b]).client_order_id@ by {
                            let a0 = if a < i { a } else { a + 1 };
                            let b0 = if b < i { b } else { b + 1 };
                            assert(ns[a] == old_s[a0]);
                            assert(ns[b] == old_s[b0]);
                        }
                    }
                },
                None => {},
            }
            let ghost old_c = self.completed_orders@;
            self.completed_orders.push(order);
            if self.completed_orders.len() > self.max_completed_history {
                self.completed_orders.remove(0);
                assert(self.completed_orders@ =~= old_c.push(order).drop_first());
            }
        } else {
            self.store_active(order);
        }
    }

    /// Registers a bracket (replacing one for the same entry).
    pub fn register_bracket(&mut self, bracket: BracketPair)
        requires
            manager_wf(old(self)@),
        ensures
            manager_wf(final(self)@),
            final(self)@ == (OrderBookView {
                brackets: match bracket_index(old(self)@.brackets, bracket.entry_order_id@) {
                    Some(i) => old(self)@.brackets.update(i, bracket),
                    None => old(self)@.brackets.push(bracket),
                },
                ..old(self)@
            }),
    {
        let ghost old_s = self.bracket_orders@;
        match find_bracket(&self.bracket_orders, &bracket.entry_order_id) {
            Some(i) => {
                proof {
                    assert(old_s[i as int].entry_order_id@ == bracket.entry_order_id@);
                }
                self.bracket_orders.set(i, bracket);
                proof {
                    let ns = self.bracket_orders@;
                    assert forall|a: int, b: int| 0 <= a < b < ns.len() implies (#[trigger] ns[a]).entry_order_id@
                        != (#[trigger] ns[b]).entry_order_id@ by {
                        assert(ns[a].entry_order_id@ == old_s[a].entry_order_id@);
                        assert(ns[b].entry_order_id@ == old_s[b].entry_order_id@);
                        assert(old_s[a].entry_order_id@ != old_s[b].entry_order_id@);
                    }
                }
            },
            None => {
                self.bracket_orders.push(bracket);
                proof {
                    let ns = self.bracket_orders@;
                    assert forall|a: int, b: int| 0 <= a < b < ns.len() implies (#[trigger] ns[a]).entry_order_id@
                        != (#[trigger] ns[b]).entry_order_id@ by {
                        if b < old_s.len() {
                            assert(old_s[a].entry_order_id@ != old_s[b].entry_order_id@);
                        } else {
                            assert(ns[a] == old_s[a]);
                        }
                    }
                }
            },
        }
    }

    /// The bracket of an entry order.
    pub fn get_bracket(&self, entry_order_id: &String) -> (r: Option<&BracketPair>)
        requires
            manager_wf(self@),
        ensures
            r == match bracket_index(self@.brackets, entry_order_id@) {
                Some(i) => Some(&self@.brackets[i]),
                None => None,
            },
    {
        match find_bracket(&self.bracket_orders, entry_order_id) {
            Some(i) => Some(&self.bracket_orders[i]),
            None => None,
        }
    }

    /// A bracket one of whose legs is `order_id` (the first registered).
    pub fn find_bracket_containing(&self, order_id: &String) -> (r: Option<&BracketPair>)
        ensures
            match r {
                Some(b) => exists|i: int| 0 <= i < self@.brackets.len() && self@.brackets[i] == *b
                    && bracket_has_leg(*b, order_id@),
                None => forall|i: int| 0 <= i < self@.brackets.len() ==> !bracket_has_leg(
                    #[trigger] self@.brackets[i],
                    order_id@,
                ),
            },
    {
        let mut i: usize = 0;
        while i < self.bracket_orders.len()
            invariant
                i <= self.bracket_orders@.len(),
                forall|j: int| 0 <= j < i ==> !bracket_has_leg(#[trigger] self.bracket_orders@[j], order_id@),
            decreases self.bracket_orders@.len() - i,
        {
            let b = &self.bracket_orders[i];
            if leg_matches(&b.stop_loss_order_id, order_id) || leg_matches(
                &b.take_profit_order_id,
                order_id,
            ) {
                assert(self@.brackets[i as int] == *b);
                return Some(b);
            }
            i = i + 1;
        }
        None
    }

    /// Removes and returns the bracket of an entry order.
    pub fn remove_bracket(&mut self, entry_order_id: &String) -> (r: Option<BracketPair>)
        requires
            manager_wf(old(self)@),
        ensures
            manager_wf(final(self)@),
            match bracket_index(old(self)@.brackets, entry_order_id@) {
                Some(i) => r == Some(old(self)@.brackets[i]) && final(self)@ == (OrderBookView {
                    brackets: old(self)@.brackets.remove(i),
                    ..old(self)@
                }),
                None => r is None && final(self)@ == old(self)@,
            },
    {
        let ghost old_s = self.bracket_orders@;
        match find_bracket(&self.bracket_orders, entry_order_id) {
            Some(i) => {
                let b = self.bracket_orders.remove(i);
                proof {
                    let ns = self.bracket_orders@;
                    assert forall|a: int, c: int| 0 <= a < c < ns.len() implies (#[trigger] ns[a]).entry_order_id@
                        != (#[trigger] ns[c]).entry_order_id@ by {
                        let a0 = if a < i { a } else { a + 1 };
                        let c0 = if c < i { c } else { c + 1 };
                        assert(ns[a] == old_s[a0]);
                        assert(ns[c] == old_s[c0]);
                    }
                }
                Some(b)
            },
            None => None,
        }
    }

    /// The active orders for a symbol, in tracking order.
    pub fn active_orders_for_symbol(&self, symbol: &String) -> (r: Vec<&TrackedOrder>)
        ensures
            r@.len() == orders_for_symbol(self@.active, symbol@).len(),
            forall|i: int| 0 <= i < r@.len() ==> *(#[trigger] r@[i]) == orders_for_symbol(
                self@.active,
                symbol@,
            )[i],
    {
        let mut out: Vec<&TrackedOrder> = Vec::new();
        let mut i: usize = 0;
        while i < self.active_orders.len()
            invariant
                i <= self.active_orders@.len(),
                out@.len() == orders_for_symbol(self.active_orders@.subrange(0, i as int), symbol@).len(),
                forall|k: int| 0 <= k < out@.len() ==> *(#[trigger] out@[k]) == orders_for_symbol(
                    self.active_orders@.subrange(0, i as int),
                    symbol@,
                )[k],
            decreases self.active_orders@.len() - i,
        {
            assert(self.active_orders@.subrange(0, i + 1).drop_last() =~= self.active_orders@.subrange(
                0,
                i as int,
            ));
            if self.active_orders[i].request.symbol == *symbol {
                out.push(&self.active_orders[i]);
            }
            i = i + 1;
        }
        assert(self.active_orders@.subrange(0, self.active_orders@.len() as int) =~= self.active_orders@);
        out
    }

    /// Whether an order of `strategy` on `symbol` is active.
    pub fn has_active_order(&self, symbol: &String, strategy: &String) -> (r: bool)
        ensures
            r == exists|j: int| 0 <= j < self@.active.len() && (#[trigger] self@.active[j]).request.symbol@
                == symbol@ && self@.active[j].request.strategy_name@ == strategy@,
    {
        let mut i: usize = 0;
        while i < self.active_orders.len()
            invariant
                i <= self.active_orders@.len(),
                forall|j: int| 0 <= j < i ==> !((#[trigger] self.active_orders@[j]).request.symbol@ == symbol@
                    && self.active_orders@[j].request.strategy_name@ == strategy@),
            decreases self.active_orders@.len() - i,
        {
            if self.active_orders[i].request.symbol == *symbol
                && self.active_orders[i].request.strategy_name == *strategy {
                return true;
            }
            i = i + 1;
        }
        false
    }

    /// Number of active orders.
    pub fn active_count(&self) -> (r: usize)
        ensures
            r == self@.active.len(),
    {
        self.active_orders.len()
    }

    /// Number of completed orders kept.
    pub fn completed_count(&self) -> (r: usize)
        ensures
            r == self@.completed.len(),
    {
        self.completed_orders.len()
    }

    /// The active orders, in tracking order.
    pub fn active_orders(&self) -> (r: &Vec<TrackedOrder>)
        ensures
            r@ == self@.active,
    {
        &self.active_orders
    }

    /// The last `n` completed orders, oldest first.
    pub fn recent_completed(&self, n: usize) -> (r: Vec<&TrackedOrder>)
        ensures
            r@.len() == crate::market_data::last_items(self@.completed, n as int).len(),
            forall|i: int| 0 <= i < r@.len() ==> *r@[i] == crate::market_data::last_items(
                self@.completed,
                n as int,
            )[i],
    {
        let len = self.completed_orders.len();
        let start = if n >= len {
            0
        } else {
            len - n
        };
        let mut out: Vec<&TrackedOrder> = Vec::new();
        let mut i: usize = start;
        while i < len
            invariant
                len == self@.completed.len(),
                start <= i <= len,
                start == (if n >= len { 0 } else { len - n }),
                out@.len() == i - start,
                forall|j: int| 0 <= j < out@.len() ==> *out@[j] == self@.completed[start + j],
            decreases len - i,
        {
            out.push(&self.completed_orders[i]);
            i = i + 1;
        }
        out
    }

    /// The active order `id`, to be changed in place.
    pub fn get_active_mut(&mut self, id: &String) -> (r: Option<&mut TrackedOrder>)
        requires
            manager_wf(old(self)@),
        ensures
            r is Some == order_index(old(self)@.active, id@) is Some,
            r matches Some(m) ==> *m == old(self)@.active[order_index(old(self)@.active, id@)->0]
                && final(self)@ == (OrderBookView {
                active: old(self)@.active.update(order_index(old(self)@.active, id@)->0, *final(m)),
                ..old(self)@
            }),
            r is None ==> final(self)@ == old(self)@,
    {
        match find_order(&self.active_orders, id) {
            Some(i) => Some(&mut self.active_orders[i]),
            None => None,
        }
    }

    /// Copies of the brackets on `symbol`, in order.
    pub fn brackets_for_symbol(&self, symbol: &String) -> (r: Vec<BracketPair>)
        ensures
            r@ == brackets_on(self@.brackets, symbol@),
    {
        let mut out: Vec<BracketPair> = Vec::new();
        let mut i: usize = 0;
        while i < self.bracket_orders.len()
            invariant
                i <= self.bracket_orders@.len(),
                out@ == brackets_on(self.bracket_orders@.subrange(0, i as int), symbol@),
            decreases self.bracket_orders@.len() - i,
        {
            assert(self.bracket_orders@.subrange(0, i + 1).drop_last() =~= self.bracket_orders@.subrange(
                0,
                i as int,
            ));
            if self.bracket_orders[i].symbol == *symbol {
                out.push(self.bracket_orders[i].duplicate());
            }
            i = i + 1;
        }
        assert(self.bracket_orders@.subrange(0, self.bracket_orders@.len() as int) =~= self.bracket_orders@);
        out
    }

    /// All registered brackets.
    pub fn all_brackets(&self) -> (r: &Vec<BracketPair>)
        ensures
            r@ == self@.brackets,
    {
        &self.bracket_orders
    }
}

} // verus!
