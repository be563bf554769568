//! Market data buffering and freshness: a bounded candle buffer (oldest
//! dropped first) and per-symbol staleness tracking.
use vstd::prelude::*;
use crate::decimal::Dec;
use crate::types::Candle;
use crate::risk::now_millis;

verus! {

/// Fixed-capacity buffer of candles, oldest first.
pub struct CandleBuffer {
    candles: Vec<Candle>,
    capacity: usize,
}

/// The buffer after pushing `c`: the oldest candle is dropped first when
/// the buffer is at capacity.
pub open spec fn pushed(s: Seq<Candle>, capacity: usize, c: Candle) -> Seq<Candle> {
    if s.len() >= capacity && s.len() > 0 {
        s.drop_first().push(c)
    } else {
        s.push(c)
    }
}

/// The last `n` items (all of them when there are fewer).
pub open spec fn last_items<T>(s: Seq<T>, n: int) -> Seq<T> {
    if n >= s.len() {
        s
    } else {
        s.subrange(s.len() - n, s.len() as int)
    }
}

/// The buffer after pushing each candle of `cs` in order.
pub open spec fn pushed_all(s: Seq<Candle>, capacity: usize, cs: Seq<Candle>) -> Seq<Candle>
    decreases cs.len(),
{
    if cs.len() == 0 {
        s
    } else {
        pushed(pushed_all(s, capacity, cs.drop_last()), capacity, cs.last())
    }
}

proof fn lemma_pushed_all(s: Seq<Candle>, capacity: usize, cs: Seq<Candle>)
    requires
        capacity > 0,
        s.len() <= capacity,
    ensures
        pushed_all(s, capacity, cs) == last_items(s + cs, capacity as int),
    decreases cs.len(),
{
    if cs.len() == 0 {
        assert(s + cs =~= s);
    } else {
        let init = cs.drop_last();
        lemma_pushed_all(s, capacity, init);
        let t = s + init;
        let x = cs.last();
        assert(s + cs =~= t.push(x));
        let l = last_items(t, capacity as int);
        if l.len() >= capacity && l.len() > 0 {
            assert(l.drop_first().push(x) =~= last_items(t.push(x), capacity as int));
        } else {
            assert(l.push(x) =~= last_items(t.push(x), capacity as int));
        }
    }
}

/// A buffer of positive capacity that started empty holds, after any
/// sequence of pushes, the last `min(m, capacity)` of the `m` candles
/// pushed, in the order they were pushed.
pub proof fn law_buffer_keeps_last(capacity: usize, cs: Seq<Candle>)
    requires
        capacity > 0,
    ensures
        pushed_all(Seq::empty(), capacity, cs) == last_items(cs, capacity as int),
        pushed_all(Seq::empty(), capacity, cs).len() == (if cs.len() < capacity {
            cs.len() as int
        } else {
            capacity as int
        }),
        cs.len() > 0 ==> pushed_all(Seq::empty(), capacity, cs).last() == cs.last(),
{
    lemma_pushed_all(Seq::empty(), capacity, cs);
    assert(Seq::<Candle>::empty() + cs =~= cs);
}

impl View for CandleBuffer {
    type V = Seq<Candle>;

    closed spec fn view(&self) -> Seq<Candle> {
        self.candles@
    }
}

impl CandleBuffer {
    /// The capacity given at construction.
    pub closed spec fn cap(&self) -> usize {
        self.capacity
    }

    /// An empty buffer.
    pub fn new(capacity: usize) -> (r: Self)
        ensures
            r@.len() == 0,
            r.cap() == capacity,
    {
        CandleBuffer { candles: Vec::new(), capacity }
    }

    /// Appends a candle, dropping the oldest when at capacity.  The buffer
    /// never holds more than its capacity (one candle for capacity zero).
    pub fn push(&mut self, candle: Candle)
        ensures
            final(self)@ == pushed(old(self)@, old(self).cap(), candle),
            final(self).cap() == old(self).cap(),
            old(self)@.len() <= old(self).cap() && old(self).cap() > 0 ==> final(self)@.len()
                <= final(self).cap(),
    {
        if self.candles.len() >= self.capacity && self.candles.len() > 0 {
            self.candles.remove(0);
        }
        self.candles.push(candle);
    }

    /// Number of candles held.
    pub fn len(&self) -> (r: usize)
        ensures
            r == self@.len(),
    {
        self.candles.len()
    }

    /// Whether the buffer is empty.
    pub fn is_empty(&self) -> (r: bool)
        ensures
            r == (self@.len() == 0),
    {
        self.candles.len() == 0
    }

    /// The last `n` candles, most recent last.
    pub fn last_n(&self, n: usize) -> (r: Vec<&Candle>)
        ensures
            r@.len() == last_items(self@, n as int).len(),
            forall|i: int| 0 <= i < r@.len() ==> *r@[i] == last_items(self@, n as int)[i],
    {
        let len = self.candles.len();
        let start = if n >= len {
            0
        } else {
            len - n
        };
        let mut out: Vec<&Candle> = Vec::new();
        let mut i: usize = start;
        while i < len
            invariant
                len == self@.len(),
                start <= i <= len,
                start == (if n >= len { 0 } else { len - n }),
                out@.len() == i - start,
                forall|j: int| 0 <= j < out@.len() ==> *out@[j] == self@[start + j],
            decreases len - i,
        {
            out.push(&self.candles[i]);
            i = i + 1;
        }
        out
    }

    /// Every candle, oldest first, by reference.
    pub fn iter(&self) -> (r: Vec<&Candle>)
        ensures
            r@.len() == self@.len(),
            forall|i: int| 0 <= i < r@.len() ==> *r@[i] == self@[i],
    {
        self.last_n(self.candles.len())
    }

    /// The most recent candle.
    pub fn latest(&self) -> (r: Option<&Candle>)
        ensures
            self@.len() == 0 ==> r is None,
            self@.len() > 0 ==> r is Some && *r->0 == self@.last(),
    {
        let len = self.candles.len();
        if len == 0 {
            None
        } else {
            Some(&self.candles[len - 1])
        }
    }

    /// All candles, oldest first.
    pub fn to_vec(&self) -> (r: Vec<Candle>)
        ensures
            r@ == self@,
    {
        let mut out: Vec<Candle> = Vec::new();
        let mut i: usize = 0;
        while i < self.candles.len()
            invariant
                i <= self@.len(),
                out@ == self@.subrange(0, i as int),
            decreases self@.len() - i,
        {
            out.push(self.candles[i].duplicate());
            assert(out@ =~= self@.subrange(0, i + 1));
            i = i + 1;
        }
        assert(self@.subrange(0, self@.len() as int) =~= self@);
        out
    }

    /// Close prices of the last `n` candles.
    pub fn closes(&self, n: usize) -> (r: Vec<Dec>)
        ensures
            r@.len() == last_items(self@, n as int).len(),
            forall|i: int| 0 <= i < r@.len() ==> r@[i] == last_items(self@, n as int)[i].close,
    {
        let last = self.last_n(n);
        let mut out: Vec<Dec> = Vec::new();
        let mut i: usize = 0;
        while i < last.len()
            invariant
                i <= last@.len(),
                out@.len() == i,
                forall|j: int| 0 <= j < i ==> out@[j] == last@[j].close,
            decreases last@.len() - i,
        {
            out.push(last[i].close);
            i = i + 1;
        }
        out
    }

    /// Volumes of the last `n` candles.
    pub fn volumes(&self, n: usize) -> (r: Vec<Dec>)
        ensures
            r@.len() == last_items(self@, n as int).len(),
            forall|i: int| 0 <= i < r@.len() ==> r@[i] == last_items(self@, n as int)[i].volume,
    {
        let last = self.last_n(n);
        let mut out: Vec<Dec> = Vec::new();
        let mut i: usize = 0;
        while i < last.len()
            invariant
                i <= last@.len(),
                out@.len() == i,
                forall|j: int| 0 <= j < i ==> out@[j] == last@[j].volume,
            decreases last@.len() - i,
        {
            out.push(last[i].volume);
            i = i + 1;
        }
        out
    }
}

/// A buffer that starts within its capacity stays within it after a
/// push, and the pushed candle is the most recent one.
pub proof fn law_buffer_bounded(s: Seq<Candle>, capacity: usize, c: Candle)
    requires
        s.len() <= capacity,
        capacity > 0,
    ensures
        pushed(s, capacity, c).len() <= capacity,
        pushed(s, capacity, c).last() == c,
        s.len() < capacity ==> pushed(s, capacity, c) == s.push(c),
{
}

// ---------------------------------------------------------------------------
// Staleness
// ---------------------------------------------------------------------------

/// Whole seconds from `ts_ms` to `now_ms`, truncated toward zero.
pub open spec fn age_secs(ts_ms: i64, now_ms: i64) -> int {
    let d = now_ms - ts_ms;
    if d >= 0 {
        d / 1000
    } else {
        -((-d) / 1000)
    }
}

/// Whether a timestamp is older than `max_age_secs` at `now_ms`.
pub open spec fn stale_at(ts_ms: i64, max_age_secs: i64, now_ms: i64) -> bool {
    age_secs(ts_ms, now_ms) > max_age_secs
}

/// Whether `ts_ms` is older than `max_age_secs` at `now_ms`.
pub fn is_stale_at(ts_ms: i64, max_age_secs: i64, now_ms: i64) -> (r: bool)
    ensures
        r == stale_at(ts_ms, max_age_secs, now_ms),
{
    let d: i128 = now_ms as i128 - ts_ms as i128;
    let age: i128 = if d >= 0 {
        d / 1000
    } else {
        -((-d) / 1000)
    };
    age > max_age_secs as i128
}

/// Whether `ts_ms` is older than `max_age_secs` now.
pub fn is_stale(ts_ms: i64, max_age_secs: i64) -> (r: bool)
    ensures
        exists|now: i64| r == #[trigger] stale_at(ts_ms, max_age_secs, now),
{
    let now = now_millis();
    is_stale_at(ts_ms, max_age_secs, now)
}

/// Last-received times per symbol.
pub struct StalenessTracker {
    last_seen: Vec<(String, i64)>,
    max_age_secs: i64,
}

/// The symbols of the entries whose time is stale at `now_ms`, in order.
pub open spec fn stale_keys(s: Seq<(String, i64)>, max_age_secs: i64, now_ms: i64) -> Seq<Seq<char>>
    decreases s.len(),
{
    if s.len() == 0 {
        Seq::empty()
    } else {
        let rest = stale_keys(s.drop_last(), max_age_secs, now_ms);
        if stale_at(s.last().1, max_age_secs, now_ms) {
            rest.push(s.last().0@)
        } else {
            rest
        }
    }
}

/// No symbol is recorded twice.
pub open spec fn keys_unique(s: Seq<(String, i64)>) -> bool {
    forall|i: int, j: int| 0 <= i < j < s.len() ==> (#[trigger] s[i]).0@ != (#[trigger] s[j]).0@
}

/// The time recorded for `symbol`.
pub open spec fn seen_at(s: Seq<(String, i64)>, symbol: Seq<char>) -> Option<i64> {
    if exists|i: int| 0 <= i < s.len() && (#[trigger] s[i]).0@ == symbol {
        Some(s[choose|i: int| 0 <= i < s.len() && (#[trigger] s[i]).0@ == symbol].1)
    } else {
        None
    }
}

proof fn lemma_seen_at_index(s: Seq<(String, i64)>, i: int)
    requires
        keys_unique(s),
        0 <= i < s.len(),
    ensures
        seen_at(s, s[i].0@) == Some(s[i].1),
{
    let k = s[i].0@;
    let c = choose|j: int| 0 <= j < s.len() && (#[trigger] s[j]).0@ == k;
    if c != i {
        if c < i {
            assert(s[c].0@ != s[i].0@);
        } else {
            assert(s[i].0@ != s[c].0@);
        }
    }
}

impl StalenessTracker {
    #[verifier::type_invariant]
    spec fn tracker_wf(self) -> bool {
        keys_unique(self.last_seen@)
    }

    pub closed spec fn max_age(&self) -> i64 {
        self.max_age_secs
    }

    /// The time last recorded for `symbol`.
    pub closed spec fn last_seen_of(&self, symbol: Seq<char>) -> Option<i64> {
        seen_at(self.last_seen@, symbol)
    }

    /// A tracker that has seen nothing.
    pub fn new(max_age_secs: i64) -> (r: Self)
        ensures
            forall|s: Seq<char>| #[trigger] r.last_seen_of(s) is None,
            r.max_age() == max_age_secs,
    {
        StalenessTracker { last_seen: Vec::new(), max_age_secs }
    }

    fn index_of(&self, symbol: &String) -> (r: Option<usize>)
        ensures
            r matches Some(i) ==> i < self.last_seen@.len() && self.last_seen@[i as int].0@ == symbol@,
            r is None ==> forall|j: int| 0 <= j < self.last_seen@.len() ==> (#[trigger] self.last_seen@[j]).0@
                != symbol@,
    {
        let mut i: usize = 0;
        while i < self.last_seen.len()
            invariant
                i <= self.last_seen@.len(),
                forall|j: int| 0 <= j < i ==> (#[trigger] self.last_seen@[j]).0@ != symbol@,
            decreases self.last_seen@.len() - i,
        {
            if self.last_seen[i].0 == *symbol {
                return Some(i);
            }
            i = i + 1;
        }
        None
    }

    /// Records that `symbol` was seen at `timestamp_ms`.
    pub fn update(&mut self, symbol: &String, timestamp_ms: i64)
        ensures
            final(self).last_seen_of(symbol@) == Some(timestamp_ms),
            forall|s: Seq<char>| s != symbol@ ==> #[trigger] final(self).last_seen_of(s) == old(self).last_seen_of(s),
            final(self).max_age() == old(self).max_age(),
    {
        proof {
            use_type_invariant(&*self);
        }
        let ghost old_s = self.last_seen@;
        let found = self.index_of(symbol);
        let mut v: Vec<(String, i64)> = Vec::new();
        std::mem::swap(&mut v, &mut self.last_seen);
        match found {
            Some(i) => {
                v.set(i, (symbol.clone(), timestamp_ms));
                proof {
                    let ns = v@;
                    assert(keys_unique(ns)) by {
                        assert forall|a: int, b: int| 0 <= a < b < ns.len() implies (#[trigger] ns[a]).0@
                            != (#[trigger] ns[b]).0@ by {
                            assert(old_s[a].0@ != old_s[b].0@);
                        }
                    }
                    lemma_seen_at_index(ns, i as int);
                    assert forall|s: Seq<char>| s != symbol@ implies #[trigger] seen_at(ns, s) == seen_at(old_s, s) by {
                        if exists|j: int| 0 <= j < old_s.len() && (#[trigger] old_s[j]).0@ == s {
                            let j = choose|j: int| 0 <= j < old_s.len() && (#[trigger] old_s[j]).0@ == s;
                            lemma_seen_at_index(old_s, j);
                            assert(ns[j] == old_s[j]);
                            lemma_seen_at_index(ns, j);
                        } else {
                            assert forall|j: int| 0 <= j < ns.len() implies (#[trigger] ns[j]).0@ != s by {
                                if j != i {
                                    assert(ns[j] == old_s[j]);
                                }
                            }
                        }
                    }
                }
            },
            None => {
                v.push((symbol.clone(), timestamp_ms));
                proof {
                    let ns = v@;
                    assert(keys_unique(ns)) by {
                        assert forall|a: int, b: int| 0 <= a < b < ns.len() implies (#[trigger] ns[a]).0@
                            != (#[trigger] ns[b]).0@ by {
                            if b < old_s.len() {
                                assert(old_s[a].0@ != old_s[b].0@);
                            } else {
                                assert(ns[a] == old_s[a]);
                            }
                        }
                    }
                    lemma_seen_at_index(ns, old_s.len() as int);
                    assert forall|s: Seq<char>| s != symbol@ implies #[trigger] seen_at(ns, s) == seen_at(old_s, s) by {
                        if exists|j: int| 0 <= j < old_s.len() && (#[trigger] old_s[j]).0@ == s {
                            let j = choose|j: int| 0 <= j < old_s.len() && (#[trigger] old_s[j]).0@ == s;
                            lemma_seen_at_index(old_s, j);
                            assert(ns[j] == old_s[j]);
                            lemma_seen_at_index(ns, j);
                        } else {
                            assert forall|j: int| 0 <= j < ns.len() implies (#[trigger] ns[j]).0@ != s by {
                                if j < old_s.len() {
                                    assert(ns[j] == old_s[j]);
                                }
                            }
                        }
                    }
                }
            },
        }
        self.last_seen = v;
    }

    /// Whether `symbol` is stale at `now_ms` (a symbol never seen is stale).
    pub fn is_stale_at(&self, symbol: &String, now_ms: i64) -> (r: bool)
        ensures
            r == match self.last_seen_of(symbol@) {
                Some(ts) => stale_at(ts, self.max_age(), now_ms),
                None => true,
            },
    {
        proof {
            use_type_invariant(self);
        }
        match self.index_of(symbol) {
            Some(i) => {
                proof {
                    lemma_seen_at_index(self.last_seen@, i as int);
                }
                is_stale_at(self.last_seen[i].1, self.max_age_secs, now_ms)
            },
            None => true,
        }
    }

    /// Whether `symbol` counts as stale at `now_ms`.
    pub open spec fn stale_symbol_at(&self, symbol: Seq<char>, now_ms: i64) -> bool {
        match self.last_seen_of(symbol) {
            Some(ts) => stale_at(ts, self.max_age(), now_ms),
            None => true,
        }
    }

    /// Whether `symbol` is stale now.
    pub fn is_stale(&self, symbol: &String) -> (r: bool)
        ensures
            exists|now: i64| r == #[trigger] self.stale_symbol_at(symbol@, now),
    {
        let now = now_millis();
        let r = self.is_stale_at(symbol, now);
        assert(r == self.stale_symbol_at(symbol@, now));
        r
    }

    /// The recorded symbols and times, in the order first recorded.
    pub closed spec fn entries(&self) -> Seq<(String, i64)> {
        self.last_seen@
    }

    /// The symbols whose last time is stale at `now_ms`, in the order they
    /// were first recorded.
    pub fn stale_symbols_at(&self, now_ms: i64) -> (r: Vec<String>)
        ensures
            r@.len() == stale_keys(self.entries(), self.max_age(), now_ms).len(),
            forall|k: int| 0 <= k < r@.len() ==> (#[trigger] r@[k])@ == stale_keys(
                self.entries(),
                self.max_age(),
                now_ms,
            )[k],
    {
        let mut out: Vec<String> = Vec::new();
        let mut i: usize = 0;
        while i < self.last_seen.len()
            invariant
                i <= self.last_seen@.len(),
                out@.len() == stale_keys(self.last_seen@.subrange(0, i as int), self.max_age_secs, now_ms).len(),
                forall|k: int| 0 <= k < out@.len() ==> (#[trigger] out@[k])@ == stale_keys(
                    self.last_seen@.subrange(0, i as int),
                    self.max_age_secs,
                    now_ms,
                )[k],
            decreases self.last_seen@.len() - i,
        {
            assert(self.last_seen@.subrange(0, i + 1).drop_last() =~= self.last_seen@.subrange(0, i as int));
            if is_stale_at(self.last_seen[i].1, self.max_age_secs, now_ms) {
                out.push(self.last_seen[i].0.clone());
            }
            i = i + 1;
        }
        assert(self.last_seen@.subrange(0, self.last_seen@.len() as int) =~= self.last_seen@);
        out
    }

    /// Whether no recorded symbol is stale at `now_ms`.
    pub fn all_fresh_at(&self, now_ms: i64) -> (r: bool)
        ensures
            r == forall|s: Seq<char>| (#[trigger] self.last_seen_of(s)) is Some ==> !stale_at(
                self.last_seen_of(s)->0,
                self.max_age(),
                now_ms,
            ),
    {
        proof {
            use_type_invariant(self);
        }
        let mut i: usize = 0;
        while i < self.last_seen.len()
            invariant
                i <= self.last_seen@.len(),
                keys_unique(self.last_seen@),
                forall|j: int| 0 <= j < i ==> !stale_at((#[trigger] self.last_seen@[j]).1, self.max_age_secs, now_ms),
            decreases self.last_seen@.len() - i,
        {
            if is_stale_at(self.last_seen[i].1, self.max_age_secs, now_ms) {
                proof {
                    lemma_seen_at_index(self.last_seen@, i as int);
                    assert(self.last_seen_of(self.last_seen@[i as int].0@) is Some);
                }
                return false;
            }
            i = i + 1;
        }
        proof {
            assert forall|s: Seq<char>| (#[trigger] self.last_seen_of(s)) is Some implies !stale_at(
                self.last_seen_of(s)->0,
                self.max_age(),
                now_ms,
            ) by {
                let j = choose|j: int| 0 <= j < self.last_seen@.len() && (#[trigger] self.last_seen@[j]).0@ == s;
                lemma_seen_at_index(self.last_seen@, j);
            }
        }
        true
    }

    /// The symbols whose last time is stale now, in the order they were
    /// first recorded.
    pub fn stale_symbols(&self) -> (r: Vec<String>)
        ensures
            exists|now: i64| #[trigger] names_are(r@, stale_keys(self.entries(), self.max_age(), now)),
    {
        let now = now_millis();
        let r = self.stale_symbols_at(now);
        assert(names_are(r@, stale_keys(self.entries(), self.max_age(), now)));
        r
    }

    /// Whether no recorded symbol is stale now.
    pub fn all_fresh(&self) -> (r: bool)
        ensures
            exists|now: i64| r == #[trigger] self.fresh_at(now),
    {
        let now = now_millis();
        let r = self.all_fresh_at(now);
        assert(r == self.fresh_at(now));
        r
    }

    /// No recorded symbol is stale at `now_ms`.
    pub open spec fn fresh_at(&self, now_ms: i64) -> bool {
        forall|s: Seq<char>| (#[trigger] self.last_seen_of(s)) is Some ==> !stale_at(
            self.last_seen_of(s)->0,
            self.max_age(),
            now_ms,
        )
    }
}

/// The texts of `r` are exactly `keys`, in order.
pub open spec fn names_are(r: Seq<String>, keys: Seq<Seq<char>>) -> bool {
    &&& r.len() == keys.len()
    &&& forall|k: int| 0 <= k < r.len() ==> (#[trigger] r[k])@ == keys[k]
}

} // verus!
