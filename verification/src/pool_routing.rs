//! The decisions of the chat-server pool: which servers hold a model, how a
//! health check updates a server's record, and which server a request goes
//! to.
use vstd::prelude::*;
use crate::neural::{OllamaServerConfig, ServerHealth};
use crate::keyed::{first_match, find_key, lemma_first_match_update, lemma_first_match_push};

verus! {

/// Model name to the indices of the servers that hold it, in the order
/// found.
pub struct ModelIndex {
    entries: Vec<(String, Vec<usize>)>,
}

impl ModelIndex {
    /// The servers recorded for `model`.
    pub closed spec fn servers_of(&self, model: Seq<char>) -> Option<Seq<usize>> {
        match first_match(self.entries@, model) {
            Some(v) => Some(v@),
            None => None,
        }
    }

    /// No models.
    pub fn new() -> (r: Self)
        ensures
            forall|k: Seq<char>| #[trigger] r.servers_of(k) is None,
    {
        ModelIndex { entries: Vec::new() }
    }

    /// Records that server `server` holds `model`.
    pub fn add(&mut self, model: &str, server: usize)
        ensures
            forall|k: Seq<char>| #[trigger] final(self).servers_of(k) == if k == model@ {
                Some(
                    match old(self).servers_of(k) {
                        Some(v) => v,
                        None => Seq::empty(),
                    }.push(server),
                )
            } else {
                old(self).servers_of(k)
            },
    {
        let ghost before = self.entries@;
        match find_key(&self.entries, model) {
            Some(i) => {
                let mut v = self.entries[i].1.clone();
                assert(v@ =~= self.entries@[i as int].1@);
                v.push(server);
                let name = String::from_str(model);
                self.entries.set(i, (name, v));
                proof {
                    lemma_first_match_update(before, model@, i as int, (name, v));
                }
            },
            None => {
                let mut v: Vec<usize> = Vec::new();
                v.push(server);
                let name = String::from_str(model);
                self.entries.push((name, v));
                proof {
                    lemma_first_match_push(before, (name, v));
                }
            },
        }
    }

    /// The servers recorded for `model`.
    pub fn servers_for(&self, model: &str) -> (r: Option<&Vec<usize>>)
        ensures
            match self.servers_of(model@) {
                Some(v) => r matches Some(x) && x@ == v,
                None => r is None,
            },
    {
        match find_key(&self.entries, model) {
            Some(i) => Some(&self.entries[i].1),
            None => None,
        }
    }
}

/// The record of a server before its first check: healthy, its configured
/// models, no latency.
pub fn initial_health(config: &OllamaServerConfig) -> (r: ServerHealth)
    ensures
        r.name@ == config.name@,
        r.base_url@ == config.base_url@,
        r.is_healthy,
        r.last_check_ms == 0,
        r.latency_ms is None,
        r.available_models@.len() == config.models@.len(),
        forall|i: int| 0 <= i < r.available_models@.len() ==> (#[trigger] r.available_models@[i])@
            == config.models@[i]@,
        r.consecutive_failures == 0,
{
    let mut models: Vec<String> = Vec::new();
    let mut i: usize = 0;
    while i < config.models.len()
        invariant
            i <= config.models@.len(),
            models@.len() == i,
            forall|j: int| 0 <= j < i ==> (#[trigger] models@[j])@ == config.models@[j]@,
        decreases config.models@.len() - i,
    {
        models.push(config.models[i].clone());
        i = i + 1;
    }
    ServerHealth {
        name: config.name.clone(),
        base_url: config.base_url.clone(),
        is_healthy: true,
        last_check_ms: 0,
        latency_ms: None,
        available_models: models,
        consecutive_failures: 0,
    }
}

/// Records a health check at `now_ms`: a healthy answer resets the failure
/// count and records the latency (and the models listed, when the listing
/// succeeded); a failed one marks the server unhealthy and counts the
/// failure (saturating).
pub fn record_health_check(
    health: &mut ServerHealth,
    healthy: bool,
    latency_ms: u64,
    listed_models: Option<Vec<String>>,
    now_ms: i64,
)
    ensures
        final(health).name == old(health).name,
        final(health).base_url == old(health).base_url,
        final(health).last_check_ms == now_ms,
        final(health).is_healthy == healthy,
        healthy ==> final(health).latency_ms == Some(latency_ms) && final(health).consecutive_failures
            == 0 && final(health).available_models == match listed_models {
            Some(m) => m,
            None => old(health).available_models,
        },
        !healthy ==> final(health).latency_ms == old(health).latency_ms
            && final(health).available_models == old(health).available_models
            && final(health).consecutive_failures == (if old(health).consecutive_failures < u32::MAX {
            (old(health).consecutive_failures + 1) as u32
        } else {
            u32::MAX
        }),
{
    if healthy {
        health.is_healthy = true;
        health.latency_ms = Some(latency_ms);
        health.consecutive_failures = 0;
        match listed_models {
            Some(m) => {
                health.available_models = m;
            },
            None => {},
        }
    } else {
        health.is_healthy = false;
        if health.consecutive_failures < u32::MAX {
            health.consecutive_failures = health.consecutive_failures + 1;
        }
    }
    health.last_check_ms = now_ms;
}

/// The servers that may take a request for a model: those recorded for
/// it that are healthy, or every healthy server when the model is not
/// recorded.
pub open spec fn candidates_spec(health: Seq<ServerHealth>, recorded: Option<Seq<usize>>) -> Seq<usize>
    decreases match recorded {
        Some(v) => v.len(),
        None => health.len(),
    },
{
    match recorded {
        Some(v) => if v.len() == 0 {
            Seq::empty()
        } else {
            let rest = candidates_spec(health, Some(v.drop_last()));
            let i = v.last();
            if (i as int) < health.len() && health[i as int].is_healthy {
                rest.push(i)
            } else {
                rest
            }
        },
        None => healthy_prefix(health, health.len() as int),
    }
}

/// The healthy servers among the first `n`, in order.
pub open spec fn healthy_prefix(health: Seq<ServerHealth>, n: int) -> Seq<usize>
    decreases n,
{
    if n <= 0 {
        Seq::empty()
    } else {
        let rest = healthy_prefix(health, n - 1);
        if health[n - 1].is_healthy {
            rest.push((n - 1) as usize)
        } else {
            rest
        }
    }
}

/// The cost of sending to server `i`: its latency (1000 ms when unknown)
/// times `100 / weight` (100 for a zero weight).
pub open spec fn server_cost(health: Seq<ServerHealth>, weights: Seq<u32>, i: int) -> int {
    let latency: int = match health[i].latency_ms {
        Some(l) => l as int,
        None => 1000,
    };
    let factor: int = if weights[i] > 0 {
        (100u32 / weights[i]) as int
    } else {
        100
    };
    latency * factor
}

fn cost_of(health: &Vec<ServerHealth>, weights: &Vec<u32>, i: usize) -> (r: u128)
    requires
        i < health@.len(),
        i < weights@.len(),
    ensures
        r == server_cost(health@, weights@, i as int),
{
    let latency: u128 = match health[i].latency_ms {
        Some(l) => l as u128,
        None => 1000,
    };
    let factor: u128 = if weights[i] > 0 {
        (100 / weights[i]) as u128
    } else {
        100
    };
    assert(latency * factor <= 0xffff_ffff_ffff_ffff * 100) by (nonlinear_arith)
        requires
            latency <= 0xffff_ffff_ffff_ffff,
            factor <= 100,
    ;
    latency * factor
}

/// The recorded servers, as a sequence.
pub open spec fn recorded_view(recorded: Option<&Vec<usize>>) -> Option<Seq<usize>> {
    match recorded {
        Some(v) => Some(v@),
        None => None,
    }
}

/// Candidate `k` costs least, and strictly less than every earlier one.
pub open spec fn first_cheapest(health: Seq<ServerHealth>, weights: Seq<u32>, cands: Seq<usize>, k: int) -> bool {
    &&& 0 <= k < cands.len()
    &&& forall|j: int|
        0 <= j < cands.len() ==> server_cost(health, weights, cands[k] as int) <= server_cost(
            health,
            weights,
            #[trigger] cands[j] as int,
        )
    &&& forall|j: int|
        0 <= j < k ==> server_cost(health, weights, cands[k] as int) < server_cost(
            health,
            weights,
            #[trigger] cands[j] as int,
        )
}

/// The server for a request: the first candidate of least cost; `None`
/// when no server is a candidate.
pub fn pick_server(health: &Vec<ServerHealth>, weights: &Vec<u32>, recorded: Option<&Vec<usize>>) -> (r:
    Option<usize>)
    requires
        health@.len() == weights@.len(),
    ensures
        candidates_spec(health@, recorded_view(recorded)).len() == 0 ==> r is None,
        candidates_spec(health@, recorded_view(recorded)).len() > 0 ==> (r matches Some(c) && exists|k: int|
            #[trigger] first_cheapest(health@, weights@, candidates_spec(health@, recorded_view(recorded)), k)
                && candidates_spec(health@, recorded_view(recorded))[k] == c),
{
    let cands = candidates(health, recorded);
    let ghost cs = cands@;
    if cands.len() == 0 {
        return None;
    }
    let hl = health.len();
    assert(hl == health@.len());
    proof {
        lemma_candidates_in_range(health@, recorded_view(recorded));
    }
    let mut best: usize = cands[0];
    let mut best_k: usize = 0;
    let mut best_cost: u128 = cost_of(health, weights, best);
    let mut k: usize = 1;
    while k < cands.len()
        invariant
            cs == cands@,
            health@.len() == weights@.len(),
            forall|j: int| 0 <= j < cs.len() ==> (#[trigger] cs[j]) < health@.len(),
            1 <= k <= cs.len(),
            best_k < k,
            cs[best_k as int] == best,
            best_cost == server_cost(health@, weights@, best as int),
            forall|j: int| 0 <= j < k ==> best_cost <= server_cost(health@, weights@, #[trigger] cs[j] as int),
            forall|j: int| 0 <= j < best_k ==> best_cost < server_cost(health@, weights@, #[trigger] cs[j] as int),
        decreases cs.len() - k,
    {
        let c = cost_of(health, weights, cands[k]);
        if c < best_cost {
            best = cands[k];
            best_k = k;
            best_cost = c;
        }
        k = k + 1;
    }
    assert(first_cheapest(health@, weights@, cs, best_k as int) && cs[best_k as int] == best);
    Some(best)
}

proof fn lemma_candidates_in_range(health: Seq<ServerHealth>, recorded: Option<Seq<usize>>)
    requires
        health.len() <= usize::MAX,
    ensures
        forall|j: int|
            0 <= j < candidates_spec(health, recorded).len() ==> (#[trigger] candidates_spec(
                health,
                recorded,
            )[j]) < health.len(),
    decreases match recorded {
        Some(v) => v.len(),
        None => health.len(),
    },
{
    match recorded {
        Some(v) => {
            if v.len() > 0 {
                let rest = candidates_spec(health, Some(v.drop_last()));
                let all = candidates_spec(health, recorded);
                lemma_candidates_in_range(health, Some(v.drop_last()));
                assert forall|j: int| 0 <= j < all.len() implies (#[trigger] all[j]) < health.len() by {
                    if j < rest.len() {
                        assert(all[j] == rest[j]);
                    }
                }
            }
        },
        None => {
            lemma_healthy_prefix_in_range(health, health.len() as int);
        },
    }
}

proof fn lemma_healthy_prefix_in_range(health: Seq<ServerHealth>, n: int)
    requires
        n <= health.len(),
        n <= usize::MAX,
    ensures
        forall|j: int|
            0 <= j < healthy_prefix(health, n).len() ==> (#[trigger] healthy_prefix(health, n)[j]) < n,
    decreases n,
{
    if n > 0 {
        lemma_healthy_prefix_in_range(health, n - 1);
        let rest = healthy_prefix(health, n - 1);
        let all = healthy_prefix(health, n);
        assert forall|j: int| 0 <= j < all.len() implies (#[trigger] all[j]) < n by {
            if j < rest.len() {
                assert(all[j] == rest[j]);
            }
        }
    }
}

/// The candidate servers for a request.
pub fn candidates(health: &Vec<ServerHealth>, recorded: Option<&Vec<usize>>) -> (r: Vec<usize>)
    ensures
        r@ == candidates_spec(health@, recorded_view(recorded)),
{
    let mut out: Vec<usize> = Vec::new();
    match recorded {
        Some(v) => {
            let mut i: usize = 0;
            while i < v.len()
                invariant
                    i <= v@.len(),
                    out@ == candidates_spec(health@, Some(v@.subrange(0, i as int))),
                decreases v@.len() - i,
            {
                assert(v@.subrange(0, i + 1).drop_last() =~= v@.subrange(0, i as int));
                let s = v[i];
                if s < health.len() && health[s].is_healthy {
                    out.push(s);
                }
                i = i + 1;
            }
            assert(v@.subrange(0, v@.len() as int) =~= v@);
        },
        None => {
            let mut i: usize = 0;
            while i < health.len()
                invariant
                    i <= health@.len(),
                    out@ == healthy_prefix(health@, i as int),
                decreases health@.len() - i,
            {
                if health[i].is_healthy {
                    out.push(i);
                }
                i = i + 1;
            }
        },
    }
    out
}

} // verus!
