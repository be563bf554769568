//! Lists of named entries: the first entry under a name is the one that
//! counts, and inserting under a name replaces that entry.
use vstd::prelude::*;

verus! {

/// The item of the first entry named `key`.
pub open spec fn first_match<T>(s: Seq<(String, T)>, key: Seq<char>) -> Option<T>
    decreases s.len(),
{
    if s.len() == 0 {
        None
    } else if s[0].0@ == key {
        Some(s[0].1)
    } else {
        first_match(s.drop_first(), key)
    }
}

/// The names of the entries, in order.
pub open spec fn entry_names<T>(s: Seq<(String, T)>) -> Seq<Seq<char>> {
    Seq::new(s.len(), |i: int| s[i].0@)
}

/// `i` is the first entry named `key`.
pub open spec fn is_first_index<T>(s: Seq<(String, T)>, key: Seq<char>, i: int) -> bool {
    &&& 0 <= i < s.len()
    &&& s[i].0@ == key
    &&& forall|j: int| 0 <= j < i ==> (#[trigger] s[j]).0@ != key
}

pub proof fn lemma_first_match_at<T>(s: Seq<(String, T)>, key: Seq<char>, i: int)
    requires
        is_first_index(s, key, i),
    ensures
        first_match(s, key) == Some(s[i].1),
    decreases s.len(),
{
    if i > 0 {
        assert(s[0].0@ != key);
        let t = s.drop_first();
        assert forall|j: int| 0 <= j < i - 1 implies (#[trigger] t[j]).0@ != key by {
            assert(t[j] == s[j + 1]);
        }
        lemma_first_match_at(t, key, i - 1);
    }
}

pub proof fn lemma_first_match_none<T>(s: Seq<(String, T)>, key: Seq<char>)
    requires
        forall|j: int| 0 <= j < s.len() ==> (#[trigger] s[j]).0@ != key,
    ensures
        first_match(s, key) is None,
    decreases s.len(),
{
    if s.len() > 0 {
        let t = s.drop_first();
        assert forall|j: int| 0 <= j < t.len() implies (#[trigger] t[j]).0@ != key by {
            assert(t[j] == s[j + 1]);
        }
        lemma_first_match_none(t, key);
    }
}

/// Replacing the first entry named `key` changes what `key` finds and
/// nothing else.
pub proof fn lemma_first_match_update<T>(s: Seq<(String, T)>, key: Seq<char>, i: int, e: (String, T))
    requires
        is_first_index(s, key, i),
        e.0@ == key,
    ensures
        forall|k: Seq<char>| #[trigger] first_match(s.update(i, e), k) == if k == key {
            Some(e.1)
        } else {
            first_match(s, k)
        },
    decreases s.len(),
{
    let u = s.update(i, e);
    assert forall|k: Seq<char>| #[trigger] first_match(u, k) == if k == key {
        Some(e.1)
    } else {
        first_match(s, k)
    } by {
        if k == key {
            assert forall|j: int| 0 <= j < i implies (#[trigger] u[j]).0@ != key by {
                assert(u[j] == s[j]);
            }
            lemma_first_match_at(u, key, i);
        } else {
            lemma_first_match_other(s, key, i, e, k);
        }
    }
}

proof fn lemma_first_match_other<T>(
    s: Seq<(String, T)>,
    key: Seq<char>,
    i: int,
    e: (String, T),
    k: Seq<char>,
)
    requires
        0 <= i < s.len(),
        s[i].0@ == key,
        e.0@ == key,
        k != key,
    ensures
        first_match(s.update(i, e), k) == first_match(s, k),
    decreases s.len(),
{
    let u = s.update(i, e);
    if i == 0 {
        assert(u.drop_first() =~= s.drop_first());
    } else {
        assert(u[0] == s[0]);
        if s[0].0@ != k {
            assert(u.drop_first() =~= s.drop_first().update(i - 1, e));
            lemma_first_match_other(s.drop_first(), key, i - 1, e, k);
        }
    }
}

/// Replacing the item of the first entry named `key`, whatever the new
/// item, changes what `key` finds and nothing else.
pub proof fn lemma_first_match_replace_item<T>(s: Seq<(String, T)>, key: Seq<char>, i: int)
    requires
        is_first_index(s, key, i),
    ensures
        forall|v: T, k: Seq<char>| #[trigger] first_match(s.update(i, (s[i].0, v)), k) == if k == key {
            Some(v)
        } else {
            first_match(s, k)
        },
{
    assert forall|v: T, k: Seq<char>| #[trigger] first_match(s.update(i, (s[i].0, v)), k) == if k == key {
        Some(v)
    } else {
        first_match(s, k)
    } by {
        lemma_first_match_update(s, key, i, (s[i].0, v));
    }
}

/// Appending an entry under a name not present makes that name find it and
/// changes nothing else.
pub proof fn lemma_first_match_push<T>(s: Seq<(String, T)>, e: (String, T))
    requires
        forall|j: int| 0 <= j < s.len() ==> (#[trigger] s[j]).0@ != e.0@,
    ensures
        forall|k: Seq<char>| #[trigger] first_match(s.push(e), k) == if k == e.0@ {
            Some(e.1)
        } else {
            first_match(s, k)
        },
    decreases s.len(),
{
    let u = s.push(e);
    assert forall|k: Seq<char>| #[trigger] first_match(u, k) == if k == e.0@ {
        Some(e.1)
    } else {
        first_match(s, k)
    } by {
        if k == e.0@ {
            assert forall|j: int| 0 <= j < s.len() implies (#[trigger] u[j]).0@ != k by {
                assert(u[j] == s[j]);
            }
            lemma_first_match_at(u, k, s.len() as int);
        } else {
            lemma_first_match_push_other(s, e, k);
        }
    }
}

proof fn lemma_first_match_push_other<T>(s: Seq<(String, T)>, e: (String, T), k: Seq<char>)
    requires
        k != e.0@,
    ensures
        first_match(s.push(e), k) == first_match(s, k),
    decreases s.len(),
{
    let u = s.push(e);
    if s.len() == 0 {
        assert(u.drop_first() =~= Seq::<(String, T)>::empty());
    } else {
        assert(u[0] == s[0]);
        assert(u.drop_first() =~= s.drop_first().push(e));
        lemma_first_match_push_other(s.drop_first(), e, k);
    }
}

/// The index of the first entry named `key`.
pub fn find_key<T>(s: &Vec<(String, T)>, key: &str) -> (r: Option<usize>)
    ensures
        r matches Some(i) ==> is_first_index(s@, key@, i as int),
        r is None ==> forall|j: int| 0 <= j < s@.len() ==> (#[trigger] s@[j]).0@ != key@,
        r matches Some(i) ==> first_match(s@, key@) == Some(s@[i as int].1),
        r is None ==> first_match(s@, key@) is None,
{
    let mut i: usize = 0;
    while i < s.len()
        invariant
            i <= s@.len(),
            forall|j: int| 0 <= j < i ==> (#[trigger] s@[j]).0@ != key@,
        decreases s@.len() - i,
    {
        if crate::text::same_text(s[i].0.as_str(), key) {
            proof {
                lemma_first_match_at(s@, key@, i as int);
            }
            return Some(i);
        }
        i = i + 1;
    }
    proof {
        lemma_first_match_none(s@, key@);
    }
    None
}

} // verus!
