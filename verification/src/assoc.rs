//! Association lists used for the engine's keyed tables.
//!
//! The registry, the object-path table and the per-path instance stores are
//! vectors of key/value pairs with a first-match lookup and unique keys.
//! [`str_assoc_get`] and [`id_assoc_get`] are the mathematical lookups the
//! tables' contracts are stated over.

use vstd::prelude::*;

verus! {

/// First-match lookup in a string-keyed association list.
pub open spec fn str_assoc_get<V>(s: Seq<(String, V)>, k: Seq<char>) -> Option<V>
    decreases s.len(),
{
    if s.len() == 0 {
        None
    } else if s[0].0@ == k {
        Some(s[0].1)
    } else {
        str_assoc_get(s.drop_first(), k)
    }
}

/// No two entries share a key.
pub open spec fn str_keys_unique<V>(s: Seq<(String, V)>) -> bool {
    forall|i: int, j: int| 0 <= i < j < s.len() ==> (#[trigger] s[i].0@) != (#[trigger] s[j].0@)
}

/// The lookup returns the entry at the first index whose key matches.
pub proof fn lemma_str_assoc_get_at<V>(s: Seq<(String, V)>, k: Seq<char>, i: int)
    requires
        0 <= i < s.len(),
        forall|j: int| 0 <= j < i ==> (#[trigger] s[j].0@) != k,
        s[i].0@ == k,
    ensures
        str_assoc_get(s, k) == Some(s[i].1),
    decreases i,
{
    if i > 0 {
        assert forall|j: int| 0 <= j < i - 1 implies (#[trigger] s.drop_first()[j].0@) != k by {
            assert(s.drop_first()[j] == s[j + 1]);
        }
        assert(s.drop_first()[i - 1] == s[i]);
        lemma_str_assoc_get_at(s.drop_first(), k, i - 1);
    }
}

/// The lookup misses when no entry's key matches.
pub proof fn lemma_str_assoc_get_none<V>(s: Seq<(String, V)>, k: Seq<char>)
    requires
        forall|j: int| 0 <= j < s.len() ==> (#[trigger] s[j].0@) != k,
    ensures
        str_assoc_get(s, k) is None,
    decreases s.len(),
{
    if s.len() > 0 {
        assert forall|j: int| 0 <= j < s.drop_first().len() implies (#[trigger] s.drop_first()[j].0@)
            != k by {
            assert(s.drop_first()[j] == s[j + 1]);
        }
        lemma_str_assoc_get_none(s.drop_first(), k);
    }
}

/// Replacing the entry at `i` by one with the same key leaves every other
/// key's lookup unchanged.
pub proof fn lemma_str_assoc_update_other<V>(s: Seq<(String, V)>, i: int, p: (String, V), k2: Seq<char>)
    requires
        0 <= i < s.len(),
        s[i].0@ == p.0@,
        k2 != p.0@,
    ensures
        str_assoc_get(s.update(i, p), k2) == str_assoc_get(s, k2),
    decreases i,
{
    let t = s.update(i, p);
    if i == 0 {
        assert(t[0].0@ == s[0].0@);
        if s[0].0@ != k2 {
            assert(t.drop_first() =~= s.drop_first());
        }
    } else {
        assert(t[0] == s[0]);
        if s[0].0@ != k2 {
            assert(t.drop_first() =~= s.drop_first().update(i - 1, p));
            lemma_str_assoc_update_other(s.drop_first(), i - 1, p, k2);
        }
    }
}

/// What appending an entry does to every key's lookup: an already-bound key
/// keeps its binding; the appended key becomes bound; the rest still miss.
pub proof fn lemma_str_assoc_push<V>(s: Seq<(String, V)>, p: (String, V), k2: Seq<char>)
    ensures
        str_assoc_get(s.push(p), k2) == (if str_assoc_get(s, k2) is Some {
            str_assoc_get(s, k2)
        } else if p.0@ == k2 {
            Some(p.1)
        } else {
            None::<V>
        }),
    decreases s.len(),
{
    let t = s.push(p);
    assert(t.len() == s.len() + 1);
    if s.len() == 0 {
        assert(t[0] == p);
        assert(t.drop_first() =~= Seq::<(String, V)>::empty());
        assert(str_assoc_get(t.drop_first(), k2) is None);
        if p.0@ == k2 {
            assert(str_assoc_get(t, k2) == Some(p.1));
        } else {
            assert(str_assoc_get(t, k2) is None);
        }
    } else {
        assert(t[0] == s[0]);
        if s[0].0@ == k2 {
            assert(str_assoc_get(t, k2) == Some(t[0].1));
            assert(str_assoc_get(s, k2) == Some(s[0].1));
        } else {
            assert(t.drop_first() =~= s.drop_first().push(p));
            lemma_str_assoc_push(s.drop_first(), p, k2);
            assert(str_assoc_get(t, k2) == str_assoc_get(s.drop_first().push(p), k2));
            assert(str_assoc_get(s, k2) == str_assoc_get(s.drop_first(), k2));
        }
    }
}

/// Finds the first entry whose key is `k`, connecting the result to
/// [`str_assoc_get`].
pub fn str_assoc_find<V>(entries: &Vec<(String, V)>, k: &String) -> (r: Option<usize>)
    ensures
        match r {
            Some(i) => {
                &&& i < entries@.len()
                &&& entries@[i as int].0@ == k@
                &&& forall|j: int| 0 <= j < i ==> (#[trigger] entries@[j].0@) != k@
                &&& str_assoc_get(entries@, k@) == Some(entries@[i as int].1)
            },
            None => {
                &&& forall|j: int| 0 <= j < entries@.len() ==> (#[trigger] entries@[j].0@) != k@
                &&& str_assoc_get(entries@, k@) is None
            },
        },
{
    let n = entries.len();
    let mut i: usize = 0;
    while i < n
        invariant
            n == entries@.len(),
            i <= n,
            forall|j: int| 0 <= j < i ==> (#[trigger] entries@[j].0@) != k@,
        decreases n - i,
    {
        if entries[i].0 == *k {
            proof {
                lemma_str_assoc_get_at(entries@, k@, i as int);
            }
            return Some(i);
        }
        i += 1;
    }
    proof {
        lemma_str_assoc_get_none(entries@, k@);
    }
    None
}

/// First-match lookup in an identity-keyed association list.
pub open spec fn id_assoc_get<V>(s: Seq<(u64, V)>, k: u64) -> Option<V>
    decreases s.len(),
{
    if s.len() == 0 {
        None
    } else if s[0].0 == k {
        Some(s[0].1)
    } else {
        id_assoc_get(s.drop_first(), k)
    }
}

/// No two entries share a key.
pub open spec fn id_keys_unique<V>(s: Seq<(u64, V)>) -> bool {
    forall|i: int, j: int| 0 <= i < j < s.len() ==> (#[trigger] s[i].0) != (#[trigger] s[j].0)
}

/// The lookup returns the entry at the first index whose key matches.
pub proof fn lemma_id_assoc_get_at<V>(s: Seq<(u64, V)>, k: u64, i: int)
    requires
        0 <= i < s.len(),
        forall|j: int| 0 <= j < i ==> (#[trigger] s[j].0) != k,
        s[i].0 == k,
    ensures
        id_assoc_get(s, k) == Some(s[i].1),
    decreases i,
{
    if i > 0 {
        assert forall|j: int| 0 <= j < i - 1 implies (#[trigger] s.drop_first()[j].0) != k by {
            assert(s.drop_first()[j] == s[j + 1]);
        }
        assert(s.drop_first()[i - 1] == s[i]);
        lemma_id_assoc_get_at(s.drop_first(), k, i - 1);
    }
}

/// The lookup misses when no entry's key matches.
pub proof fn lemma_id_assoc_get_none<V>(s: Seq<(u64, V)>, k: u64)
    requires
        forall|j: int| 0 <= j < s.len() ==> (#[trigger] s[j].0) != k,
    ensures
        id_assoc_get(s, k) is None,
    decreases s.len(),
{
    if s.len() > 0 {
        assert forall|j: int| 0 <= j < s.drop_first().len() implies (#[trigger] s.drop_first()[j].0)
            != k by {
            assert(s.drop_first()[j] == s[j + 1]);
        }
        lemma_id_assoc_get_none(s.drop_first(), k);
    }
}

/// Replacing the entry at `i` by one with the same key leaves every other
/// key's lookup unchanged.
pub proof fn lemma_id_assoc_update_other<V>(s: Seq<(u64, V)>, i: int, p: (u64, V), k2: u64)
    requires
        0 <= i < s.len(),
        s[i].0 == p.0,
        k2 != p.0,
    ensures
        id_assoc_get(s.update(i, p), k2) == id_assoc_get(s, k2),
    decreases i,
{
    let t = s.update(i, p);
    if i == 0 {
        assert(t[0].0 == s[0].0);
        if s[0].0 != k2 {
            assert(t.drop_first() =~= s.drop_first());
        }
    } else {
        assert(t[0] == s[0]);
        if s[0].0 != k2 {
            assert(t.drop_first() =~= s.drop_first().update(i - 1, p));
            lemma_id_assoc_update_other(s.drop_first(), i - 1, p, k2);
        }
    }
}

/// What appending an entry does to every key's lookup.
pub proof fn lemma_id_assoc_push<V>(s: Seq<(u64, V)>, p: (u64, V), k2: u64)
    ensures
        id_assoc_get(s.push(p), k2) == (if id_assoc_get(s, k2) is Some {
            id_assoc_get(s, k2)
        } else if p.0 == k2 {
            Some(p.1)
        } else {
            None::<V>
        }),
    decreases s.len(),
{
    let t = s.push(p);
    assert(t.len() == s.len() + 1);
    if s.len() == 0 {
        assert(t[0] == p);
        assert(t.drop_first() =~= Seq::<(u64, V)>::empty());
        assert(id_assoc_get(t.drop_first(), k2) is None);
        if p.0 == k2 {
            assert(id_assoc_get(t, k2) == Some(p.1));
        } else {
            assert(id_assoc_get(t, k2) is None);
        }
    } else {
        assert(t[0] == s[0]);
        if s[0].0 == k2 {
            assert(id_assoc_get(t, k2) == Some(t[0].1));
            assert(id_assoc_get(s, k2) == Some(s[0].1));
        } else {
            assert(t.drop_first() =~= s.drop_first().push(p));
            lemma_id_assoc_push(s.drop_first(), p, k2);
            assert(id_assoc_get(t, k2) == id_assoc_get(s.drop_first().push(p), k2));
            assert(id_assoc_get(s, k2) == id_assoc_get(s.drop_first(), k2));
        }
    }
}

/// Finds the first entry whose key is `k`, connecting the result to
/// [`id_assoc_get`].
pub fn id_assoc_find<V>(entries: &Vec<(u64, V)>, k: u64) -> (r: Option<usize>)
    ensures
        match r {
            Some(i) => {
                &&& i < entries@.len()
                &&& entries@[i as int].0 == k
                &&& forall|j: int| 0 <= j < i ==> (#[trigger] entries@[j].0) != k
                &&& id_assoc_get(entries@, k) == Some(entries@[i as int].1)
            },
            None => {
                &&& forall|j: int| 0 <= j < entries@.len() ==> (#[trigger] entries@[j].0) != k
                &&& id_assoc_get(entries@, k) is None
            },
        },
{
    let n = entries.len();
    let mut i: usize = 0;
    while i < n
        invariant
            n == entries@.len(),
            i <= n,
            forall|j: int| 0 <= j < i ==> (#[trigger] entries@[j].0) != k,
        decreases n - i,
    {
        if entries[i].0 == k {
            proof {
                lemma_id_assoc_get_at(entries@, k, i as int);
            }
            return Some(i);
        }
        i += 1;
    }
    proof {
        lemma_id_assoc_get_none(entries@, k);
    }
    None
}

} // verus!
