//! Association lists keyed by strings.
//!
//! Several components keep small string-keyed tables: the named-secret
//! configuration, the notification registry, and parameter maps. They all
//! share this verified lookup/replace machinery over `Vec<(String, V)>`.

use vstd::prelude::*;

verus! {

/// First value bound to key `k`, or `None` when `k` is absent.
pub open spec fn assoc_find<V>(s: Seq<(String, V)>, k: Seq<char>) -> Option<V>
    decreases s.len(),
{
    if s.len() == 0 {
        None
    } else if s[0].0@ == k {
        Some(s[0].1)
    } else {
        assoc_find(s.drop_first(), k)
    }
}

/// Whether key `k` is bound in `s`.
pub open spec fn assoc_has<V>(s: Seq<(String, V)>, k: Seq<char>) -> bool {
    assoc_find(s, k) is Some
}

/// Keys are pairwise distinct.
pub open spec fn assoc_unique<V>(s: Seq<(String, V)>) -> bool {
    forall|i: int, j: int| 0 <= i < j < s.len() ==> s[i].0@ != s[j].0@
}

proof fn lemma_assoc_find_skip_step<V>(s: Seq<(String, V)>, k: Seq<char>, i: int)
    requires
        0 <= i < s.len(),
        s[i].0@ != k,
    ensures
        assoc_find(s.skip(i), k) == assoc_find(s.skip(i + 1), k),
{
    assert(s.skip(i).drop_first() =~= s.skip(i + 1));
    assert(s.skip(i)[0] == s[i]);
}

/// A binding found at some index is what `assoc_find` returns, provided no
/// earlier index binds the same key.
pub proof fn lemma_assoc_find_at<V>(s: Seq<(String, V)>, k: Seq<char>, i: int)
    requires
        0 <= i < s.len(),
        s[i].0@ == k,
        forall|j: int| 0 <= j < i ==> s[j].0@ != k,
    ensures
        assoc_find(s, k) == Some(s[i].1),
    decreases i,
{
    if i == 0 {
    } else {
        assert(s.drop_first()[i - 1] == s[i]);
        assert(forall|j: int| 0 <= j < i - 1 ==> s.drop_first()[j] == s[j + 1]);
        lemma_assoc_find_at(s.drop_first(), k, i - 1);
    }
}

/// A key bound at no index is absent.
pub proof fn lemma_assoc_find_absent<V>(s: Seq<(String, V)>, k: Seq<char>)
    requires
        forall|j: int| 0 <= j < s.len() ==> s[j].0@ != k,
    ensures
        assoc_find(s, k) is None,
    decreases s.len(),
{
    if s.len() > 0 {
        assert(forall|j: int| 0 <= j < s.drop_first().len() ==> s.drop_first()[j] == s[j + 1]);
        lemma_assoc_find_absent(s.drop_first(), k);
    }
}

/// Appending a pair leaves every key other than its own unchanged and binds
/// its own key unless it was already bound.
pub proof fn lemma_assoc_find_push<V>(s: Seq<(String, V)>, p: (String, V), k: Seq<char>)
    ensures
        p.0@ != k ==> assoc_find(s.push(p), k) == assoc_find(s, k),
        p.0@ == k && assoc_find(s, k) is None ==> assoc_find(s.push(p), k) == Some(p.1),
        p.0@ == k && assoc_find(s, k) is Some ==> assoc_find(s.push(p), k) == assoc_find(s, k),
    decreases s.len(),
{
    if s.len() == 0 {
        assert(s.push(p)[0] == p);
        assert(s.push(p).drop_first() =~= Seq::<(String, V)>::empty());
        assert(assoc_find(Seq::<(String, V)>::empty(), k) is None);
        if p.0@ == k {
            assert(assoc_find(s.push(p), k) == Some(p.1));
        } else {
            assert(assoc_find(s.push(p), k) == assoc_find(s.push(p).drop_first(), k));
        }
    } else {
        assert(s.push(p)[0] == s[0]);
        assert(s.push(p).drop_first() =~= s.drop_first().push(p));
        lemma_assoc_find_push(s.drop_first(), p, k);
        if s[0].0@ == k {
            assert(assoc_find(s.push(p), k) == Some(s[0].1));
            assert(assoc_find(s, k) == Some(s[0].1));
        } else {
            assert(assoc_find(s.push(p), k) == assoc_find(s.drop_first().push(p), k));
            assert(assoc_find(s, k) == assoc_find(s.drop_first(), k));
        }
    }
}

/// Replacing the pair at an index with one carrying the same key rebinds that
/// key (when the index held its first binding) and leaves every other key
/// unchanged.
pub proof fn lemma_assoc_find_update<V>(s: Seq<(String, V)>, i: int, p: (String, V), k: Seq<char>)
    requires
        0 <= i < s.len(),
        p.0@ == s[i].0@,
        forall|j: int| 0 <= j < i ==> s[j].0@ != s[i].0@,
    ensures
        k == s[i].0@ ==> assoc_find(s.update(i, p), k) == Some(p.1),
        k != s[i].0@ ==> assoc_find(s.update(i, p), k) == assoc_find(s, k),
    decreases i,
{
    let t = s.update(i, p);
    if i == 0 {
        assert(t[0] == p);
        assert(t.drop_first() =~= s.drop_first());
    } else {
        assert(t[0] == s[0]);
        assert(t.drop_first() =~= s.drop_first().update(i - 1, p));
        assert(s.drop_first()[i - 1] == s[i]);
        assert(forall|j: int| 0 <= j < i - 1 ==> s.drop_first()[j] == s[j + 1]);
        lemma_assoc_find_update(s.drop_first(), i - 1, p, k);
    }
}

/// Look a key up, returning a reference to its first bound value.
pub fn assoc_get<'a, V>(v: &'a Vec<(String, V)>, key: &String) -> (r: Option<&'a V>)
    ensures
        match r {
            Some(x) => assoc_find(v@, key@) == Some(*x),
            None => assoc_find(v@, key@) is None,
        },
{
    let n = v.len();
    assert(v@.skip(0) =~= v@);
    for i in 0..n
        invariant
            n == v@.len(),
            assoc_find(v@, key@) == assoc_find(v@.skip(i as int), key@),
            forall|j: int| 0 <= j < i ==> v@[j].0@ != key@,
    {
        assert(v@.skip(i as int)[0] == v@[i as int]);
        if v[i].0 == *key {
            proof {
                lemma_assoc_find_at(v@, key@, i as int);
            }
            return Some(&v[i].1);
        }
        proof {
            lemma_assoc_find_skip_step(v@, key@, i as int);
        }
    }
    proof {
        lemma_assoc_find_absent(v@, key@);
    }
    None
}

/// Bind `key` to `value`: replace the first binding of `key`, or append a new
/// one. Keeps keys pairwise distinct when they were.
pub fn assoc_set<V>(v: &mut Vec<(String, V)>, key: String, value: V)
    ensures
        assoc_find(final(v)@, key@) == Some(value),
        forall|k2: Seq<char>| k2 != key@ ==> assoc_find(final(v)@, k2) == assoc_find(old(v)@, k2),
        assoc_unique(old(v)@) ==> assoc_unique(final(v)@),
        assoc_has(old(v)@, key@) ==> final(v)@.len() == old(v)@.len(),
        !assoc_has(old(v)@, key@) ==> final(v)@ == old(v)@.push((key, value)),
{
    let n = v.len();
    for i in 0..n
        invariant
            n == v@.len(),
            v@ == old(v)@,
            forall|j: int| 0 <= j < i ==> v@[j].0@ != key@,
    {
        if v[i].0 == key {
            let ghost s = v@;
            let ghost kview = key@;
            let ghost p = (key, value);
            v.set(i, (key, value));
            proof {
                assert(v@ =~= s.update(i as int, p));
                lemma_assoc_find_update(s, i as int, p, kview);
                assert forall|k2: Seq<char>| k2 != kview implies assoc_find(v@, k2) == assoc_find(
                    s,
                    k2,
                ) by {
                    lemma_assoc_find_update(s, i as int, p, k2);
                }
                lemma_assoc_find_at(s, kview, i as int);
                if assoc_unique(s) {
                    assert forall|a: int, b: int|
                        0 <= a < b < v@.len() implies v@[a].0@ != v@[b].0@ by {
                        assert(v@[a].0@ == s[a].0@ && v@[b].0@ == s[b].0@);
                    }
                }
            }
            return ;
        }
    }
    let ghost s = v@;
    proof {
        lemma_assoc_find_absent(s, key@);
    }
    let ghost p = (key, value);
    v.push((key, value));
    proof {
        assert(v@ =~= s.push(p));
        lemma_assoc_find_push(s, p, p.0@);
        assert forall|k2: Seq<char>| k2 != p.0@ implies assoc_find(v@, k2) == assoc_find(
            s,
            k2,
        ) by {
            lemma_assoc_find_push(s, p, k2);
        }
        if assoc_unique(s) {
            assert forall|a: int, b: int| 0 <= a < b < v@.len() implies v@[a].0@ != v@[b].0@ by {
                if b < s.len() {
                    assert(v@[a] == s[a] && v@[b] == s[b]);
                } else {
                    assert(v@[a] == s[a] && v@[b] == p);
                    if s[a].0@ == p.0@ {
                        lemma_assoc_find_at(s, p.0@, a);
                    }
                }
            }
        }
    }
}

} // verus!
