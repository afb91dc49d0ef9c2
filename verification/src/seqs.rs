//! Sequences without repetition: first occurrences, and records that are
//! kept once for each key.

use vstd::prelude::*;

verus! {

/// The sequence with `x` at its end unless it holds `x` already.
pub open spec fn pushed_new<T>(s: Seq<T>, x: T) -> Seq<T> {
    if s.contains(x) {
        s
    } else {
        s.push(x)
    }
}

/// The distinct elements of a sequence in the order of their first
/// occurrence.
pub open spec fn first_occurrences<T>(s: Seq<T>) -> Seq<T>
    decreases s.len(),
{
    if s.len() == 0 {
        Seq::empty()
    } else {
        pushed_new(first_occurrences(s.drop_last()), s.last())
    }
}

/// The numbers below `n` in rising order.
pub open spec fn iota(n: nat) -> Seq<usize> {
    Seq::new(n, |k: int| k as usize)
}

/// The keys of a list of records.
pub open spec fn keys<T>(s: Seq<T>, key: spec_fn(T) -> Seq<char>) -> Seq<Seq<char>> {
    Seq::new(s.len(), |k: int| key(s[k]))
}

/// The records of a list without those whose key an earlier record bears:
/// of the records of one key the first stays, in its place.
pub open spec fn distinct_by<T>(s: Seq<T>, key: spec_fn(T) -> Seq<char>) -> Seq<T>
    decreases s.len(),
{
    if s.len() == 0 {
        Seq::empty()
    } else {
        let head = distinct_by(s.drop_last(), key);
        if keys(head, key).contains(key(s.last())) {
            head
        } else {
            head.push(s.last())
        }
    }
}

/// The first occurrences of a sequence hold what the sequence holds, each
/// element once.
pub proof fn lemma_first_occurrences<T>(s: Seq<T>)
    ensures
        first_occurrences(s).no_duplicates(),
        forall|x: T| first_occurrences(s).contains(x) <==> s.contains(x),
    decreases s.len(),
{
    if s.len() > 0 {
        let head = s.drop_last();
        lemma_first_occurrences(head);
        let f = first_occurrences(head);
        let r = first_occurrences(s);
        assert(head.len() == s.len() - 1);
        assert forall|x: T| r.contains(x) <==> s.contains(x) by {
            if s.contains(x) {
                let i = choose|i: int| 0 <= i < s.len() && s[i] == x;
                if i < s.len() - 1 {
                    assert(head[i] == x);
                    assert(head.contains(x));
                    assert(f.contains(x));
                    let j = choose|j: int| 0 <= j < f.len() && f[j] == x;
                    assert(r[j] == x);
                } else {
                    assert(s.last() == x);
                    if f.contains(x) {
                    } else {
                        assert(r[f.len() as int] == x);
                    }
                }
                assert(r.contains(x));
            }
            if r.contains(x) {
                let j = choose|j: int| 0 <= j < r.len() && r[j] == x;
                if j < f.len() {
                    assert(f[j] == x);
                    assert(f.contains(x));
                    assert(head.contains(x));
                    let i = choose|i: int| 0 <= i < head.len() && head[i] == x;
                    assert(s[i] == x);
                } else {
                    assert(s[s.len() - 1] == x);
                }
                assert(s.contains(x));
            }
        }
    }
}

/// The first occurrences of a sequence with one more element.
pub proof fn lemma_first_occurrences_push<T>(s: Seq<T>, x: T)
    ensures
        first_occurrences(s.push(x)) == pushed_new(first_occurrences(s), x),
{
    assert(s.push(x).drop_last() =~= s);
    assert(s.push(x).last() == x);
}

/// What the numbers below `n` hold, and how they grow.
pub proof fn lemma_iota(n: nat)
    requires
        n <= usize::MAX,
    ensures
        forall|x: usize| iota(n).contains(x) <==> x < n,
        iota(n).push(n as usize) == iota(n + 1),
{
    assert forall|x: usize| iota(n).contains(x) <==> x < n by {
        if x < n {
            assert(iota(n)[x as int] == x);
        }
    }
    assert(iota(n).push(n as usize) =~= iota(n + 1));
}

/// In a sequence without repetition, the index of an element is the only
/// place where it stands.
pub proof fn lemma_index_of_unique<T>(s: Seq<T>, at: int)
    requires
        s.no_duplicates(),
        0 <= at < s.len(),
    ensures
        s.index_of(s[at]) == at,
{
    let found = s.index_of(s[at]);
    assert(0 <= found < s.len() && s[found] == s[at]);
}

/// After the removal of repeated keys every key of the list occurs exactly
/// once: the keys are distinct, and they are the keys of the list.
pub proof fn lemma_distinct_keys<T>(s: Seq<T>, key: spec_fn(T) -> Seq<char>)
    ensures
        keys(distinct_by(s, key), key).no_duplicates(),
        forall|x: Seq<char>|
            #![trigger keys(distinct_by(s, key), key).contains(x)]
            #![trigger keys(s, key).contains(x)]
            keys(distinct_by(s, key), key).contains(x) <==> keys(s, key).contains(x),
    decreases s.len(),
{
    if s.len() > 0 {
        let head = s.drop_last();
        let last = s.last();
        let top = s.len() - 1;
        let d = distinct_by(s, key);
        let dh = distinct_by(head, key);
        lemma_distinct_keys(head, key);
        let kd = keys(d, key);
        let kh = keys(dh, key);
        let ks = keys(s, key);
        let kp = keys(head, key);
        assert(kp =~= ks.drop_last());
        if kh.contains(key(last)) {
            assert(d == dh);
        } else {
            assert(kd =~= kh.push(key(last)));
            assert forall|i: int, j: int| 0 <= i < kd.len() && 0 <= j < kd.len() && i != j implies kd[i]
                != kd[j] by {
                if i < kh.len() && j < kh.len() {
                    assert(kh[i] != kh[j]);
                } else if i < kh.len() {
                    assert(kh[i] == kd[i]);
                } else {
                    assert(kh[j] == kd[j]);
                }
            }
        }
        assert forall|x: Seq<char>| kd.contains(x) <==> ks.contains(x) by {
            if kd.contains(x) {
                let i = choose|i: int| 0 <= i < kd.len() && kd[i] == x;
                if i < kh.len() {
                    assert(kh[i] == x);
                    assert(kh.contains(x));
                    assert(kp.contains(x));
                    let m = choose|m: int| 0 <= m < kp.len() && kp[m] == x;
                    assert(ks[m] == x);
                } else {
                    assert(ks[top] == x);
                }
            }
            if ks.contains(x) {
                let m = choose|m: int| 0 <= m < ks.len() && ks[m] == x;
                if m < top {
                    assert(kp[m] == x);
                    assert(kp.contains(x));
                    assert(kh.contains(x));
                    let i = choose|i: int| 0 <= i < kh.len() && kh[i] == x;
                    assert(kd[i] == x);
                } else if kh.contains(x) {
                    let i = choose|i: int| 0 <= i < kh.len() && kh[i] == x;
                    assert(kd[i] == x);
                } else {
                    assert(kd[kd.len() - 1] == x);
                }
            }
        }
    }
}

/// What stays after the removal of repeated keys is of the list.
pub proof fn lemma_distinct_members<T>(s: Seq<T>, key: spec_fn(T) -> Seq<char>)
    ensures
        forall|i: int|
            0 <= i < distinct_by(s, key).len() ==> s.contains(#[trigger] distinct_by(s, key)[i]),
    decreases s.len(),
{
    if s.len() > 0 {
        let head = s.drop_last();
        let d = distinct_by(s, key);
        let dh = distinct_by(head, key);
        lemma_distinct_members(head, key);
        assert forall|i: int| 0 <= i < d.len() implies s.contains(#[trigger] d[i]) by {
            if i < dh.len() {
                assert(d[i] == dh[i]);
                assert(head.contains(dh[i]));
                let m = choose|m: int| 0 <= m < head.len() && head[m] == dh[i];
                assert(s[m] == d[i]);
            } else {
                assert(s[s.len() - 1] == d[i]);
            }
        }
    }
}

/// The first record of the list that bears a key stays.
pub proof fn lemma_distinct_keeps_first<T>(s: Seq<T>, key: spec_fn(T) -> Seq<char>, m: int)
    requires
        0 <= m < s.len(),
        forall|e: int| 0 <= e < m ==> key(#[trigger] s[e]) != key(s[m]),
    ensures
        distinct_by(s, key).contains(s[m]),
    decreases s.len(),
{
    let head = s.drop_last();
    let top = s.len() - 1;
    let d = distinct_by(s, key);
    let dh = distinct_by(head, key);
    if m < top {
        assert(head[m] == s[m]);
        assert forall|e: int| 0 <= e < m implies key(#[trigger] head[e]) != key(head[m]) by {
            assert(head[e] == s[e]);
        }
        lemma_distinct_keeps_first(head, key, m);
        let i = choose|i: int| 0 <= i < dh.len() && dh[i] == head[m];
        assert(d[i] == s[m]);
    } else {
        lemma_distinct_keys(head, key);
        let kh = keys(dh, key);
        let kp = keys(head, key);
        if kh.contains(key(s[m])) {
            assert(kp.contains(key(s[m])));
            let e = choose|e: int| 0 <= e < kp.len() && kp[e] == key(s[m]);
            assert(key(s[e]) == key(s[m]));
        }
        assert(d[d.len() - 1] == s[m]);
    }
}

/// A list whose keys are distinct loses nothing.
pub proof fn lemma_distinct_of_distinct<T>(s: Seq<T>, key: spec_fn(T) -> Seq<char>)
    requires
        keys(s, key).no_duplicates(),
    ensures
        distinct_by(s, key) == s,
    decreases s.len(),
{
    if s.len() > 0 {
        let head = s.drop_last();
        let ks = keys(s, key);
        assert forall|i: int, j: int|
            0 <= i < head.len() && 0 <= j < head.len() && i != j implies keys(head, key)[i] != keys(
            head,
            key,
        )[j] by {
            assert(ks[i] != ks[j]);
        }
        lemma_distinct_of_distinct(head, key);
        if keys(head, key).contains(key(s.last())) {
            let e = choose|e: int| 0 <= e < head.len() && keys(head, key)[e] == key(s.last());
            assert(ks[e] == ks[s.len() - 1]);
        }
        assert(distinct_by(s, key) =~= s);
    } else {
        assert(distinct_by(s, key) =~= s);
    }
}

/// Removing repeated keys a second time removes nothing more.
pub proof fn lemma_distinct_is_idempotent<T>(s: Seq<T>, key: spec_fn(T) -> Seq<char>)
    ensures
        distinct_by(distinct_by(s, key), key) == distinct_by(s, key),
{
    lemma_distinct_keys(s, key);
    lemma_distinct_of_distinct(distinct_by(s, key), key);
}

} // verus!
