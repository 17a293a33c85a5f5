//! Deduplication of articles against the keys already recorded as notified.

use vstd::prelude::*;
use crate::text::views;
use crate::domain::key_of;

verus! {

/// The keys of `keys` that are not in `marked`, in their order, repeats kept.
pub open spec fn unnotified(keys: Seq<Seq<char>>, marked: Set<Seq<char>>) -> Seq<Seq<char>>
    decreases keys.len(),
{
    if keys.len() == 0 {
        Seq::empty()
    } else {
        let rest = unnotified(keys.drop_last(), marked);
        if marked.contains(keys.last()) { rest } else { rest.push(keys.last()) }
    }
}

/// Whether `v` holds a string equal to `k`.
pub fn holds_string(v: &Vec<String>, k: &String) -> (r: bool)
    ensures
        r == views(v@).contains(k@),
{
    let mut i: usize = 0;
    while i < v.len()
        invariant
            i <= v@.len(),
            forall|j: int| 0 <= j < i ==> v@[j]@ != k@,
        decreases v@.len() - i,
    {
        if v[i] == *k {
            assert(views(v@)[i as int] == k@);
            return true;
        }
        i = i + 1;
    }
    assert forall|j: int| 0 <= j < views(v@).len() implies views(v@)[j] != k@ by {
        assert(v@[j]@ != k@);
    }
    false
}

/// The keys of `cache_keys` that are not among `notified`, in their order:
/// what remains to be delivered once the store has said which keys it holds.
pub fn filter_unnotified(cache_keys: &Vec<String>, notified: &Vec<String>) -> (r: Vec<String>)
    ensures
        views(r@) == unnotified(views(cache_keys@), views(notified@).to_set()),
{
    let ghost marked = views(notified@).to_set();
    let mut r: Vec<String> = Vec::new();
    let mut i: usize = 0;
    while i < cache_keys.len()
        invariant
            i <= cache_keys@.len(),
            marked == views(notified@).to_set(),
            views(r@) == unnotified(views(cache_keys@.subrange(0, i as int)), marked),
        decreases cache_keys@.len() - i,
    {
        let k = &cache_keys[i];
        let seen = holds_string(notified, k);
        proof {
            let pre = views(cache_keys@.subrange(0, i + 1));
            assert(pre.drop_last() =~= views(cache_keys@.subrange(0, i as int)));
            assert(pre.last() == k@);
        }
        if !seen {
            let c = k.clone();
            r.push(c);
            proof {
                assert(views(r@) =~= views(r@.drop_last()).push(c@));
            }
        }
        i = i + 1;
    }
    assert(cache_keys@.subrange(0, cache_keys@.len() as int) =~= cache_keys@);
    r
}

proof fn lemma_unnotified_members(keys: Seq<Seq<char>>, marked: Set<Seq<char>>, k: Seq<char>)
    ensures
        unnotified(keys, marked).contains(k) <==> (keys.contains(k) && !marked.contains(k)),
    decreases keys.len(),
{
    if keys.len() > 0 {
        lemma_unnotified_members(keys.drop_last(), marked, k);
        assert(keys =~= keys.drop_last().push(keys.last()));
        if keys.drop_last().contains(k) {
            let j = choose|j: int| 0 <= j < keys.drop_last().len() && keys.drop_last()[j] == k;
            assert(keys[j] == k);
        }
        if keys.contains(k) && k != keys.last() {
            let j = choose|j: int| 0 <= j < keys.len() && keys[j] == k;
            assert(keys.drop_last()[j] == k);
        }
        if keys.contains(k) && k == keys.last() {
        }
        let rest = unnotified(keys.drop_last(), marked);
        if !marked.contains(keys.last()) {
            assert(rest.push(keys.last())[rest.len() as int] == keys.last());
            if rest.contains(k) {
                let j = choose|j: int| 0 <= j < rest.len() && rest[j] == k;
                assert(rest.push(keys.last())[j] == k);
            }
            if rest.push(keys.last()).contains(k) && k != keys.last() {
                let j = choose|j: int| 0 <= j < rest.len() + 1 && rest.push(keys.last())[j] == k;
                assert(rest[j] == k);
            }
        }
        if keys.last() == k {
            assert(keys[keys.len() - 1] == k);
        }
    }
}

proof fn lemma_unnotified_marked_twice(keys: Seq<Seq<char>>, marked: Set<Seq<char>>, k: Seq<char>)
    ensures
        unnotified(keys, marked.insert(k).insert(k)) == unnotified(keys, marked.insert(k)),
{
    assert(marked.insert(k).insert(k) =~= marked.insert(k));
}

/// The store's query returns exactly the queried keys that were never marked,
/// a key that was marked is never returned again, and marking a key a second
/// time changes nothing.
pub proof fn lemma_dedup_store(keys: Seq<Seq<char>>, marked: Set<Seq<char>>, k: Seq<char>)
    ensures
        forall|x: Seq<char>| #[trigger] unnotified(keys, marked).contains(x)
            <==> keys.contains(x) && !marked.contains(x),
        !unnotified(keys, marked.insert(k)).contains(k),
        unnotified(keys, marked.insert(k).insert(k)) == unnotified(keys, marked.insert(k)),
{
    assert forall|x: Seq<char>| #[trigger] unnotified(keys, marked).contains(x)
        <==> keys.contains(x) && !marked.contains(x) by {
        lemma_unnotified_members(keys, marked, x);
    }
    lemma_unnotified_members(keys, marked.insert(k), k);
    lemma_unnotified_marked_twice(keys, marked, k);
}

/// The cache key is a function of the feed title and the article id; a
/// feed's title change changes the key of every one of its articles; and two
/// (title, id) pairs whose titles hold no colon share a key only when they are
/// equal.
pub proof fn lemma_cache_key(t1: Seq<char>, i1: Seq<char>, t2: Seq<char>, i2: Seq<char>)
    ensures
        (t1 == t2 && i1 == i2) ==> key_of(t1, i1) == key_of(t2, i2),
        t1 != t2 ==> key_of(t1, i1) != key_of(t2, i1),
        (!t1.contains(':') && !t2.contains(':') && key_of(t1, i1) == key_of(t2, i2))
            ==> (t1 == t2 && i1 == i2),
{
    reveal_strlit(":");
    if t1 != t2 && key_of(t1, i1) == key_of(t2, i1) {
        assert(t1.len() == t2.len());
        assert(t1 =~= key_of(t1, i1).subrange(0, t1.len() as int));
        assert(t2 =~= key_of(t2, i1).subrange(0, t2.len() as int));
    }
    if !t1.contains(':') && !t2.contains(':') && key_of(t1, i1) == key_of(t2, i2) {
        let k = key_of(t1, i1);
        assert(k[t1.len() as int] == ':');
        assert(key_of(t2, i2)[t2.len() as int] == ':');
        if t1.len() < t2.len() {
            assert(t2[t1.len() as int] == k[t1.len() as int]);
        }
        if t2.len() < t1.len() {
            assert(t1[t2.len() as int] == k[t2.len() as int]);
        }
        assert(t1.len() == t2.len());
        assert(t1 =~= k.subrange(0, t1.len() as int));
        assert(t2 =~= k.subrange(0, t2.len() as int));
        assert(i1 =~= k.subrange(t1.len() as int + 1, k.len() as int));
        assert(i2 =~= k.subrange(t2.len() as int + 1, k.len() as int));
    }
}

} // verus!
