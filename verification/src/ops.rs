//! The two timed operations, specified against the store model: a bulk-set
//! pass that writes every dataset entry, and a bulk-get pass that counts the
//! dataset keys the store holds. Either pass aborts at the first
//! communication failure; a failure before sub-operation `k` can be injected
//! to exercise that path without a remote service.

use vstd::prelude::*;

use crate::dataset::Dataset;
use crate::store::ModelStore;

verus! {

/// The one kind of failure an operation can meet: a store communication
/// failure, covering connection and per-key errors alike.
#[derive(Clone, Copy, Debug, PartialEq, Eq, Structural)]
pub struct StoreError;

/// The store map after the first `n` entries of `s` are written into `m`, in
/// order.
pub open spec fn spec_inserted(
    m: Map<Seq<char>, Seq<char>>,
    s: Seq<(Seq<char>, Seq<char>)>,
    n: int,
) -> Map<Seq<char>, Seq<char>>
    decreases n,
{
    if n <= 0 {
        m
    } else {
        spec_inserted(m, s, n - 1).insert(s[n - 1].0, s[n - 1].1)
    }
}

/// How many entries of `s` have their key present in `m`.
pub open spec fn spec_present_count(
    s: Seq<(Seq<char>, Seq<char>)>,
    m: Map<Seq<char>, Seq<char>>,
) -> nat
    decreases s.len(),
{
    if s.len() == 0 {
        0
    } else {
        spec_present_count(s.drop_last(), m) + if m.contains_key(s.last().0) {
            1nat
        } else {
            0nat
        }
    }
}

/// The bulk-set pass: writes every dataset entry to the store in order and
/// returns the count of writes issued, which on success equals the dataset
/// size. A communication failure injected before write `k` aborts the pass at
/// that point: the first `k` writes have landed, none after, and the failure
/// is returned with no partial count.
pub fn run_set(data: &Dataset, store: &mut ModelStore, fail_before: Option<usize>) -> (r: Result<
    usize,
    StoreError,
>)
    ensures
        match r {
            Ok(c) => {
                &&& c == data@.len()
                &&& match fail_before {
                    Some(k) => k >= data@.len(),
                    None => true,
                }
                &&& final(store)@ == spec_inserted(old(store)@, data@, data@.len() as int)
            },
            Err(_) => {
                &&& match fail_before {
                    Some(k) => k < data@.len() && final(store)@ == spec_inserted(
                        old(store)@,
                        data@,
                        k as int,
                    ),
                    None => false,
                }
            },
        },
{
    let n = data.len();
    let mut i: usize = 0;
    while i < n
        invariant
            i <= n,
            n == data@.len(),
            store@ == spec_inserted(old(store)@, data@, i as int),
            match fail_before {
                Some(k) => i <= k,
                None => true,
            },
        decreases n - i,
    {
        if let Some(k) = fail_before {
            if k == i {
                return Err(StoreError);
            }
        }
        let e = data.entry(i);
        store.set(e.0.as_str(), e.1.as_str());
        i = i + 1;
    }
    Ok(n)
}

/// The bulk-get pass: reads every dataset key in order and returns how many
/// were found present; an absent key does not count and does not fail the
/// pass. A communication failure injected before read `k` aborts the pass
/// with no partial count. The store is read, never changed.
pub fn run_get(data: &Dataset, store: &ModelStore, fail_before: Option<usize>) -> (r: Result<
    usize,
    StoreError,
>)
    ensures
        match r {
            Ok(c) => {
                &&& c == spec_present_count(data@, store@)
                &&& match fail_before {
                    Some(k) => k >= data@.len(),
                    None => true,
                }
            },
            Err(_) => match fail_before {
                Some(k) => k < data@.len(),
                None => false,
            },
        },
{
    let n = data.len();
    let mut count: usize = 0;
    let mut i: usize = 0;
    while i < n
        invariant
            i <= n,
            n == data@.len(),
            count <= i,
            count == spec_present_count(data@.subrange(0, i as int), store@),
            match fail_before {
                Some(k) => i <= k,
                None => true,
            },
        decreases n - i,
    {
        if let Some(k) = fail_before {
            if k == i {
                return Err(StoreError);
            }
        }
        let e = data.entry(i);
        let found = store.get(e.0.as_str());
        proof {
            assert(data@.subrange(0, i + 1).drop_last() =~= data@.subrange(0, i as int));
            assert(data@.subrange(0, i + 1).last() == data@[i as int]);
        }
        if found.is_some() {
            count = count + 1;
        }
        i = i + 1;
    }
    proof {
        assert(data@.subrange(0, n as int) =~= data@);
    }
    Ok(count)
}

proof fn lemma_inserted_contains(
    m: Map<Seq<char>, Seq<char>>,
    s: Seq<(Seq<char>, Seq<char>)>,
    n: int,
    i: int,
)
    requires
        0 <= i < n <= s.len(),
    ensures
        spec_inserted(m, s, n).contains_key(s[i].0),
    decreases n,
{
    if i < n - 1 {
        lemma_inserted_contains(m, s, n - 1, i);
    }
}

proof fn lemma_present_count_all(s: Seq<(Seq<char>, Seq<char>)>, m: Map<Seq<char>, Seq<char>>)
    requires
        forall|i: int| 0 <= i < s.len() ==> m.contains_key((#[trigger] s[i]).0),
    ensures
        spec_present_count(s, m) == s.len(),
    decreases s.len(),
{
    if s.len() > 0 {
        lemma_present_count_all(s.drop_last(), m);
    }
}

/// Every key a completed set pass wrote is found by a following get pass:
/// over any starting store, writing all entries and then counting the
/// present keys yields the full dataset size.
pub proof fn lemma_set_then_get_finds_all(
    m0: Map<Seq<char>, Seq<char>>,
    s: Seq<(Seq<char>, Seq<char>)>,
)
    ensures
        spec_present_count(s, spec_inserted(m0, s, s.len() as int)) == s.len(),
{
    let m = spec_inserted(m0, s, s.len() as int);
    assert forall|i: int| 0 <= i < s.len() implies m.contains_key((#[trigger] s[i]).0) by {
        lemma_inserted_contains(m0, s, s.len() as int, i);
    }
    lemma_present_count_all(s, m);
}

/// A get pass over an empty store finds nothing: with no prior set pass, the
/// present-count is zero.
pub proof fn lemma_get_on_empty_store(s: Seq<(Seq<char>, Seq<char>)>)
    ensures
        spec_present_count(s, Map::<Seq<char>, Seq<char>>::empty()) == 0,
    decreases s.len(),
{
    if s.len() > 0 {
        lemma_get_on_empty_store(s.drop_last());
    }
}

} // verus!
