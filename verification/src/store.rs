//! An in-memory model of the remote key-value service: the abstract store the
//! operation logic is specified and verified against. It exposes the same two
//! primitives the remote service does — `set key value` and `get key` — with
//! the view of a finite map from key to value.

use vstd::prelude::*;

verus! {

/// The map an append-only list of writes denotes: a later write to a key
/// shadows an earlier one.
pub open spec fn spec_writes_map(s: Seq<(String, String)>) -> Map<Seq<char>, Seq<char>>
    decreases s.len(),
{
    if s.len() == 0 {
        Map::empty()
    } else {
        spec_writes_map(s.drop_last()).insert(s.last().0@, s.last().1@)
    }
}

/// In-memory key-value store holding every write issued so far; its view is
/// the map the writes denote.
pub struct ModelStore {
    writes: Vec<(String, String)>,
}

impl View for ModelStore {
    type V = Map<Seq<char>, Seq<char>>;

    closed spec fn view(&self) -> Map<Seq<char>, Seq<char>> {
        spec_writes_map(self.writes@)
    }
}

impl ModelStore {
    /// A store with nothing in it.
    pub fn new() -> (s: ModelStore)
        ensures
            s@ == Map::<Seq<char>, Seq<char>>::empty(),
    {
        let s = ModelStore { writes: Vec::new() };
        proof {
            assert(s@ =~= Map::<Seq<char>, Seq<char>>::empty());
        }
        s
    }

    /// Stores `value` under `key`, overwriting any prior value.
    pub fn set(&mut self, key: &str, value: &str)
        ensures
            final(self)@ == old(self)@.insert(key@, value@),
    {
        self.writes.push((String::from_str(key), String::from_str(value)));
        proof {
            assert(self.writes@.drop_last() =~= old(self).writes@);
            assert(self@ =~= old(self)@.insert(key@, value@));
        }
    }

    /// Looks `key` up: the stored value, or `None` when the key is absent.
    pub fn get(&self, key: &str) -> (r: Option<&String>)
        ensures
            match r {
                Some(v) => self@.contains_key(key@) && v@ == self@[key@],
                None => !self@.contains_key(key@),
            },
    {
        let k = String::from_str(key);
        let mut i = self.writes.len();
        while i > 0
            invariant
                i <= self.writes@.len(),
                k@ == key@,
                forall|j: int| i <= j < self.writes@.len() ==> (#[trigger] self.writes@[j]).0@ != key@,
            decreases i,
        {
            i = i - 1;
            if self.writes[i].0 == k {
                proof {
                    lemma_writes_map_found(self.writes@, i as int, key@);
                }
                return Some(&self.writes[i].1);
            }
        }
        proof {
            lemma_writes_map_absent(self.writes@, key@);
        }
        None
    }
}

proof fn lemma_writes_map_found(s: Seq<(String, String)>, i: int, k: Seq<char>)
    requires
        0 <= i < s.len(),
        s[i].0@ == k,
        forall|j: int| i < j < s.len() ==> (#[trigger] s[j]).0@ != k,
    ensures
        spec_writes_map(s).contains_key(k),
        spec_writes_map(s)[k] == s[i].1@,
    decreases s.len(),
{
    if i == s.len() - 1 {
    } else {
        assert(s.last().0@ != k);
        lemma_writes_map_found(s.drop_last(), i, k);
    }
}

proof fn lemma_writes_map_absent(s: Seq<(String, String)>, k: Seq<char>)
    requires
        forall|j: int| 0 <= j < s.len() ==> (#[trigger] s[j]).0@ != k,
    ensures
        !spec_writes_map(s).contains_key(k),
    decreases s.len(),
{
    if s.len() > 0 {
        lemma_writes_map_absent(s.drop_last(), k);
    }
}

} // verus!
