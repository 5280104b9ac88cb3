//! The synthetic dataset: a deterministic list of key/value pairs, with key
//! `"key" + i` and value `"val" + i` repeated a fixed number of times.

use vstd::prelude::*;

use crate::text::{decimal_string, repeat_string, lemma_decimal_injective, spec_decimal, spec_repeat};

verus! {

/// How many times the value unit `"val" + i` is repeated to reach a
/// non-trivial payload size.
pub const VALUE_REPEAT: usize = 100;

/// The key generated for index `i`.
pub open spec fn spec_key(i: nat) -> Seq<char> {
    "key"@ + spec_decimal(i)
}

/// The value generated for index `i`.
pub open spec fn spec_value(i: nat) -> Seq<char> {
    spec_repeat("val"@ + spec_decimal(i), VALUE_REPEAT as nat)
}

/// The entries a generation pass of the given length produces: entry `i`
/// holds `spec_key(i)` and `spec_value(i)`.
pub open spec fn dataset_is_generated(s: Seq<(Seq<char>, Seq<char>)>) -> bool {
    forall|i: int|
        0 <= i < s.len() ==> (#[trigger] s[i]).0 == spec_key(i as nat) && s[i].1 == spec_value(
            i as nat,
        )
}

/// The fixed in-memory key/value collection generated once per harness run
/// and read-only afterwards.
pub struct Dataset {
    entries: Vec<(String, String)>,
}

impl View for Dataset {
    type V = Seq<(Seq<char>, Seq<char>)>;

    closed spec fn view(&self) -> Seq<(Seq<char>, Seq<char>)> {
        self.entries@.map_values(|p: (String, String)| (p.0@, p.1@))
    }
}

impl Dataset {
    /// Number of entries.
    pub fn len(&self) -> (n: usize)
        ensures
            n == self@.len(),
    {
        self.entries.len()
    }

    /// The entry at index `i`.
    pub fn entry(&self, i: usize) -> (e: &(String, String))
        requires
            i < self@.len(),
        ensures
            e.0@ == self@[i as int].0,
            e.1@ == self@[i as int].1,
    {
        &self.entries[i]
    }
}

fn make_key(i: usize) -> (k: String)
    ensures
        k@ == spec_key(i as nat),
{
    let mut k = "key".to_owned();
    let digits = decimal_string(i);
    k.append(digits.as_str());
    k
}

fn make_value(i: usize) -> (v: String)
    ensures
        v@ == spec_value(i as nat),
{
    let mut unit = "val".to_owned();
    let digits = decimal_string(i);
    unit.append(digits.as_str());
    repeat_string(unit.as_str(), VALUE_REPEAT)
}

/// Builds the dataset of size `n`: exactly `n` entries, entry `i` holding
/// `spec_key(i)` and `spec_value(i)`. A pure computation with no failure
/// modes; two generations with the same `n` yield the same entries.
pub fn generate_dataset(n: usize) -> (d: Dataset)
    ensures
        d@.len() == n,
        dataset_is_generated(d@),
{
    let mut entries: Vec<(String, String)> = Vec::new();
    let mut i: usize = 0;
    while i < n
        invariant
            i <= n,
            entries@.len() == i,
            forall|j: int|
                0 <= j < i ==> (#[trigger] entries@[j]).0@ == spec_key(j as nat)
                    && entries@[j].1@ == spec_value(j as nat),
        decreases n - i,
    {
        let key = make_key(i);
        let value = make_value(i);
        entries.push((key, value));
        i = i + 1;
    }
    Dataset { entries }
}

/// Generated keys are pairwise distinct: a generated dataset holds exactly
/// as many unique keys as it has entries.
pub proof fn lemma_generated_keys_unique(s: Seq<(Seq<char>, Seq<char>)>)
    requires
        dataset_is_generated(s),
    ensures
        forall|i: int, j: int|
            0 <= i < s.len() && 0 <= j < s.len() && i != j ==> (#[trigger] s[i]).0 != (
            #[trigger] s[j]).0,
{
    assert forall|i: int, j: int|
        0 <= i < s.len() && 0 <= j < s.len() && i != j implies (#[trigger] s[i]).0 != (
    #[trigger] s[j]).0 by {
        if s[i].0 == s[j].0 {
            lemma_key_injective(i as nat, j as nat);
        }
    }
}

/// Generation is deterministic: two generated datasets of the same length
/// are equal, entry for entry.
pub proof fn lemma_generation_deterministic(
    s1: Seq<(Seq<char>, Seq<char>)>,
    s2: Seq<(Seq<char>, Seq<char>)>,
)
    requires
        dataset_is_generated(s1),
        dataset_is_generated(s2),
        s1.len() == s2.len(),
    ensures
        s1 == s2,
{
    assert(s1 =~~= s2);
}

proof fn lemma_key_injective(a: nat, b: nat)
    requires
        spec_key(a) == spec_key(b),
    ensures
        a == b,
{
    let p = "key"@;
    assert(spec_decimal(a) =~= spec_key(a).subrange(
        p.len() as int,
        spec_key(a).len() as int,
    ));
    assert(spec_decimal(b) =~= spec_key(b).subrange(
        p.len() as int,
        spec_key(b).len() as int,
    ));
    assert(spec_key(a).len() == spec_key(b).len());
    lemma_decimal_injective(a, b);
}

} // verus!
