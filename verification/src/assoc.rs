use vstd::prelude::*;

use crate::ids::str_eq;

verus! {

/// First value stored under a key in an ordered association list. Newer
/// entries are pushed to the front, so the first match is the current one.
pub open spec fn spec_assoc<T>(s: Seq<(String, T)>, key: Seq<char>) -> Option<T>
    decreases s.len(),
{
    if s.len() == 0 {
        None
    } else if s[0].0@ == key {
        Some(s[0].1)
    } else {
        spec_assoc(s.drop_first(), key)
    }
}

pub proof fn lemma_assoc_found<T>(s: Seq<(String, T)>, key: Seq<char>, i: int)
    requires
        0 <= i < s.len(),
        s[i].0@ == key,
        forall|j: int| 0 <= j < i ==> s[j].0@ != key,
    ensures
        spec_assoc(s, key) == Some(s[i].1),
    decreases i,
{
    if i > 0 {
        lemma_assoc_found(s.drop_first(), key, i - 1);
    }
}

pub proof fn lemma_assoc_none<T>(s: Seq<(String, T)>, key: Seq<char>)
    requires
        forall|j: int| 0 <= j < s.len() ==> (#[trigger] s[j]).0@ != key,
    ensures
        spec_assoc(s, key) is None,
    decreases s.len(),
{
    if s.len() > 0 {
        lemma_assoc_none(s.drop_first(), key);
    }
}

/// Looks a key up in an association list; the first match wins.
pub fn assoc_get<'a, T>(pairs: &'a Vec<(String, T)>, key: &str) -> (r: Option<&'a T>)
    ensures
        match r {
            Some(v) => spec_assoc(pairs@, key@) == Some(*v) && exists|i: int|
                0 <= i < pairs@.len() && (#[trigger] pairs@[i]).1 == *v,
            None => spec_assoc(pairs@, key@) is None,
        },
{
    let mut i: usize = 0;
    while i < pairs.len()
        invariant
            i <= pairs.len(),
            forall|j: int| 0 <= j < i ==> (#[trigger] pairs@[j]).0@ != key@,
        decreases pairs.len() - i,
    {
        if str_eq(pairs[i].0.as_str(), key) {
            proof {
                lemma_assoc_found(pairs@, key@, i as int);
            }
            return Some(&pairs[i].1);
        }
        i += 1;
    }
    proof {
        lemma_assoc_none(pairs@, key@);
    }
    None
}

/// Whether the list holds the key at all.
pub fn assoc_contains<T>(pairs: &Vec<(String, T)>, key: &str) -> (r: bool)
    ensures
        r == (spec_assoc(pairs@, key@) is Some),
{
    match assoc_get(pairs, key) {
        Some(_) => true,
        None => false,
    }
}

} // verus!
