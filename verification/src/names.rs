//! Lists of named values.
//!
//! A collection names its vectors. Wherever values are kept by vector name
//! they are held as a list of `(name, value)` pairs in which no name occurs
//! twice; the functions here look such a list up and check that invariant.

use vstd::prelude::*;

verus! {

/// A list of named values as mathematics sees it: each name is the sequence
/// of its characters.
pub type Named<V> = Seq<(Seq<char>, V)>;

/// The model of a list of named values.
pub open spec fn named<V>(entries: Seq<(String, V)>) -> Named<V> {
    entries.map_values(|entry: (String, V)| (entry.0@, entry.1))
}

/// No two entries carry the same name.
pub open spec fn names_distinct<V>(entries: Named<V>) -> bool {
    forall|i: int, j: int| 0 <= i < j < entries.len() ==> entries[i].0 != entries[j].0
}

/// The value of the first entry that carries `name`.
pub open spec fn lookup<V>(entries: Named<V>, name: Seq<char>) -> Option<V>
    decreases entries.len(),
{
    if entries.len() == 0 {
        None
    } else if entries[0].0 == name {
        Some(entries[0].1)
    } else {
        lookup(entries.drop_first(), name)
    }
}

/// Looks `name` up in `entries`.
pub fn get_by_name<'a, V>(entries: &'a Vec<(String, V)>, name: &str) -> (found: Option<&'a V>)
    ensures
        match found {
            Some(value) => lookup(named(entries@), name@) == Some(*value),
            None => lookup(named(entries@), name@) is None,
        },
{
    let wanted = name.to_owned();
    let mut i: usize = 0;
    assert(named(entries@).skip(0) =~= named(entries@));
    while i < entries.len()
        invariant
            i <= entries.len(),
            wanted@ == name@,
            lookup(named(entries@), name@) == lookup(named(entries@).skip(i as int), name@),
        decreases entries.len() - i,
    {
        proof {
            let model = named(entries@);
            assert(model.skip(i as int)[0] == model[i as int]);
            assert(model.skip(i as int).drop_first() =~= model.skip(i as int + 1));
        }
        if entries[i].0 == wanted {
            return Some(&entries[i].1);
        }
        i += 1;
    }
    None
}

/// A copy of `entries`.
pub fn clone_named<V: Copy>(entries: &Vec<(String, V)>) -> (copy: Vec<(String, V)>)
    ensures
        named(copy@) == named(entries@),
{
    let mut copy: Vec<(String, V)> = Vec::new();
    let mut i: usize = 0;
    while i < entries.len()
        invariant
            i <= entries.len(),
            copy@.len() == i,
            forall|k: int| 0 <= k < i ==> #[trigger] named(copy@)[k] == named(entries@)[k],
        decreases entries.len() - i,
    {
        let ghost before = copy@;
        copy.push((entries[i].0.clone(), entries[i].1));
        proof {
            assert forall|k: int| 0 <= k <= i implies #[trigger] named(copy@)[k] == named(
                entries@,
            )[k] by {
                if k < i {
                    assert(copy@[k] == before[k]);
                    assert(named(copy@)[k] == named(before)[k]);
                }
            }
        }
        i += 1;
    }
    assert(named(copy@) =~= named(entries@));
    copy
}

/// Whether no name occurs twice in `entries`.
pub fn has_distinct_names<V>(entries: &Vec<(String, V)>) -> (distinct: bool)
    ensures
        distinct == names_distinct(named(entries@)),
{
    let mut j: usize = 0;
    while j < entries.len()
        invariant
            j <= entries.len(),
            forall|a: int, b: int| 0 <= a < b < j ==> named(entries@)[a].0 != named(entries@)[b].0,
        decreases entries.len() - j,
    {
        let mut i: usize = 0;
        while i < j
            invariant
                i <= j < entries.len(),
                forall|a: int| 0 <= a < i ==> named(entries@)[a].0 != named(entries@)[j as int].0,
            decreases j - i,
        {
            if entries[i].0 == entries[j].0 {
                assert(named(entries@)[i as int].0 == named(entries@)[j as int].0);
                return false;
            }
            i += 1;
        }
        j += 1;
    }
    true
}

} // verus!
