use vstd::prelude::*;

use indexmap::IndexMap;

use crate::blueprint::AnyBlueprint;

verus! {

/// `indexmap::IndexMap`, an ordered hash map, made known to Verus as an
/// opaque type: what it holds is named by `blueprint_entries`.
#[verifier::external_type_specification]
#[verifier::external_body]
#[verifier::reject_recursive_types(K)]
#[verifier::reject_recursive_types(V)]
#[verifier::reject_recursive_types(S)]
pub struct ExIndexMap<K, V, S>(IndexMap<K, V, S>);

/// The entries of an ordered blueprint map, in their order: each key by
/// its characters, with its blueprint.
pub uninterp spec fn blueprint_entries(m: IndexMap<String, AnyBlueprint>) -> Seq<(Seq<char>, AnyBlueprint)>;

/// No key occurs twice.
pub open spec fn keys_unique(s: Seq<(Seq<char>, AnyBlueprint)>) -> bool {
    forall|i: int, j: int| 0 <= i < s.len() && 0 <= j < s.len() && i != j ==> (#[trigger] s[i]).0 != (#[trigger] s[j]).0
}

/// `IndexMap::new`: a map with no entries.
#[verifier::external_body]
pub(crate) fn bp_map_new() -> (m: IndexMap<String, AnyBlueprint>)
    ensures
        blueprint_entries(m) == Seq::<(Seq<char>, AnyBlueprint)>::empty(),
{
    IndexMap::new()
}

/// `IndexMap::len`: the number of entries.
#[verifier::external_body]
pub(crate) fn bp_map_len(m: &IndexMap<String, AnyBlueprint>) -> (n: usize)
    ensures
        n == blueprint_entries(*m).len(),
{
    m.len()
}

/// `IndexMap::clear`: removes every entry.
#[verifier::external_body]
pub(crate) fn bp_map_clear(m: &mut IndexMap<String, AnyBlueprint>)
    ensures
        blueprint_entries(*final(m)) == Seq::<(Seq<char>, AnyBlueprint)>::empty(),
{
    m.clear()
}

/// `IndexMap::get_index_of`: the position of the entry whose key equals
/// `key`, or `None` when no key does.
#[verifier::external_body]
pub(crate) fn bp_map_get_index_of(m: &IndexMap<String, AnyBlueprint>, key: &str) -> (r: Option<usize>)
    ensures
        match r {
            Some(i) => i < blueprint_entries(*m).len() && blueprint_entries(*m)[i as int].0 == key@,
            None => forall|j: int| 0 <= j < blueprint_entries(*m).len() ==> (#[trigger] blueprint_entries(*m)[j]).0 != key@,
        },
{
    m.get_index_of(key)
}

/// `IndexMap::get_index`: the key and value at a position, or `None` past
/// the end.
#[verifier::external_body]
pub(crate) fn bp_map_get_index(m: &IndexMap<String, AnyBlueprint>, i: usize) -> (r: Option<(&String, &AnyBlueprint)>)
    ensures
        i < blueprint_entries(*m).len() ==> r is Some && r.unwrap().0@ == blueprint_entries(*m)[i as int].0
            && *r.unwrap().1 == blueprint_entries(*m)[i as int].1,
        i >= blueprint_entries(*m).len() ==> r is None,
{
    m.get_index(i)
}

/// `IndexMap::insert`: an existing key keeps its place and gets the new
/// value, and the old value is returned; a new key is appended last.
#[verifier::external_body]
pub(crate) fn bp_map_insert(m: &mut IndexMap<String, AnyBlueprint>, key: String, value: AnyBlueprint) -> (r: Option<AnyBlueprint>)
    requires
        keys_unique(blueprint_entries(*old(m))),
    ensures
        forall|j: int| 0 <= j < blueprint_entries(*old(m)).len() && (#[trigger] blueprint_entries(*old(m))[j]).0 == key@ ==> {
            &&& blueprint_entries(*final(m)) == blueprint_entries(*old(m)).update(j, (key@, value))
            &&& r == Some(blueprint_entries(*old(m))[j].1)
        },
        (forall|j: int| 0 <= j < blueprint_entries(*old(m)).len() ==> (#[trigger] blueprint_entries(*old(m))[j]).0 != key@) ==> {
            &&& blueprint_entries(*final(m)) == blueprint_entries(*old(m)).push((key@, value))
            &&& r is None
        },
{
    m.insert(key, value)
}

/// `IndexMap::shift_remove`: removes the entry with the key, shifting the
/// later entries down by one, and returns its value.
#[verifier::external_body]
pub(crate) fn bp_map_shift_remove(m: &mut IndexMap<String, AnyBlueprint>, key: &str) -> (r: Option<AnyBlueprint>)
    requires
        keys_unique(blueprint_entries(*old(m))),
    ensures
        forall|j: int| 0 <= j < blueprint_entries(*old(m)).len() && (#[trigger] blueprint_entries(*old(m))[j]).0 == key@ ==> {
            &&& blueprint_entries(*final(m)) == blueprint_entries(*old(m)).remove(j)
            &&& r == Some(blueprint_entries(*old(m))[j].1)
        },
        (forall|j: int| 0 <= j < blueprint_entries(*old(m)).len() ==> (#[trigger] blueprint_entries(*old(m))[j]).0 != key@) ==> {
            &&& blueprint_entries(*final(m)) == blueprint_entries(*old(m))
            &&& r is None
        },
{
    m.shift_remove(key)
}

/// `IndexMap::swap_indices`: exchanges the entries at two positions.
#[verifier::external_body]
pub(crate) fn bp_map_swap_indices(m: &mut IndexMap<String, AnyBlueprint>, a: usize, b: usize)
    requires
        a < blueprint_entries(*old(m)).len(),
        b < blueprint_entries(*old(m)).len(),
    ensures
        blueprint_entries(*final(m)) == blueprint_entries(*old(m)).update(a as int, blueprint_entries(*old(m))[b as int]).update(
            b as int,
            blueprint_entries(*old(m))[a as int],
        ),
{
    m.swap_indices(a, b)
}

} // verus!
