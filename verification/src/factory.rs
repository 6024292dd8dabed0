use vstd::prelude::*;

use indexmap::IndexMap;

use crate::blueprint::{
    child_policy, kind_of_type_name, kind_type_name, make_blueprint, registered_widgets, registered_kinds, AnyBlueprint, ChildPolicy,
    CommonWidgetMeta, DummyBlueprint, HasCommonMeta, WidgetKind,
};
use crate::index_map::{
    blueprint_entries, bp_map_clear, bp_map_get_index, bp_map_get_index_of, bp_map_insert, bp_map_len,
    bp_map_new, bp_map_shift_remove, bp_map_swap_indices, keys_unique,
};
use crate::property::{parent_hash, prop_parent, type_of, PropertyKey, StoredValue, ValueType};
use crate::storage::{PropEntry, PropertyStorage};
use crate::text::{decimal_chars, normalize_key, option_key, owned, str_eq, string_views, usize_to_string};

verus! {

/// A registered maker of blueprints: the type name and the kind it makes.
#[derive(Debug)]
pub struct CreatorEntry {
    pub name: String,
    pub kind: WidgetKind,
}

/// The root of the canvas is named by the empty string or by "root".
pub open spec fn is_root_marker(p: Seq<char>) -> bool {
    p.len() == 0 || p == "root"@
}

/// A widget whose parent is `current` is a child of `query`: the same id,
/// or both name the root.
pub open spec fn parent_matches(query: Seq<char>, current: Seq<char>) -> bool {
    current == query || (is_root_marker(query) && is_root_marker(current))
}

/// `map` with `key` set to `value`: in place where the key is, else
/// appended.
pub open spec fn entries_insert(
    s: Seq<(Seq<char>, AnyBlueprint)>,
    key: Seq<char>,
    value: AnyBlueprint,
) -> Seq<(Seq<char>, AnyBlueprint)> {
    if exists|j: int| 0 <= j < s.len() && (#[trigger] s[j]).0 == key {
        s.update(choose|j: int| 0 <= j < s.len() && (#[trigger] s[j]).0 == key, (key, value))
    } else {
        s.push((key, value))
    }
}

/// The parent a normalized request names: the widget itself and "root"
/// both mean the root (empty).
pub open spec fn clean_target(child: Seq<char>, clean: Seq<char>) -> Seq<char> {
    if child == clean || clean == "root"@ {
        Seq::empty()
    } else {
        clean
    }
}

/// The parent a request names: the trimmed, lower-cased text, with the
/// widget itself and "root" both meaning the root (empty).
pub open spec fn parent_target(child: Seq<char>, parent_id: Seq<char>) -> Seq<char> {
    clean_target(child, option_key(parent_id))
}

/// `new` is `old` with the text `t` stored under `k`.
pub open spec fn props_with_text(
    old: Map<(Seq<char>, u64), StoredValue>,
    new: Map<(Seq<char>, u64), StoredValue>,
    k: (Seq<char>, u64),
    t: Seq<char>,
) -> bool {
    &&& new.contains_key(k)
    &&& new[k] is Text
    &&& text_or_empty(new[k]) == t
    &&& new.remove(k) == old.remove(k)
}

/// The id of the `n`th new widget.
pub open spec fn widget_id_for(n: nat) -> Seq<char> {
    "widget_"@ + decimal_chars(n)
}

/// How a walk up the parent chain ends.
#[derive(Clone, Copy, Debug, PartialEq, Eq, Structural)]
pub enum WalkOutcome {
    /// The chain reaches the root without meeting the widget looked for.
    Clean,
    /// The chain meets the widget looked for.
    HitsChild,
    /// The chain runs in a circle that holds neither the root nor the widget.
    Cycle,
}

/// The text of a stored value, or empty for a value of another type.
pub open spec fn text_or_empty(v: StoredValue) -> Seq<char> {
    match v {
        StoredValue::Text(s) => s@,
        _ => Seq::empty(),
    }
}

/// A sequence without duplicates whose elements all occur in `t` is no
/// longer than `t`.
pub proof fn lemma_distinct_within<A>(s: Seq<A>, t: Seq<A>)
    requires
        s.no_duplicates(),
        forall|i: int| 0 <= i < s.len() ==> t.contains(#[trigger] s[i]),
    ensures
        s.len() <= t.len(),
{
    broadcast use vstd::seq_lib::seq_to_set_is_finite;
    s.unique_seq_to_set();
    t.lemma_cardinality_of_set();
    assert forall|x: A| s.to_set().contains(x) implies t.to_set().contains(x) by {
        let i = choose|i: int| 0 <= i < s.len() && s[i] == x;
        assert(t.contains(s[i]));
    }
    vstd::set_lib::lemma_len_subset(s.to_set(), t.to_set());
}

/// The parent a widget names in a property table: its `parent` text, or
/// empty when it has none (or holds a value of another type there).
pub open spec fn parent_in(p: PropertyStorage, w: Seq<char>) -> Seq<char> {
    match p.lookup(w, parent_hash()) {
        Some(StoredValue::Text(s)) => s@,
        _ => Seq::empty(),
    }
}

/// The id reached from `start` after `n` steps up the parent chain.
pub open spec fn walk_in(p: PropertyStorage, start: Seq<char>, n: nat) -> Seq<char>
    decreases n,
{
    if n == 0 {
        start
    } else {
        parent_in(p, walk_in(p, start, (n - 1) as nat))
    }
}

/// The first `n` steps of the walk are neither the root nor `child`.
pub open spec fn clear_before_in(p: PropertyStorage, start: Seq<char>, child: Seq<char>, n: nat) -> bool {
    forall|m: nat| m < n ==> (#[trigger] walk_in(p, start, m)).len() > 0 && walk_in(p, start, m) != child
}

/// The walk from `start` reaches the root before meeting `child`.
pub open spec fn walk_ends_clean_in(p: PropertyStorage, start: Seq<char>, child: Seq<char>) -> bool {
    exists|n: nat| (#[trigger] walk_in(p, start, n)).len() == 0 && clear_before_in(p, start, child, n)
}

/// The walk from `start` meets `child` before reaching the root.
pub open spec fn walk_hits_in(p: PropertyStorage, start: Seq<char>, child: Seq<char>) -> bool {
    exists|n: nat| (#[trigger] walk_in(p, start, n)).len() > 0 && walk_in(p, start, n) == child && clear_before_in(p, start, child, n)
}

/// The walk from `start` never reaches the root nor `child`.
pub open spec fn walk_cycles_in(p: PropertyStorage, start: Seq<char>, child: Seq<char>) -> bool {
    forall|n: nat| (#[trigger] walk_in(p, start, n)).len() > 0 && walk_in(p, start, n) != child
}

/// The walk up the parent chain from `w` reaches the root.
pub open spec fn reaches_root_in(p: PropertyStorage, w: Seq<char>) -> bool {
    exists|n: nat| (#[trigger] walk_in(p, w, n)).len() == 0
}

/// Every parent chain reaches the root: none runs in a circle.
pub open spec fn chains_end_in(p: PropertyStorage) -> bool {
    forall|w: Seq<char>| #[trigger] reaches_root_in(p, w)
}

/// Walking `a` steps and then `b` steps is walking `a + b` steps.
pub proof fn lemma_walk_add(p: PropertyStorage, w: Seq<char>, a: nat, b: nat)
    ensures
        walk_in(p, w, a + b) == walk_in(p, walk_in(p, w, a), b),
    decreases b,
{
    if b > 0 {
        lemma_walk_add(p, w, a, (b - 1) as nat);
        assert(walk_in(p, w, a + b) == parent_in(p, walk_in(p, w, (a + b - 1) as nat)));
    }
}

/// Two tables that name the same parent for every id but `c` walk alike
/// from `w` for as long as the walk has not met `c`.
pub proof fn lemma_walk_agree(p: PropertyStorage, q: PropertyStorage, w: Seq<char>, c: Seq<char>, k: nat)
    requires
        forall|x: Seq<char>| x != c ==> #[trigger] parent_in(q, x) == parent_in(p, x),
        forall|j: nat| j < k ==> #[trigger] walk_in(p, w, j) != c,
    ensures
        walk_in(q, w, k) == walk_in(p, w, k),
    decreases k,
{
    if k > 0 {
        lemma_walk_agree(p, q, w, c, (k - 1) as nat);
        let prev = walk_in(p, w, (k - 1) as nat);
        assert(prev != c);
        assert(parent_in(q, prev) == parent_in(p, prev));
    }
}

/// The first step below `n` at which the walk from `w` meets `c`, or `n`
/// when it meets it at none.
pub proof fn lemma_first_meet(p: PropertyStorage, w: Seq<char>, c: Seq<char>, n: nat) -> (j: nat)
    ensures
        j <= n,
        forall|i: nat| i < j ==> #[trigger] walk_in(p, w, i) != c,
        j < n ==> walk_in(p, w, j) == c,
    decreases n,
{
    if n == 0 {
        0
    } else {
        let j0 = lemma_first_meet(p, w, c, (n - 1) as nat);
        if j0 < n - 1 {
            j0
        } else if walk_in(p, w, (n - 1) as nat) == c {
            (n - 1) as nat
        } else {
            n
        }
    }
}

/// Pointing `c` at a parent whose chain reaches the root without meeting
/// `c` keeps every chain finite.
pub proof fn lemma_repoint_keeps_chains(p: PropertyStorage, q: PropertyStorage, c: Seq<char>, t: Seq<char>)
    requires
        chains_end_in(p),
        forall|x: Seq<char>| x != c ==> #[trigger] parent_in(q, x) == parent_in(p, x),
        parent_in(q, c) == t,
        walk_ends_clean_in(p, t, c),
    ensures
        chains_end_in(q),
{
    assert forall|w: Seq<char>| #[trigger] reaches_root_in(q, w) by {
        assert(reaches_root_in(p, w));
        let n0 = choose|n: nat| (#[trigger] walk_in(p, w, n)).len() == 0;
        let j = lemma_first_meet(p, w, c, n0);
        lemma_walk_agree(p, q, w, c, j);
        if j == n0 {
            assert(walk_in(q, w, n0).len() == 0);
        } else {
            assert(walk_in(q, w, j + 1) == parent_in(q, walk_in(q, w, j)));
            assert(walk_in(q, w, j + 1) == t);
            let n1 = choose|n: nat| (#[trigger] walk_in(p, t, n)).len() == 0 && clear_before_in(p, t, c, n);
            assert forall|i: nat| i < n1 implies #[trigger] walk_in(p, t, i) != c by {
                assert(walk_in(p, t, i).len() > 0 && walk_in(p, t, i) != c);
            }
            lemma_walk_agree(p, q, t, c, n1);
            lemma_walk_add(q, w, j + 1, n1);
            assert(walk_in(q, w, j + 1 + n1).len() == 0);
        }
    }
}

/// Storing the text `t` as the parent of `c` names `t` for `c` and keeps
/// the parent of every other id.
pub proof fn lemma_parent_after_text(p: PropertyStorage, q: PropertyStorage, c: Seq<char>, t: Seq<char>)
    requires
        props_with_text(p@, q@, (c, parent_hash()), t),
    ensures
        forall|x: Seq<char>| x != c ==> #[trigger] parent_in(q, x) == parent_in(p, x),
        parent_in(q, c) == t,
{
    let k = (c, parent_hash());
    assert forall|x: Seq<char>| x != c implies #[trigger] parent_in(q, x) == parent_in(p, x) by {
        let kx = (x, parent_hash());
        assert(kx != k);
        assert(q@.remove(k).contains_key(kx) == q@.contains_key(kx));
        assert(p@.remove(k).contains_key(kx) == p@.contains_key(kx));
        if q@.contains_key(kx) {
            assert(q@.remove(k)[kx] == q@[kx]);
            assert(p@.remove(k)[kx] == p@[kx]);
        }
    }
}

/// While the walk in `q` has not reached the root, it goes where the walk
/// in `p` goes, when `q` names for each id the parent `p` names or none.
pub proof fn lemma_cut_walk(p: PropertyStorage, q: PropertyStorage, w: Seq<char>, k: nat)
    requires
        forall|x: Seq<char>| #[trigger] parent_in(q, x) == parent_in(p, x) || parent_in(q, x).len() == 0,
    ensures
        walk_in(q, w, k) == walk_in(p, w, k) || exists|i: nat| i <= k && (#[trigger] walk_in(q, w, i)).len() == 0,
    decreases k,
{
    if k > 0 {
        lemma_cut_walk(p, q, w, (k - 1) as nat);
        let x = walk_in(q, w, (k - 1) as nat);
        if x == walk_in(p, w, (k - 1) as nat) {
            assert(parent_in(q, x) == parent_in(p, x) || parent_in(q, x).len() == 0);
            if parent_in(q, x).len() == 0 {
                assert(walk_in(q, w, k).len() == 0);
            }
        } else {
            let i = choose|i: nat| i <= (k - 1) as nat && (#[trigger] walk_in(q, w, i)).len() == 0;
            assert(i <= k);
        }
    }
}

/// Dropping parents (leaving the others as they were) keeps every chain
/// finite.
pub proof fn lemma_cut_keeps_chains(p: PropertyStorage, q: PropertyStorage)
    requires
        chains_end_in(p),
        forall|x: Seq<char>| #[trigger] parent_in(q, x) == parent_in(p, x) || parent_in(q, x).len() == 0,
    ensures
        chains_end_in(q),
{
    assert forall|w: Seq<char>| #[trigger] reaches_root_in(q, w) by {
        assert(reaches_root_in(p, w));
        let n0 = choose|n: nat| (#[trigger] walk_in(p, w, n)).len() == 0;
        lemma_cut_walk(p, q, w, n0);
    }
}

/// In an empty table every chain ends at once.
pub proof fn lemma_empty_table_chains(p: PropertyStorage)
    requires
        p@ == Map::<(Seq<char>, u64), StoredValue>::empty(),
    ensures
        chains_end_in(p),
{
    assert forall|w: Seq<char>| #[trigger] reaches_root_in(p, w) by {
        assert(!p@.contains_key((w, parent_hash())));
        assert(walk_in(p, w, 1).len() == 0);
    }
}

/// Making `c` a root widget keeps every chain finite.
pub proof fn lemma_root_keeps_chains(p: PropertyStorage, q: PropertyStorage, c: Seq<char>)
    requires
        chains_end_in(p),
        props_with_text(p@, q@, (c, parent_hash()), Seq::empty()),
    ensures
        chains_end_in(q),
{
    lemma_parent_after_text(p, q, c, Seq::empty());
    assert(walk_in(p, Seq::<char>::empty(), 0).len() == 0);
    assert(clear_before_in(p, Seq::<char>::empty(), c, 0));
    lemma_repoint_keeps_chains(p, q, c, Seq::empty());
}

/// A widget id is placed.
pub open spec fn has_key_in(bps: Seq<(Seq<char>, AnyBlueprint)>, id: Seq<char>) -> bool {
    exists|j: int| 0 <= j < bps.len() && (#[trigger] bps[j]).0 == id
}

/// The ids of a sequence of entries, in order.
pub open spec fn keys_in(bps: Seq<(Seq<char>, AnyBlueprint)>) -> Seq<Seq<char>> {
    bps.map_values(|e: (Seq<char>, AnyBlueprint)| e.0)
}

/// The position of an id among the entries (meaningful when it is placed).
pub open spec fn key_pos(bps: Seq<(Seq<char>, AnyBlueprint)>, id: Seq<char>) -> int {
    choose|j: int| 0 <= j < bps.len() && (#[trigger] bps[j]).0 == id
}

/// The ids whose parent text is the one `w` has (its siblings, and itself).
pub open spec fn same_parent_in(p: PropertyStorage, w: Seq<char>) -> spec_fn(Seq<char>) -> bool {
    |k: Seq<char>| parent_in(p, k) == parent_in(p, w)
}

/// The place of a placed widget `w` among the ids with its parent text.
pub open spec fn sibling_rank_in(p: PropertyStorage, bps: Seq<(Seq<char>, AnyBlueprint)>, w: Seq<char>) -> int {
    keys_in(bps).take(key_pos(bps, w)).filter(same_parent_in(p, w)).len() as int
}

/// The entries after moving `w` by `dir` places among the widgets with the
/// same parent text: when `w` is placed and the place it would reach
/// exists, `w` trades positions with the widget at that place; otherwise
/// nothing changes.
pub open spec fn moved_in(p: PropertyStorage, bps: Seq<(Seq<char>, AnyBlueprint)>, w: Seq<char>, dir: int) -> Seq<(Seq<char>, AnyBlueprint)> {
    let sib = keys_in(bps).filter(same_parent_in(p, w));
    let t = sibling_rank_in(p, bps, w) + dir;
    if has_key_in(bps, w) && 0 <= t < sib.len() {
        let a = key_pos(bps, w);
        let b = key_pos(bps, sib[t]);
        bps.update(a, bps[b]).update(b, bps[a])
    } else {
        bps
    }
}

/// How many elements before position `i` pass `f`.
pub open spec fn count_before<A>(s: Seq<A>, f: spec_fn(A) -> bool, i: int) -> int {
    s.take(i).filter(f).len() as int
}

/// An element that passes `f` sits in the filtered sequence at the count
/// of passing elements before it.
pub proof fn lemma_filter_at_count<A>(s: Seq<A>, f: spec_fn(A) -> bool, i: int)
    requires
        0 <= i < s.len(),
        f(s[i]),
    ensures
        count_before(s, f, i) < s.filter(f).len(),
        s.filter(f)[count_before(s, f, i)] == s[i],
{
    let u = s.take(i + 1);
    let v = s.skip(i + 1);
    assert(s =~= u + v);
    Seq::filter_distributes_over_add(u, v, f);
    lemma_filter_take_step(s, f, i);
    assert(u.filter(f) == s.take(i).filter(f).push(s[i]));
    assert((u + v).filter(f) == u.filter(f) + v.filter(f));
    let c = count_before(s, f, i);
    assert((u.filter(f) + v.filter(f))[c] == u.filter(f)[c]);
}

/// Each element of a filtered sequence comes from a position whose count
/// of passing elements before it is its index.
pub proof fn lemma_filter_source<A>(s: Seq<A>, f: spec_fn(A) -> bool, m: int) -> (i: int)
    requires
        0 <= m < s.filter(f).len(),
    ensures
        0 <= i < s.len(),
        f(s[i]),
        count_before(s, f, i) == m,
        s[i] == s.filter(f)[m],
    decreases s.len(),
{
    reveal_with_fuel(Seq::<_>::filter, 1);
    let d = s.drop_last();
    if m < d.filter(f).len() {
        let i = lemma_filter_source(d, f, m);
        assert(s.take(i) =~= d.take(i));
        assert(s[i] == d[i]);
        if f(s.last()) {
            assert(s.filter(f) == d.filter(f).push(s.last()));
        }
        i
    } else {
        let i = s.len() - 1;
        assert(s.take(i) =~= d);
        i
    }
}

/// Replacing an element by one that passes `f` exactly when it did keeps
/// the number of passing elements.
pub proof fn lemma_filter_len_update<A>(s: Seq<A>, f: spec_fn(A) -> bool, i: int, y: A)
    requires
        0 <= i < s.len(),
        f(s[i]) == f(y),
    ensures
        s.update(i, y).filter(f).len() == s.filter(f).len(),
    decreases s.len(),
{
    reveal_with_fuel(Seq::<_>::filter, 1);
    let t = s.update(i, y);
    if i == s.len() - 1 {
        assert(t.drop_last() =~= s.drop_last());
    } else {
        lemma_filter_len_update(s.drop_last(), f, i, y);
        assert(t.drop_last() =~= s.drop_last().update(i, y));
    }
}

/// The move of `w` by `dir` places finds a widget to trade with.
pub open spec fn move_applies(p: PropertyStorage, bps: Seq<(Seq<char>, AnyBlueprint)>, w: Seq<char>, dir: int) -> bool {
    let t = sibling_rank_in(p, bps, w) + dir;
    has_key_in(bps, w) && 0 <= t < keys_in(bps).filter(same_parent_in(p, w)).len()
}

/// Trading the entries at two positions keeps the keys unique.
pub proof fn lemma_swap_keys_unique(bps: Seq<(Seq<char>, AnyBlueprint)>, a: int, b: int)
    requires
        keys_unique(bps),
        0 <= a < bps.len(),
        0 <= b < bps.len(),
    ensures
        keys_unique(bps.update(a, bps[b]).update(b, bps[a])),
{
    let nb = bps.update(a, bps[b]).update(b, bps[a]);
    assert forall|x: int, y: int| 0 <= x < nb.len() && 0 <= y < nb.len() && x != y
        implies (#[trigger] nb[x]).0 != (#[trigger] nb[y]).0 by {
        let x2 = if x == b { a } else if x == a { b } else { x };
        let y2 = if y == b { a } else if y == a { b } else { y };
        assert(nb[x] == bps[x2]);
        assert(nb[y] == bps[y2]);
    }
}

/// In unique keys, the position of the key found at `i` is `i`.
pub proof fn lemma_key_pos_at(bps: Seq<(Seq<char>, AnyBlueprint)>, i: int)
    requires
        keys_unique(bps),
        0 <= i < bps.len(),
    ensures
        key_pos(bps, bps[i].0) == i,
        has_key_in(bps, bps[i].0),
{
    let j = key_pos(bps, bps[i].0);
    assert(bps[i].0 == bps[i].0);
}

/// A move that finds a widget to trade with is undone by the move back.
pub proof fn lemma_move_back(p: PropertyStorage, bps: Seq<(Seq<char>, AnyBlueprint)>, w: Seq<char>, dir: int)
    requires
        keys_unique(bps),
        move_applies(p, bps, w, dir),
    ensures
        move_applies(p, moved_in(p, bps, w, dir), w, -dir),
        moved_in(p, moved_in(p, bps, w, dir), w, -dir) == bps,
{
    let sp = same_parent_in(p, w);
    let keys = keys_in(bps);
    let sib = keys.filter(sp);
    let a = key_pos(bps, w);
    assert(bps[a].0 == w);
    lemma_key_pos_at(bps, a);
    let r = sibling_rank_in(p, bps, w);
    let t = r + dir;
    let s = sib[t];
    let bi = lemma_filter_source(keys, sp, t);
    assert(keys[bi] == bps[bi].0);
    lemma_key_pos_at(bps, bi);
    let b = key_pos(bps, s);
    assert(b == bi);
    let nb = bps.update(a, bps[b]).update(b, bps[a]);
    assert(moved_in(p, bps, w, dir) == nb);
    lemma_swap_keys_unique(bps, a, b);
    let nkeys = keys_in(nb);
    assert(keys[a] == w);
    assert(sp(keys[a]));
    assert(sp(keys[b]));
    assert(nkeys =~= keys.update(a, keys[b]).update(b, keys[a]));
    // the counts before positions a and b stay
    if a == b {
        assert(nb =~= bps);
    } else {
        let lo = if a < b { a } else { b };
        let hi = if a < b { b } else { a };
        assert(nkeys.take(lo) =~= keys.take(lo));
        assert(nkeys.take(hi) =~= keys.take(hi).update(lo, nkeys[lo]));
        lemma_filter_len_update(keys.take(hi), sp, lo, nkeys[lo]);
        assert(count_before(nkeys, sp, a) == count_before(keys, sp, a));
        assert(count_before(nkeys, sp, b) == count_before(keys, sp, b));
    }
    assert(count_before(nkeys, sp, a) == count_before(keys, sp, a));
    assert(count_before(nkeys, sp, b) == count_before(keys, sp, b));
    // the number of siblings stays
    lemma_filter_len_update(keys, sp, a, keys[b]);
    lemma_filter_len_update(keys.update(a, keys[b]), sp, b, keys[a]);
    assert(nkeys.filter(sp).len() == sib.len());
    // in the new order `w` is at b, with rank t, and the widget of rank r is s
    assert(nb[b].0 == w);
    lemma_key_pos_at(nb, b);
    assert(key_pos(nb, w) == b);
    assert(sibling_rank_in(p, nb, w) == count_before(nkeys, sp, b));
    assert(count_before(keys, sp, b) == t);
    assert(sibling_rank_in(p, nb, w) == t);
    assert(nkeys[a] == s);
    lemma_filter_at_count(nkeys, sp, a);
    assert(count_before(keys, sp, a) == r);
    assert(nkeys.filter(sp)[r] == s);
    assert(nb[a].0 == s);
    lemma_key_pos_at(nb, a);
    assert(key_pos(nb, s) == a);
    assert(move_applies(p, nb, w, -dir));
    let back = nb.update(b, nb[a]).update(a, nb[b]);
    assert(moved_in(p, nb, w, -dir) == back);
    assert(back =~= bps);
}

/// A move keeps the widgets: the same entries, as many, in another order.
pub proof fn law_move_keeps_widgets(p: PropertyStorage, bps: Seq<(Seq<char>, AnyBlueprint)>, w: Seq<char>, dir: int)
    requires
        keys_unique(bps),
    ensures
        moved_in(p, bps, w, dir).len() == bps.len(),
        keys_unique(moved_in(p, bps, w, dir)),
        forall|e: (Seq<char>, AnyBlueprint)| #[trigger] moved_in(p, bps, w, dir).contains(e) <==> bps.contains(e),
{
    let m = moved_in(p, bps, w, dir);
    if m != bps {
        let sib = keys_in(bps).filter(same_parent_in(p, w));
        let t = sibling_rank_in(p, bps, w) + dir;
        let a = key_pos(bps, w);
        let b = key_pos(bps, sib[t]);
        assert(bps[a].0 == w);
        let bi = lemma_filter_source(keys_in(bps), same_parent_in(p, w), t);
        assert(bps[bi].0 == sib[t]);
        lemma_swap_keys_unique(bps, a, b);
        assert forall|e: (Seq<char>, AnyBlueprint)| #[trigger] m.contains(e) <==> bps.contains(e) by {
            if m.contains(e) {
                let x = choose|x: int| 0 <= x < m.len() && m[x] == e;
                let x2 = if x == b { a } else if x == a { b } else { x };
                assert(bps[x2] == e);
            }
            if bps.contains(e) {
                let x = choose|x: int| 0 <= x < bps.len() && bps[x] == e;
                let x2 = if x == b { a } else if x == a { b } else { x };
                assert(m[x2] == e);
            }
        }
    }
}

/// Moving a widget and then moving it back by the opposite number of
/// places restores the order, whenever the first move found a widget to
/// trade with.
pub proof fn law_move_then_back(f1: Factory, f2: Factory, f3: Factory, w: Seq<char>, dir: int)
    requires
        f1.wf(),
        move_applies(f1.props(), f1.bps(), w, dir),
        widget_moved(f1, f2, w, dir),
        widget_moved(f2, f3, w, -dir),
    ensures
        f3.bps() == f1.bps(),
        f3.props() == f1.props(),
{
    lemma_move_back(f1.props(), f1.bps(), w, dir);
}

/// The blueprint placed under an id (meaningful when the id is placed).
pub open spec fn bp_in(bps: Seq<(Seq<char>, AnyBlueprint)>, id: Seq<char>) -> AnyBlueprint {
    bps[choose|j: int| 0 <= j < bps.len() && (#[trigger] bps[j]).0 == id].1
}

/// The predicate that picks the ids of the children of `parent`.
pub open spec fn child_pred_in(p: PropertyStorage, parent: Seq<char>) -> spec_fn(Seq<char>) -> bool {
    |k: Seq<char>| parent_matches(parent, parent_in(p, k))
}

/// The predicate that picks the entries of the children of `parent`.
pub open spec fn child_entry_pred_in(p: PropertyStorage, parent: Seq<char>) -> spec_fn((Seq<char>, AnyBlueprint)) -> bool {
    |e: (Seq<char>, AnyBlueprint)| parent_matches(parent, parent_in(p, e.0))
}

/// The placed widgets that are children of `parent`, in order.
pub open spec fn children_entries_in(
    p: PropertyStorage,
    bps: Seq<(Seq<char>, AnyBlueprint)>,
    parent: Seq<char>,
) -> Seq<(Seq<char>, AnyBlueprint)> {
    bps.filter(child_entry_pred_in(p, parent))
}

/// Whether a blueprint takes a child now: by its kind, and for a kind that
/// takes one child, only while it has none.
pub open spec fn accepts_in(p: PropertyStorage, bps: Seq<(Seq<char>, AnyBlueprint)>, bp: AnyBlueprint) -> bool {
    accepts_kind_in(p, bps, bp.kind(), bp.id())
}

/// Whether a widget of kind `k` with id `id` takes a child now: by its
/// kind, and for a kind that takes one child, only while it has none.
pub open spec fn accepts_kind_in(p: PropertyStorage, bps: Seq<(Seq<char>, AnyBlueprint)>, k: WidgetKind, id: Seq<char>) -> bool {
    match child_policy(k) {
        ChildPolicy::Never => false,
        ChildPolicy::Always => true,
        ChildPolicy::WhenEmpty => children_entries_in(p, bps, id).len() == 0,
    }
}

/// The parent that a request to put `child` under `parent_id` sets, if it
/// is granted: the child must be placed; the root is always granted;
/// another parent is granted when the walk up from it reaches the root
/// without meeting the child, and it is a placed widget that takes a child
/// now.
pub open spec fn parent_assignment_in(
    p: PropertyStorage,
    bps: Seq<(Seq<char>, AnyBlueprint)>,
    child: Seq<char>,
    parent_id: Seq<char>,
) -> Option<Seq<char>> {
    clean_assignment_in(p, bps, child, option_key(parent_id))
}

/// The parent that a normalized request to put `child` under `clean` sets,
/// if it is granted, as `parent_assignment_in` says.
pub open spec fn clean_assignment_in(
    p: PropertyStorage,
    bps: Seq<(Seq<char>, AnyBlueprint)>,
    child: Seq<char>,
    clean: Seq<char>,
) -> Option<Seq<char>> {
    let t = clean_target(child, clean);
    if !has_key_in(bps, child) {
        None
    } else if t.len() == 0 {
        Some(t)
    } else if walk_ends_clean_in(p, t, child) && has_key_in(bps, t) && accepts_in(p, bps, bp_in(bps, t)) {
        Some(t)
    } else {
        None
    }
}

/// The texts a property table stores, one per entry.
pub open spec fn parent_texts_in(p: PropertyStorage) -> Seq<Seq<char>> {
    p.entries().map_values(|e: PropEntry| text_or_empty(e.value))
}

/// A non-empty parent is one of the stored texts.
pub proof fn lemma_parent_in_texts_in(p: PropertyStorage, x: Seq<char>)
    requires
        p.wf(),
        parent_in(p, x).len() > 0,
    ensures
        parent_texts_in(p).contains(parent_in(p, x)),
{
    p.lemma_lookup_entry(x, parent_hash());
    let i = choose|i: int| 0 <= i < p.entries().len() && crate::storage::entry_key(#[trigger] p.entries()[i]) == (x, parent_hash())
        && p.entries()[i].value == p@[(x, parent_hash())];
    assert(parent_texts_in(p)[i] == parent_in(p, x));
}

/// A walk whose first `n + 1` ids are distinct and whose steps after the
/// first are non-empty has at most as many steps as the table has entries.
pub proof fn lemma_walk_bound(p: PropertyStorage, st: Seq<char>, n: nat)
    requires
        p.wf(),
        forall|a: nat, b: nat| a < b <= n ==> #[trigger] walk_in(p, st, a) != #[trigger] walk_in(p, st, b),
        forall|m: nat| 1 <= m <= n ==> (#[trigger] walk_in(p, st, m)).len() > 0,
    ensures
        n <= parent_texts_in(p).len(),
{
    let t = Seq::new(n, |m: int| walk_in(p, st, (m + 1) as nat));
    assert forall|a: int, b: int| 0 <= a < t.len() && 0 <= b < t.len() && a != b implies t[a] != t[b] by {
        if a < b {
            assert(walk_in(p, st, (a + 1) as nat) != walk_in(p, st, (b + 1) as nat));
        } else {
            assert(walk_in(p, st, (b + 1) as nat) != walk_in(p, st, (a + 1) as nat));
        }
    }
    assert forall|i: int| 0 <= i < t.len() implies parent_texts_in(p).contains(#[trigger] t[i]) by {
        let w = walk_in(p, st, i as nat);
        assert(t[i] == parent_in(p, w));
        assert(walk_in(p, st, (i + 1) as nat).len() > 0);
        lemma_parent_in_texts_in(p, w);
    }
    lemma_distinct_within(t, parent_texts_in(p));
}

/// The search for a container stops at `w`: the root, or a placed widget
/// that takes a child now.
pub open spec fn search_stops(p: PropertyStorage, bps: Seq<(Seq<char>, AnyBlueprint)>, w: Seq<char>) -> bool {
    is_root_marker(w) || (has_key_in(bps, w) && accepts_in(p, bps, bp_in(bps, w)))
}

/// The search passes the first `n` steps of the walk.
pub open spec fn search_clear_before(p: PropertyStorage, bps: Seq<(Seq<char>, AnyBlueprint)>, start: Seq<char>, n: nat) -> bool {
    forall|m: nat| m < n ==> !search_stops(p, bps, #[trigger] walk_in(p, start, m))
}

/// The search from `start` first stops after `n` steps.
pub open spec fn search_stops_first(p: PropertyStorage, bps: Seq<(Seq<char>, AnyBlueprint)>, start: Seq<char>, n: nat) -> bool {
    search_stops(p, bps, walk_in(p, start, n)) && search_clear_before(p, bps, start, n)
}

/// The nearest container at or above `start` that takes a child now;
/// `None` when the walk reaches the root first or runs in a circle.
pub open spec fn container_search_in(p: PropertyStorage, bps: Seq<(Seq<char>, AnyBlueprint)>, start: Seq<char>) -> Option<Seq<char>> {
    if exists|n: nat| #[trigger] search_stops_first(p, bps, start, n) {
        let w = walk_in(p, start, choose|n: nat| #[trigger] search_stops_first(p, bps, start, n));
        if is_root_marker(w) {
            None
        } else {
            Some(w)
        }
    } else {
        None
    }
}

/// The search stops first at one step only.
pub proof fn lemma_search_first_unique(p: PropertyStorage, bps: Seq<(Seq<char>, AnyBlueprint)>, start: Seq<char>, n1: nat, n2: nat)
    requires
        search_stops_first(p, bps, start, n1),
        search_stops_first(p, bps, start, n2),
    ensures
        n1 == n2,
{
    if n1 < n2 {
        assert(!search_stops(p, bps, walk_in(p, start, n1)));
    } else if n2 < n1 {
        assert(!search_stops(p, bps, walk_in(p, start, n2)));
    }
}

/// The blueprints after creating a widget `id` with the maker found, if any.
pub open spec fn created_bps(
    bps: Seq<(Seq<char>, AnyBlueprint)>,
    kind: Option<WidgetKind>,
    id: String,
) -> Seq<(Seq<char>, AnyBlueprint)> {
    match kind {
        Some(k) => entries_insert(bps, id@, make_blueprint(k, CommonWidgetMeta { id: id, index: 0 })),
        None => bps,
    }
}

/// `path` leads down from `root`: it starts at `root`, and each later id
/// is a placed widget whose parent matches the id before it.
pub open spec fn is_descent(
    p: PropertyStorage,
    bps: Seq<(Seq<char>, AnyBlueprint)>,
    root: Seq<char>,
    path: Seq<Seq<char>>,
) -> bool {
    &&& path.len() > 0
    &&& path[0] == root
    &&& forall|i: int| 0 < i < path.len() ==> has_key_in(bps, #[trigger] path[i]) && parent_matches(path[i - 1], parent_in(p, path[i]))
}

/// `k` is `root` or lies somewhere below it.
pub open spec fn in_subtree(p: PropertyStorage, bps: Seq<(Seq<char>, AnyBlueprint)>, root: Seq<char>, k: Seq<char>) -> bool {
    exists|path: Seq<Seq<char>>| #[trigger] is_descent(p, bps, root, path) && path.last() == k
}

/// The entries whose key satisfies `f`.
pub open spec fn key_pred(f: spec_fn(Seq<char>) -> bool) -> spec_fn((Seq<char>, AnyBlueprint)) -> bool {
    |e: (Seq<char>, AnyBlueprint)| f(e.0)
}

/// The entries whose key is not `d`.
pub open spec fn key_is_not(d: Seq<char>) -> spec_fn((Seq<char>, AnyBlueprint)) -> bool {
    key_pred(|k: Seq<char>| k != d)
}

/// The entries whose key is none of the first `n` ids of `dv`.
pub open spec fn outside_prefix(dv: Seq<Seq<char>>, n: int) -> spec_fn((Seq<char>, AnyBlueprint)) -> bool {
    key_pred(|k: Seq<char>| !dv.take(n).contains(k))
}

/// One more element of a prefix.
pub proof fn lemma_take_contains_step<A>(v: Seq<A>, j: int, k: A)
    requires
        0 <= j < v.len(),
    ensures
        v.take(j + 1).contains(k) == (v.take(j).contains(k) || k == v[j]),
{
    if v.take(j + 1).contains(k) {
        let i = choose|i: int| 0 <= i < j + 1 && #[trigger] v.take(j + 1)[i] == k;
        if i < j {
            assert(v.take(j)[i] == k);
        }
    }
    if v.take(j).contains(k) {
        let i = choose|i: int| 0 <= i < j && #[trigger] v.take(j)[i] == k;
        assert(v.take(j + 1)[i] == k);
    }
    if k == v[j] {
        assert(v.take(j + 1)[j] == k);
    }
}

/// Filtering by a predicate that holds everywhere keeps the sequence.
pub proof fn lemma_filter_all<A>(s: Seq<A>, f: spec_fn(A) -> bool)
    requires
        forall|i: int| 0 <= i < s.len() ==> f(#[trigger] s[i]),
    ensures
        s.filter(f) == s,
    decreases s.len(),
{
    reveal_with_fuel(Seq::<_>::filter, 1);
    if s.len() > 0 {
        lemma_filter_all(s.drop_last(), f);
        assert(s.drop_last().push(s.last()) =~= s);
    }
}

/// Filtering twice is filtering by both predicates.
pub proof fn lemma_filter_filter<A>(s: Seq<A>, f: spec_fn(A) -> bool, g: spec_fn(A) -> bool, h: spec_fn(A) -> bool)
    requires
        forall|a: A| #[trigger] h(a) == (f(a) && g(a)),
    ensures
        s.filter(f).filter(g) == s.filter(h),
    decreases s.len(),
{
    reveal_with_fuel(Seq::<_>::filter, 1);
    if s.len() > 0 {
        lemma_filter_filter(s.drop_last(), f, g, h);
        let t = s.drop_last().filter(f);
        if f(s.last()) {
            assert(t.push(s.last()).drop_last() =~= t);
        }
    }
}

/// In a sequence with unique keys, dropping the entries with key `d` is
/// removing the one at its position.
pub proof fn lemma_filter_key_remove(s: Seq<(Seq<char>, AnyBlueprint)>, d: Seq<char>, idx: int)
    requires
        keys_unique(s),
        0 <= idx < s.len(),
        s[idx].0 == d,
    ensures
        s.filter(key_is_not(d)) == s.remove(idx),
    decreases s.len(),
{
    reveal_with_fuel(Seq::<_>::filter, 1);
    let f = key_is_not(d);
    let s2 = s.drop_last();
    if idx == s.len() - 1 {
        assert forall|i: int| 0 <= i < s2.len() implies f(#[trigger] s2[i]) by {
            assert(s[i].0 != s[idx].0);
        }
        lemma_filter_all(s2, f);
        assert(s.remove(idx) =~= s2);
    } else {
        assert(keys_unique(s2)) by {
            assert forall|i: int, j: int| 0 <= i < s2.len() && 0 <= j < s2.len() && i != j implies (#[trigger] s2[i]).0 != (#[trigger] s2[j]).0 by {
                assert(s[i].0 != s[j].0);
            }
        }
        lemma_filter_key_remove(s2, d, idx);
        assert(s.last().0 != d) by {
            assert(s[s.len() - 1].0 != s[idx].0);
        }
        assert(s.remove(idx) =~= s2.remove(idx).push(s.last()));
    }
}

/// Dropping entries with key `d` from a sequence without it keeps it.
pub proof fn lemma_filter_key_absent(s: Seq<(Seq<char>, AnyBlueprint)>, d: Seq<char>)
    requires
        forall|j: int| 0 <= j < s.len() ==> (#[trigger] s[j]).0 != d,
    ensures
        s.filter(key_is_not(d)) == s,
{
    let f = key_is_not(d);
    assert forall|i: int| 0 <= i < s.len() implies f(#[trigger] s[i]) by {}
    lemma_filter_all(s, f);
}

/// A breadth-first list that starts at `root` and holds every placed
/// child of each listed id holds every id on a descent from `root`.
pub proof fn lemma_bfs_complete(
    p: PropertyStorage,
    bps: Seq<(Seq<char>, AnyBlueprint)>,
    root: Seq<char>,
    v: Seq<Seq<char>>,
    path: Seq<Seq<char>>,
    i: int,
)
    requires
        v.len() > 0,
        v[0] == root,
        forall|t: int, j: int| #![trigger v[t], bps[j]] 0 <= t < v.len() && 0 <= j < bps.len() && parent_matches(v[t], parent_in(p, bps[j].0))
            ==> v.contains(bps[j].0),
        is_descent(p, bps, root, path),
        0 <= i < path.len(),
    ensures
        v.contains(path[i]),
    decreases i,
{
    if i == 0 {
        assert(v[0] == path[i]);
    } else {
        lemma_bfs_complete(p, bps, root, v, path, i - 1);
        assert(has_key_in(bps, path[i]) && parent_matches(path[i - 1], parent_in(p, path[i])));
        let t = choose|t: int| 0 <= t < v.len() && v[t] == path[i - 1];
        let j = choose|j: int| 0 <= j < bps.len() && (#[trigger] bps[j]).0 == path[i];
        assert(parent_matches(v[t], parent_in(p, bps[j].0)));
    }
}

/// The characters of an optional string slice.
pub open spec fn opt_view(o: Option<&str>) -> Option<Seq<char>> {
    match o {
        Some(a) => Some(a@),
        None => None,
    }
}

/// What adding a widget of type `t` does, with `sel` the selected id and
/// `r` the id returned: the counter goes one up and names `r`; a widget of
/// a registered type is placed under `r`; its parent is the nearest
/// container found from the selection, if one is found and the request to
/// go there is granted, else the root; the makers, the design mode and the
/// finiteness of the parent chains are kept.
pub open spec fn widget_added(before: Factory, after: Factory, t: Seq<char>, sel: Option<Seq<char>>, r: String) -> bool {
    let bps1 = created_bps(before.bps(), before.creator_of(t), r);
    let target = match sel {
        Some(a) => container_search_in(before.props(), bps1, a),
        None => None,
    };
    &&& after.wf()
    &&& after.counter() == before.counter() + 1
    &&& r@ == widget_id_for(after.counter() as nat)
    &&& after.bps() == bps1
    &&& after.creator_entries() == before.creator_entries()
    &&& after.design_mode() == before.design_mode()
    &&& match target {
        Some(tp) => match parent_assignment_in(before.props(), bps1, r@, tp) {
            Some(t2) => props_with_text(before.props()@, after.props()@, (r@, parent_hash()), t2),
            None => after.props()@ == before.props()@,
        },
        None => props_with_text(before.props()@, after.props()@, (r@, parent_hash()), Seq::empty()),
    }
    &&& (chains_end_in(before.props()) ==> chains_end_in(after.props()))
}

/// What deleting `w` does: the widgets of its subtree leave, in place
/// order the others stay; every property of an id of the subtree goes,
/// the others stay; counter, makers, design mode and the finiteness of
/// the parent chains are kept.
pub open spec fn widget_deleted(before: Factory, after: Factory, w: Seq<char>) -> bool {
    &&& after.wf()
    &&& after.bps() == before.bps().filter(key_pred(|k: Seq<char>| !in_subtree(before.props(), before.bps(), w, k)))
    &&& after.props()@ == before.props()@.restrict(
        before.props()@.dom().filter(|k: (Seq<char>, u64)| !in_subtree(before.props(), before.bps(), w, k.0)),
    )
    &&& (chains_end_in(before.props()) ==> chains_end_in(after.props()))
    &&& after.counter() == before.counter()
    &&& after.creator_entries() == before.creator_entries()
    &&& after.design_mode() == before.design_mode()
}

/// What moving `w` by `dir` places does: the widgets are as `moved_in`
/// says, and nothing else changes.
pub open spec fn widget_moved(before: Factory, after: Factory, w: Seq<char>, dir: int) -> bool {
    &&& after.wf()
    &&& after.bps() == moved_in(before.props(), before.bps(), w, dir)
    &&& after.props() == before.props()
    &&& after.counter() == before.counter()
    &&& after.creator_entries() == before.creator_entries()
    &&& after.design_mode() == before.design_mode()
}

/// What taking the blueprint of `w` out does: a placed `w` gives its
/// blueprint and gets a `dummy` blueprint (id "dummy", index 0) in the
/// same place; an id that is not placed gives `None`. Nothing else
/// changes.
pub open spec fn blueprint_taken(before: Factory, after: Factory, w: Seq<char>, r: Option<AnyBlueprint>) -> bool {
    let pos = key_pos(before.bps(), w);
    &&& after.wf()
    &&& before.has_key(w) ==> {
        &&& r == Some(before.bp_of(w))
        &&& after.bps().len() == before.bps().len()
        &&& forall|j: int| 0 <= j < before.bps().len() && j != pos ==> #[trigger] after.bps()[j] == before.bps()[j]
        &&& after.bps()[pos].0 == w
        &&& after.bps()[pos].1.kind() == WidgetKind::Dummy
        &&& after.bps()[pos].1.id() == "dummy"@
        &&& after.bps()[pos].1.meta_spec().index == 0
    }
    &&& !before.has_key(w) ==> r is None && after.bps() == before.bps()
    &&& after.props() == before.props()
    &&& after.counter() == before.counter()
    &&& after.creator_entries() == before.creator_entries()
    &&& after.design_mode() == before.design_mode()
}

/// What putting `bp` back under `w` does: a placed `w` gets `bp` in its
/// place; otherwise nothing changes.
pub open spec fn blueprint_put_back(before: Factory, after: Factory, w: Seq<char>, bp: AnyBlueprint) -> bool {
    &&& after.wf()
    &&& before.has_key(w) ==> after.bps() == before.bps().update(key_pos(before.bps(), w), (w, bp))
    &&& !before.has_key(w) ==> after.bps() == before.bps()
    &&& after.props() == before.props()
    &&& after.counter() == before.counter()
    &&& after.creator_entries() == before.creator_entries()
    &&& after.design_mode() == before.design_mode()
}

/// Taking a blueprint out for an event and putting it back restores the
/// widgets as they were.
pub proof fn law_take_then_put_back(f1: Factory, f2: Factory, f3: Factory, w: Seq<char>, r: Option<AnyBlueprint>)
    requires
        f1.wf(),
        blueprint_taken(f1, f2, w, r),
        r is Some,
        blueprint_put_back(f2, f3, w, r->0),
    ensures
        f3.bps() == f1.bps(),
        f3.props() == f1.props(),
{
    let pos = key_pos(f1.bps(), w);
    let i = choose|j: int| 0 <= j < f1.bps().len() && (#[trigger] f1.bps()[j]).0 == w;
    lemma_key_pos_at(f1.bps(), i);
    lemma_key_pos_at(f2.bps(), pos);
    assert(f3.bps() =~= f1.bps());
}

/// The store of a form under design: the registered widget makers, the
/// blueprints of the placed widgets in their order, the table of their
/// properties, the counter that names new widgets, and the design mode.
#[derive(Debug)]
pub struct Factory {
    creators: Vec<CreatorEntry>,
    blueprints: IndexMap<String, AnyBlueprint>,
    field_values: PropertyStorage,
    pub field_counter: usize,
    is_design_mode: bool,
}

impl Factory {
    /// The placed widgets in their order: each id with its blueprint.
    pub closed spec fn bps(&self) -> Seq<(Seq<char>, AnyBlueprint)> {
        blueprint_entries(self.blueprints)
    }

    /// The ids of the placed widgets, in their order.
    pub open spec fn keys(&self) -> Seq<Seq<char>> {
        keys_in(self.bps())
    }

    /// The property table.
    pub closed spec fn props(&self) -> PropertyStorage {
        self.field_values
    }

    /// The registered makers.
    pub closed spec fn creator_entries(&self) -> Seq<CreatorEntry> {
        self.creators@
    }

    /// The counter that names new widgets.
    pub closed spec fn counter(&self) -> usize {
        self.field_counter
    }

    /// The design mode flag.
    pub closed spec fn design_mode(&self) -> bool {
        self.is_design_mode
    }

    /// The kind registered under a type name, if any.
    pub open spec fn creator_of(&self, name: Seq<char>) -> Option<WidgetKind> {
        if exists|i: int| 0 <= i < self.creator_entries().len() && (#[trigger] self.creator_entries()[i]).name@ == name {
            Some(self.creator_entries()[choose|i: int| 0 <= i < self.creator_entries().len() && (#[trigger] self.creator_entries()[i]).name@ == name].kind)
        } else {
            None
        }
    }

    /// Widget ids are unique, the property table is well formed, and type
    /// names are registered once.
    pub open spec fn wf(&self) -> bool {
        &&& keys_unique(self.bps())
        &&& self.props().wf()
        &&& forall|i: int, j: int| 0 <= i < self.creator_entries().len() && 0 <= j < self.creator_entries().len() && i != j
            ==> (#[trigger] self.creator_entries()[i]).name@ != (#[trigger] self.creator_entries()[j]).name@
    }

    /// The value stored for a widget and property hash.
    pub open spec fn value_of(&self, w: Seq<char>, p: u64) -> Option<StoredValue> {
        self.props().lookup(w, p)
    }

    /// The parent a widget names.
    pub open spec fn parent_of(&self, w: Seq<char>) -> Seq<char> {
        parent_in(self.props(), w)
    }

    /// The id reached from `start` after `n` steps up the parent chain.
    pub open spec fn walk(&self, start: Seq<char>, n: nat) -> Seq<char> {
        walk_in(self.props(), start, n)
    }

    /// A widget id is placed.
    pub open spec fn has_key(&self, id: Seq<char>) -> bool {
        has_key_in(self.bps(), id)
    }

    /// The blueprint placed under an id.
    pub open spec fn bp_of(&self, id: Seq<char>) -> AnyBlueprint {
        bp_in(self.bps(), id)
    }

    /// Ids of the placed widgets that are children of `parent`, in order.
    pub open spec fn children_keys(&self, parent: Seq<char>) -> Seq<Seq<char>> {
        self.keys().filter(child_pred_in(self.props(), parent))
    }

    /// The placed widgets that are children of `parent`, in order.
    pub open spec fn children_entries(&self, parent: Seq<char>) -> Seq<(Seq<char>, AnyBlueprint)> {
        children_entries_in(self.props(), self.bps(), parent)
    }

    /// Whether a blueprint takes a child now.
    pub open spec fn accepts_child(&self, bp: AnyBlueprint) -> bool {
        accepts_in(self.props(), self.bps(), bp)
    }

    /// Whether a widget of kind `k` with id `id` takes a child now.
    pub open spec fn accepts_kind(&self, k: WidgetKind, id: Seq<char>) -> bool {
        accepts_kind_in(self.props(), self.bps(), k, id)
    }

    /// The parent granted to a request to put `child` under `parent_id`.
    pub open spec fn parent_assignment(&self, child: Seq<char>, parent_id: Seq<char>) -> Option<Seq<char>> {
        parent_assignment_in(self.props(), self.bps(), child, parent_id)
    }

    /// A factory with every widget kind of the registry registered, no
    /// widgets, an empty property table, the counter at 0, in design mode.
    pub fn new() -> (f: Factory)
        ensures
            f.wf(),
            f.bps().len() == 0,
            f.props()@ == Map::<(Seq<char>, u64), StoredValue>::empty(),
            f.counter() == 0,
            f.design_mode(),
            chains_end_in(f.props()),
            forall|i: int| 0 <= i < registered_kinds().len() ==> f.creator_of(kind_type_name(#[trigger] registered_kinds()[i])) == Some(registered_kinds()[i]),
            forall|n: Seq<char>| #[trigger] f.creator_of(n) is Some ==> exists|i: int| 0 <= i < registered_kinds().len() && n == kind_type_name(#[trigger] registered_kinds()[i]),
    {
        let mut f = Factory {
            creators: Vec::new(),
            blueprints: bp_map_new(),
            field_values: PropertyStorage::new(),
            field_counter: 0,
            is_design_mode: true,
        };
        let reg = registered_widgets();
        proof {
            lemma_registered_names_distinct();
        }
        let mut i: usize = 0;
        while i < reg.len()
            invariant
                0 <= i <= reg@.len(),
                f.wf(),
                f.bps().len() == 0,
                f.props()@ == Map::<(Seq<char>, u64), StoredValue>::empty(),
                f.counter() == 0,
                f.design_mode(),
                reg@.len() == registered_kinds().len(),
                forall|a: int| 0 <= a < reg@.len() ==> {
                    &&& (#[trigger] reg@[a]).kind == registered_kinds()[a]
                    &&& reg@[a].name@ == kind_type_name(reg@[a].kind)
                },
                forall|a: int, b: int| 0 <= a < b < reg@.len() ==> kind_type_name(#[trigger] registered_kinds()[a]) != kind_type_name(#[trigger] registered_kinds()[b]),
                forall|a: int| 0 <= a < i ==> f.creator_of(kind_type_name(#[trigger] registered_kinds()[a])) == Some(registered_kinds()[a]),
                forall|n: Seq<char>| #[trigger] f.creator_of(n) is Some ==> exists|a: int| 0 <= a < i && n == kind_type_name(#[trigger] registered_kinds()[a]),
            decreases reg@.len() - i,
        {
            let entry = reg[i];
            let ghost before = f;
            f.creator_register_type(entry.name, entry.kind);
            proof {
                assert forall|n: Seq<char>| #[trigger] f.creator_of(n) is Some implies exists|a: int| 0 <= a < i + 1 && n == kind_type_name(#[trigger] registered_kinds()[a]) by {
                    if n == entry.name@ {
                        assert(n == kind_type_name(registered_kinds()[i as int]));
                    } else {
                        assert(before.creator_of(n) is Some);
                    }
                }
            }
            i += 1;
        }
        proof {
            lemma_empty_table_chains(f.props());
        }
        f
    }

    /// Registers (or replaces) the maker for a widget type name.
    pub fn creator_register_type(&mut self, name: &str, kind: WidgetKind)
        requires
            old(self).wf(),
        ensures
            final(self).wf(),
            final(self).creator_of(name@) == Some(kind),
            forall|n: Seq<char>| n != name@ ==> final(self).creator_of(n) == old(self).creator_of(n),
            final(self).bps() == old(self).bps(),
            final(self).props() == old(self).props(),
            final(self).counter() == old(self).counter(),
            final(self).design_mode() == old(self).design_mode(),
    {
        let ghost old_c = self.creators@;
        let mut i: usize = 0;
        while i < self.creators.len()
            invariant
                0 <= i <= self.creators@.len(),
                self.creators@ == old_c,
                old_c == old(self).creator_entries(),
                self.blueprints == old(self).blueprints,
                self.field_values == old(self).field_values,
                self.field_counter == old(self).field_counter,
                self.is_design_mode == old(self).is_design_mode,
                old(self).wf(),
                forall|j: int| 0 <= j < i ==> (#[trigger] self.creators@[j]).name@ != name@,
            decreases self.creators@.len() - i,
        {
            if str_eq(self.creators[i].name.as_str(), name) {
                self.creators.set(i, CreatorEntry { name: owned(name), kind });
                assert forall|a: int, b: int| 0 <= a < self.creators@.len() && 0 <= b < self.creators@.len() && a != b
                    implies (#[trigger] self.creators@[a]).name@ != (#[trigger] self.creators@[b]).name@ by {
                    assert(old(self).creator_entries()[a].name@ != old(self).creator_entries()[b].name@);
                }
                assert forall|n: Seq<char>| n != name@ implies #[trigger] self.creator_of(n) == old(self).creator_of(n) by {
                    if exists|j: int| 0 <= j < old_c.len() && (#[trigger] old_c[j]).name@ == n {
                        let j = choose|j: int| 0 <= j < old_c.len() && (#[trigger] old_c[j]).name@ == n;
                        assert(self.creators@[j].name@ == n);
                        let c = choose|c: int| 0 <= c < self.creators@.len() && (#[trigger] self.creators@[c]).name@ == n;
                        assert(c == j);
                    }
                    if exists|j: int| 0 <= j < self.creators@.len() && (#[trigger] self.creators@[j]).name@ == n {
                        let j = choose|j: int| 0 <= j < self.creators@.len() && (#[trigger] self.creators@[j]).name@ == n;
                        assert(old_c[j].name@ == n);
                    }
                }
                assert(self.creators@[i as int].name@ == name@);
                return;
            }
            i += 1;
        }
        self.creators.push(CreatorEntry { name: owned(name), kind });
        let ghost n0 = old_c.len() as int;
        assert forall|a: int, b: int| 0 <= a < self.creators@.len() && 0 <= b < self.creators@.len() && a != b
            implies (#[trigger] self.creators@[a]).name@ != (#[trigger] self.creators@[b]).name@ by {
            if a < n0 && b < n0 {
                assert(old(self).creator_entries()[a].name@ != old(self).creator_entries()[b].name@);
            }
        }
        assert(self.creators@[n0].name@ == name@);
        assert forall|n: Seq<char>| n != name@ implies #[trigger] self.creator_of(n) == old(self).creator_of(n) by {
            if exists|j: int| 0 <= j < old_c.len() && (#[trigger] old_c[j]).name@ == n {
                let j = choose|j: int| 0 <= j < old_c.len() && (#[trigger] old_c[j]).name@ == n;
                assert(self.creators@[j].name@ == n);
            }
        }
    }

    /// Removes every widget and every property, and sets the counter to 0.
    pub fn clear_all(&mut self)
        requires
            old(self).wf(),
        ensures
            final(self).wf(),
            final(self).bps().len() == 0,
            final(self).props()@ == Map::<(Seq<char>, u64), StoredValue>::empty(),
            final(self).counter() == 0,
            final(self).creator_entries() == old(self).creator_entries(),
            final(self).design_mode() == old(self).design_mode(),
            chains_end_in(final(self).props()),
    {
        bp_map_clear(&mut self.blueprints);
        self.field_values.clear_all();
        self.field_counter = 0;
        proof {
            lemma_empty_table_chains(self.props());
        }
    }

    /// Removes every widget; properties and the counter stay.
    pub fn clear_blueprints(&mut self)
        requires
            old(self).wf(),
        ensures
            final(self).wf(),
            final(self).bps().len() == 0,
            final(self).props() == old(self).props(),
            final(self).counter() == old(self).counter(),
            final(self).creator_entries() == old(self).creator_entries(),
            final(self).design_mode() == old(self).design_mode(),
    {
        bp_map_clear(&mut self.blueprints);
    }

    /// Puts a blueprint under an id: in place if the id is there, else last.
    pub fn insert_blueprint(&mut self, unique_id: &String, blueprint: AnyBlueprint)
        requires
            old(self).wf(),
        ensures
            final(self).wf(),
            final(self).bps() == entries_insert(old(self).bps(), unique_id@, blueprint),
            final(self).props() == old(self).props(),
            final(self).counter() == old(self).counter(),
            final(self).creator_entries() == old(self).creator_entries(),
            final(self).design_mode() == old(self).design_mode(),
    {
        let ghost s = self.bps();
        let ghost key = unique_id@;
        let _ = bp_map_insert(&mut self.blueprints, unique_id.clone(), blueprint);
        proof {
            if exists|j: int| 0 <= j < s.len() && (#[trigger] s[j]).0 == key {
                let j = choose|j: int| 0 <= j < s.len() && (#[trigger] s[j]).0 == key;
                assert(self.bps() == s.update(j, (key, blueprint)));
                assert forall|a: int, b: int| 0 <= a < self.bps().len() && 0 <= b < self.bps().len() && a != b
                    implies (#[trigger] self.bps()[a]).0 != (#[trigger] self.bps()[b]).0 by {
                    assert(s[a].0 != s[b].0);
                }
            } else {
                assert forall|a: int, b: int| 0 <= a < self.bps().len() && 0 <= b < self.bps().len() && a != b
                    implies (#[trigger] self.bps()[a]).0 != (#[trigger] self.bps()[b]).0 by {
                    if a < s.len() && b < s.len() {
                        assert(s[a].0 != s[b].0);
                    }
                }
            }
        }
    }

    /// The texts stored by the property table, one per entry.
    pub open spec fn parent_texts(&self) -> Seq<Seq<char>> {
        self.props().entries().map_values(|e: PropEntry| text_or_empty(e.value))
    }

    /// A non-empty parent is one of the stored texts.
    pub proof fn lemma_parent_in_texts(&self, x: Seq<char>)
        requires
            self.wf(),
            self.parent_of(x).len() > 0,
        ensures
            self.parent_texts().contains(self.parent_of(x)),
    {
        self.props().lemma_lookup_entry(x, parent_hash());
        let i = choose|i: int| 0 <= i < self.props().entries().len() && crate::storage::entry_key(#[trigger] self.props().entries()[i]) == (x, parent_hash())
            && self.props().entries()[i].value == self.props()@[(x, parent_hash())];
        assert(self.parent_texts()[i] == self.parent_of(x));
    }

    /// Once the walk comes back to an id it met before, it repeats the
    /// steps between.
    pub proof fn lemma_walk_repeats(&self, start: Seq<char>, a: nat, b: nat, m: nat)
        requires
            a < b,
            walk_in(self.props(), start, a) == walk_in(self.props(), start, b),
            a <= m,
        ensures
            exists|k: nat| a <= k < b && #[trigger] walk_in(self.props(), start, k) == walk_in(self.props(), start, m),
        decreases m,
    {
        if m < b {
            assert(walk_in(self.props(), start, m) == walk_in(self.props(), start, m));
        } else {
            self.lemma_walk_repeats(start, a, b, (m - 1) as nat);
            let k = choose|k: nat| a <= k < b && #[trigger] walk_in(self.props(), start, k) == walk_in(self.props(), start, (m - 1) as nat);
            assert(walk_in(self.props(), start, m) == self.parent_of(walk_in(self.props(), start, (m - 1) as nat)));
            if k + 1 < b {
                assert(walk_in(self.props(), start, (k + 1) as nat) == self.parent_of(walk_in(self.props(), start, k)));
            } else {
                assert(walk_in(self.props(), start, b) == self.parent_of(walk_in(self.props(), start, k)));
            }
        }
    }

    /// Walks up the parent chain from `start`, looking for `child`.
    pub fn walk_to_root(&self, start: &str, child: &str) -> (r: WalkOutcome)
        requires
            self.wf(),
        ensures
            r == WalkOutcome::Clean ==> walk_ends_clean_in(self.props(), start@, child@),
            r == WalkOutcome::HitsChild ==> walk_hits_in(self.props(), start@, child@),
            r == WalkOutcome::Cycle ==> walk_cycles_in(self.props(), start@, child@),
    {
        let mut visited: Vec<String> = Vec::new();
        let mut cur: String = owned(start);
        let ghost st = start@;
        let ghost ch = child@;
        let ghost bound = self.parent_texts().len() + 1;
        loop
            invariant
                self.wf(),
                st == start@,
                ch == child@,
                bound == self.parent_texts().len() + 1,
                cur@ == walk_in(self.props(), st, visited@.len() as nat),
                forall|m: int| 0 <= m < visited@.len() ==> (#[trigger] visited@[m])@ == walk_in(self.props(), st, m as nat),
                clear_before_in(self.props(), st, ch, visited@.len() as nat),
                forall|a: nat, b: nat| a < b < visited@.len() ==> #[trigger] walk_in(self.props(), st, a) != #[trigger] walk_in(self.props(), st, b),
                visited@.len() <= bound,
            decreases bound - visited@.len(),
        {
            let ghost n = visited@.len() as nat;
            if cur.as_str().is_empty() {
                assert(walk_in(self.props(), st, n).len() == 0 && clear_before_in(self.props(), st, ch, n));
                return WalkOutcome::Clean;
            }
            if str_eq(cur.as_str(), child) {
                assert(walk_in(self.props(), st, n).len() > 0 && walk_in(self.props(), st, n) == ch && clear_before_in(self.props(), st, ch, n));
                return WalkOutcome::HitsChild;
            }
            let mut j: usize = 0;
            while j < visited.len()
                invariant
                    0 <= j <= visited@.len(),
                    n == visited@.len(),
                    self.wf(),
                    st == start@,
                    ch == child@,
                    bound == self.parent_texts().len() + 1,
                    cur@ == walk_in(self.props(), st, n),
                    cur@.len() > 0,
                    cur@ != ch,
                    forall|m: int| 0 <= m < visited@.len() ==> (#[trigger] visited@[m])@ == walk_in(self.props(), st, m as nat),
                    clear_before_in(self.props(), st, ch, n),
                    forall|a: nat, b: nat| a < b < visited@.len() ==> #[trigger] walk_in(self.props(), st, a) != #[trigger] walk_in(self.props(), st, b),
                    visited@.len() <= bound,
                    forall|m: int| 0 <= m < j ==> (#[trigger] visited@[m])@ != cur@,
                decreases visited@.len() - j,
            {
                if str_eq(visited[j].as_str(), cur.as_str()) {
                    proof {
                        let a = j as nat;
                        assert(walk_in(self.props(), st, a) == walk_in(self.props(), st, n));
                        assert forall|m: nat| (#[trigger] walk_in(self.props(), st, m)).len() > 0 && walk_in(self.props(), st, m) != ch by {
                            if m >= a {
                                self.lemma_walk_repeats(st, a, n, m);
                                let k = choose|k: nat| a <= k < n && #[trigger] walk_in(self.props(), st, k) == walk_in(self.props(), st, m);
                                assert(walk_in(self.props(), st, k).len() > 0 && walk_in(self.props(), st, k) != ch);
                            } else {
                                assert(walk_in(self.props(), st, m).len() > 0 && walk_in(self.props(), st, m) != ch);
                            }
                        }
                    }
                    return WalkOutcome::Cycle;
                }
                j += 1;
            }
            proof {
                // The steps 1..=n are distinct non-empty stored texts.
                let t = Seq::new(n, |m: int| walk_in(self.props(), st, (m + 1) as nat));
                assert forall|a: int, b: int| 0 <= a < t.len() && 0 <= b < t.len() && a != b implies t[a] != t[b] by {
                    if a < b {
                        if b + 1 < n {
                            assert(walk_in(self.props(), st, (a + 1) as nat) != walk_in(self.props(), st, (b + 1) as nat));
                        } else {
                            assert(visited@[a + 1]@ == walk_in(self.props(), st, (a + 1) as nat));
                        }
                    } else {
                        if a + 1 < n {
                            assert(walk_in(self.props(), st, (b + 1) as nat) != walk_in(self.props(), st, (a + 1) as nat));
                        } else {
                            assert(visited@[b + 1]@ == walk_in(self.props(), st, (b + 1) as nat));
                        }
                    }
                }
                assert forall|i: int| 0 <= i < t.len() implies self.parent_texts().contains(#[trigger] t[i]) by {
                    let w = walk_in(self.props(), st, i as nat);
                    assert(t[i] == self.parent_of(w));
                    if i + 1 < n {
                        assert(walk_in(self.props(), st, (i + 1) as nat).len() > 0);
                    }
                    self.lemma_parent_in_texts(w);
                }
                lemma_distinct_within(t, self.parent_texts());
            }
            let next = self.parent_string(cur.as_str());
            visited.push(cur);
            cur = next;
            proof {
                assert forall|m: nat| m < n + 1 implies (#[trigger] walk_in(self.props(), st, m)).len() > 0 && walk_in(self.props(), st, m) != ch by {
                    if m < n {
                    }
                }
                assert forall|a: nat, b: nat| a < b < n + 1 implies #[trigger] walk_in(self.props(), st, a) != #[trigger] walk_in(self.props(), st, b) by {
                    if b == n {
                        assert(visited@[a as int]@ == walk_in(self.props(), st, a));
                    }
                }
            }
        }
    }

    /// A walk ends in at most one way.
    pub proof fn lemma_walk_exclusive(&self, st: Seq<char>, ch: Seq<char>)
        ensures
            walk_hits_in(self.props(), st, ch) ==> !walk_ends_clean_in(self.props(), st, ch),
            walk_cycles_in(self.props(), st, ch) ==> !walk_ends_clean_in(self.props(), st, ch),
    {
        if walk_hits_in(self.props(), st, ch) && walk_ends_clean_in(self.props(), st, ch) {
            let n1 = choose|n: nat| (#[trigger] walk_in(self.props(), st, n)).len() > 0 && walk_in(self.props(), st, n) == ch && clear_before_in(self.props(), st, ch, n);
            let n2 = choose|n: nat| (#[trigger] walk_in(self.props(), st, n)).len() == 0 && clear_before_in(self.props(), st, ch, n);
            if n1 < n2 {
                assert(walk_in(self.props(), st, n1) != ch);
            } else if n2 < n1 {
                assert(walk_in(self.props(), st, n2).len() > 0);
            }
        }
        if walk_cycles_in(self.props(), st, ch) && walk_ends_clean_in(self.props(), st, ch) {
            let n2 = choose|n: nat| (#[trigger] walk_in(self.props(), st, n)).len() == 0 && clear_before_in(self.props(), st, ch, n);
            assert(walk_in(self.props(), st, n2).len() > 0);
        }
    }

    /// Puts a widget under a new parent, named by a request already
    /// trimmed and lower-cased, when `clean_assignment_in` grants it; the
    /// chain of parents never comes to run in a circle.
    pub fn set_parent_normalized(&mut self, child_id: &str, clean_parent: &str)
        requires
            old(self).wf(),
        ensures
            final(self).wf(),
            final(self).bps() == old(self).bps(),
            final(self).counter() == old(self).counter(),
            final(self).creator_entries() == old(self).creator_entries(),
            final(self).design_mode() == old(self).design_mode(),
            match clean_assignment_in(old(self).props(), old(self).bps(), child_id@, clean_parent@) {
                Some(t) => props_with_text(old(self).props()@, final(self).props()@, (child_id@, parent_hash()), t),
                None => final(self).props()@ == old(self).props()@,
            },
            chains_end_in(old(self).props()) ==> chains_end_in(final(self).props()),
    {
        let ghost t = clean_target(child_id@, clean_parent@);
        if bp_map_get_index_of(&self.blueprints, child_id).is_none() {
            return;
        }
        let target: String = if str_eq(child_id, clean_parent) || str_eq(clean_parent, "root") {
            String::new()
        } else {
            owned(clean_parent)
        };
        assert(target@ == t);
        let mut can_assign = target.as_str().is_empty();
        if !target.as_str().is_empty() {
            let outcome = self.walk_to_root(target.as_str(), child_id);
            proof {
                self.lemma_walk_exclusive(t, child_id@);
            }
            match outcome {
                WalkOutcome::Clean => {},
                _ => {
                    return;
                },
            }
            match bp_map_get_index_of(&self.blueprints, target.as_str()) {
                Some(i) => {
                    let (_, bp) = bp_map_get_index(&self.blueprints, i).unwrap();
                    proof {
                        let c = choose|j: int| 0 <= j < self.bps().len() && (#[trigger] self.bps()[j]).0 == t;
                        assert(c == i);
                    }
                    if self.can_accept_child(bp) {
                        can_assign = true;
                    }
                },
                None => {},
            }
        }
        if can_assign {
            let key = prop_parent();
            let ghost before = self.props()@;
            let ghost pb = self.props();
            self.set(child_id, &key, StoredValue::Text(target));
            proof {
                let k = (child_id@, parent_hash());
                assert(self.props()@.remove(k) =~= before.remove(k));
                if chains_end_in(pb) {
                    lemma_parent_after_text(pb, self.props(), child_id@, t);
                    if t.len() == 0 {
                        assert(walk_in(pb, t, 0).len() == 0);
                        assert(clear_before_in(pb, t, child_id@, 0));
                    }
                    lemma_repoint_keeps_chains(pb, self.props(), child_id@, t);
                }
            }
        }
    }

    /// Puts `child_id` under the container `parent_id` (trimmed and
    /// lower-cased; the child itself and "root" mean the root). The request
    /// is refused, leaving everything as it was, when the child is not
    /// placed, when the new parent lies below the child (or the chain above
    /// it runs in a circle), or when the new parent is not a placed widget
    /// that takes a child now. A granted request never makes the chain of
    /// parents run in a circle.
    pub fn set_blueprint_parent(&mut self, child_id: &str, parent_id: &str)
        requires
            old(self).wf(),
        ensures
            final(self).wf(),
            final(self).bps() == old(self).bps(),
            final(self).counter() == old(self).counter(),
            final(self).creator_entries() == old(self).creator_entries(),
            final(self).design_mode() == old(self).design_mode(),
            match old(self).parent_assignment(child_id@, parent_id@) {
                Some(t) => props_with_text(old(self).props()@, final(self).props()@, (child_id@, parent_hash()), t),
                None => final(self).props()@ == old(self).props()@,
            },
            chains_end_in(old(self).props()) ==> chains_end_in(final(self).props()),
    {
        let clean = normalize_key(parent_id);
        self.set_parent_normalized(child_id, clean.as_str());
    }

    /// The kind registered under a type name, if any.
    pub fn find_creator(&self, name: &str) -> (r: Option<WidgetKind>)
        requires
            self.wf(),
        ensures
            r == self.creator_of(name@),
    {
        let mut i: usize = 0;
        while i < self.creators.len()
            invariant
                0 <= i <= self.creators@.len(),
                self.wf(),
                forall|j: int| 0 <= j < i ==> (#[trigger] self.creators@[j]).name@ != name@,
            decreases self.creators@.len() - i,
        {
            if str_eq(self.creators[i].name.as_str(), name) {
                proof {
                    let c = choose|c: int| 0 <= c < self.creator_entries().len() && (#[trigger] self.creator_entries()[c]).name@ == name@;
                    assert(self.creator_entries()[i as int].name@ == name@);
                    assert(c == i);
                }
                return Some(self.creators[i].kind);
            }
            i += 1;
        }
        None
    }

    /// Creates a widget of the given type: the counter goes up by one and
    /// names the widget "widget_<counter>"; the blueprint is placed under
    /// that id when a maker is registered for the type. The id is returned
    /// either way.
    pub fn create_blueprint(&mut self, w_type: &str) -> (r: String)
        requires
            old(self).wf(),
            old(self).counter() < usize::MAX,
        ensures
            final(self).wf(),
            final(self).counter() == old(self).counter() + 1,
            r@ == widget_id_for(final(self).counter() as nat),
            final(self).bps() == created_bps(old(self).bps(), old(self).creator_of(w_type@), r),
            final(self).props() == old(self).props(),
            final(self).creator_entries() == old(self).creator_entries(),
            final(self).design_mode() == old(self).design_mode(),
    {
        self.field_counter += 1;
        let mut unique_id = owned("widget_");
        let digits = usize_to_string(self.field_counter);
        unique_id.append(digits.as_str());
        match self.find_creator(w_type) {
            Some(kind) => {
                let bp = kind.create(unique_id.clone());
                self.insert_blueprint(&unique_id, bp);
            },
            None => {},
        }
        unique_id
    }

    /// The nearest container at or above `start` that takes a child now.
    pub fn find_container(&self, start: &str) -> (r: Option<String>)
        requires
            self.wf(),
        ensures
            match r {
                Some(s) => container_search_in(self.props(), self.bps(), start@) == Some(s@),
                None => container_search_in(self.props(), self.bps(), start@) is None,
            },
    {
        let mut visited: Vec<String> = Vec::new();
        let mut cur: String = owned(start);
        let ghost st = start@;
        let ghost p = self.props();
        let ghost bps = self.bps();
        let ghost bound = parent_texts_in(p).len() + 1;
        loop
            invariant
                self.wf(),
                st == start@,
                p == self.props(),
                bps == self.bps(),
                bound == parent_texts_in(p).len() + 1,
                cur@ == walk_in(p, st, visited@.len() as nat),
                forall|m: int| 0 <= m < visited@.len() ==> (#[trigger] visited@[m])@ == walk_in(p, st, m as nat),
                search_clear_before(p, bps, st, visited@.len() as nat),
                forall|a: nat, b: nat| a < b < visited@.len() ==> #[trigger] walk_in(p, st, a) != #[trigger] walk_in(p, st, b),
                forall|m: nat| m < visited@.len() ==> (#[trigger] walk_in(p, st, m)).len() > 0,
                visited@.len() <= bound,
            decreases bound - visited@.len(),
        {
            let ghost n = visited@.len() as nat;
            if cur.as_str().is_empty() || str_eq(cur.as_str(), "root") {
                proof {
                    assert(search_stops_first(p, bps, st, n));
                    let c = choose|c: nat| #[trigger] search_stops_first(p, bps, st, c);
                    lemma_search_first_unique(p, bps, st, c, n);
                }
                return None;
            }
            let mut found = false;
            match bp_map_get_index_of(&self.blueprints, cur.as_str()) {
                Some(i) => {
                    let (_, bp) = bp_map_get_index(&self.blueprints, i).unwrap();
                    proof {
                        let c = choose|j: int| 0 <= j < bps.len() && (#[trigger] bps[j]).0 == cur@;
                        assert(c == i);
                    }
                    found = self.can_accept_child(bp);
                },
                None => {},
            }
            if found {
                proof {
                    assert(search_stops_first(p, bps, st, n));
                    let c = choose|c: nat| #[trigger] search_stops_first(p, bps, st, c);
                    lemma_search_first_unique(p, bps, st, c, n);
                }
                return Some(cur);
            }
            assert(!search_stops(p, bps, walk_in(p, st, n)));
            let mut j: usize = 0;
            while j < visited.len()
                invariant
                    0 <= j <= visited@.len(),
                    n == visited@.len(),
                    self.wf(),
                    st == start@,
                    p == self.props(),
                    bps == self.bps(),
                    bound == parent_texts_in(p).len() + 1,
                    cur@ == walk_in(p, st, n),
                    cur@.len() > 0,
                    !search_stops(p, bps, walk_in(p, st, n)),
                    forall|m: int| 0 <= m < visited@.len() ==> (#[trigger] visited@[m])@ == walk_in(p, st, m as nat),
                    search_clear_before(p, bps, st, n),
                    forall|a: nat, b: nat| a < b < visited@.len() ==> #[trigger] walk_in(p, st, a) != #[trigger] walk_in(p, st, b),
                    forall|m: nat| m < visited@.len() ==> (#[trigger] walk_in(p, st, m)).len() > 0,
                    visited@.len() <= bound,
                    forall|m: int| 0 <= m < j ==> (#[trigger] visited@[m])@ != cur@,
                decreases visited@.len() - j,
            {
                if str_eq(visited[j].as_str(), cur.as_str()) {
                    proof {
                        let a = j as nat;
                        assert(walk_in(p, st, a) == walk_in(p, st, n));
                        assert forall|m: nat| !(#[trigger] search_stops_first(p, bps, st, m)) by {
                            if search_stops_first(p, bps, st, m) {
                                if m >= a {
                                    self.lemma_walk_repeats(st, a, n, m);
                                    let k = choose|k: nat| a <= k < n && #[trigger] walk_in(p, st, k) == walk_in(p, st, m);
                                    assert(!search_stops(p, bps, walk_in(p, st, k)));
                                } else {
                                    assert(!search_stops(p, bps, walk_in(p, st, m)));
                                }
                            }
                        }
                    }
                    return None;
                }
                j += 1;
            }
            proof {
                assert forall|a: nat, b: nat| a < b <= n implies #[trigger] walk_in(p, st, a) != #[trigger] walk_in(p, st, b) by {
                    if b == n {
                        assert(visited@[a as int]@ == walk_in(p, st, a));
                    }
                }
                lemma_walk_bound(p, st, n);
            }
            let next = self.parent_string(cur.as_str());
            visited.push(cur);
            cur = next;
            proof {
                assert forall|a: nat, b: nat| a < b < n + 1 implies #[trigger] walk_in(p, st, a) != #[trigger] walk_in(p, st, b) by {
                    if b == n {
                        assert(visited@[a as int]@ == walk_in(p, st, a));
                    }
                }
                assert forall|m: nat| m < n + 1 implies !search_stops(p, bps, #[trigger] walk_in(p, st, m)) by {
                    if m < n {
                    }
                }
            }
        }
    }

    /// Adds a widget of the given type (see `create_blueprint`) and places
    /// it: inside the nearest container at or above the selected widget
    /// that takes a child now (through `set_blueprint_parent`), or at the
    /// root when nothing is selected or no such container is found.
    pub fn add_widget(&mut self, widget_type: &str, selected_id: Option<&str>) -> (r: String)
        requires
            old(self).wf(),
            old(self).counter() < usize::MAX,
        ensures
            widget_added(*old(self), *final(self), widget_type@, opt_view(selected_id), r),
    {
        let new_id = self.create_blueprint(widget_type);
        let target: Option<String> = match selected_id {
            Some(a) => self.find_container(a),
            None => None,
        };
        match target {
            Some(t) => {
                self.set_blueprint_parent(new_id.as_str(), t.as_str());
            },
            None => {
                let key = prop_parent();
                let ghost before = self.props()@;
                let ghost pb = self.props();
                self.set(new_id.as_str(), &key, StoredValue::Text(String::new()));
                proof {
                    let k = (new_id@, parent_hash());
                    assert(self.props()@.remove(k) =~= before.remove(k));
                    if chains_end_in(pb) {
                        lemma_root_keeps_chains(pb, self.props(), new_id@);
                    }
                }
            },
        }
        new_id
    }

    /// The ids of `root` and of every placed widget below it, without
    /// repeats, `root` first.
    fn collect_subtree(&self, root: &str) -> (r: Vec<String>)
        requires
            self.wf(),
        ensures
            string_views(r@).no_duplicates(),
            forall|k: Seq<char>| string_views(r@).contains(k) <==> in_subtree(self.props(), self.bps(), root@, k),
    {
        let ghost p = self.props();
        let ghost bps = self.bps();
        let mut out: Vec<String> = Vec::new();
        out.push(owned(root));
        proof {
            assert(is_descent(p, bps, root@, seq![root@]));
        }
        let mut i: usize = 0;
        while i < out.len()
            invariant
                self.wf(),
                p == self.props(),
                bps == self.bps(),
                out@.len() > 0,
                out@[0]@ == root@,
                i <= out@.len(),
                string_views(out@).no_duplicates(),
                forall|t: int| 0 < t < out@.len() ==> has_key_in(bps, #[trigger] string_views(out@)[t]),
                forall|t: int| 0 <= t < out@.len() ==> in_subtree(p, bps, root@, #[trigger] string_views(out@)[t]),
                forall|t: int, j: int| #![trigger string_views(out@)[t], bps[j]] 0 <= t < i && 0 <= j < bps.len() && parent_matches(string_views(out@)[t], parent_in(p, bps[j].0))
                    ==> string_views(out@).contains(bps[j].0),
                out@.len() <= bps.len() + 1,
            decreases bps.len() + 1 - i,
        {
            let q = out[i].clone();
            let kids = self.get_children_ids_by_parent(q.as_str());
            let ghost kv = string_views(kids@);
            let ghost f = child_pred_in(p, q@);
            assert(kv == self.keys().filter(f));
            let mut c: usize = 0;
            while c < kids.len()
                invariant
                    self.wf(),
                    p == self.props(),
                    bps == self.bps(),
                    i < out@.len(),
                    q@ == string_views(out@)[i as int],
                    kv == string_views(kids@),
                    kv == self.keys().filter(f),
                    f == child_pred_in(p, q@),
                    c <= kids@.len(),
                    out@.len() > 0,
                    out@[0]@ == root@,
                    string_views(out@).no_duplicates(),
                    forall|t: int| 0 < t < out@.len() ==> has_key_in(bps, #[trigger] string_views(out@)[t]),
                    forall|t: int| 0 <= t < out@.len() ==> in_subtree(p, bps, root@, #[trigger] string_views(out@)[t]),
                    forall|t: int, j: int| #![trigger string_views(out@)[t], bps[j]] 0 <= t < i && 0 <= j < bps.len() && parent_matches(string_views(out@)[t], parent_in(p, bps[j].0))
                        ==> string_views(out@).contains(bps[j].0),
                    forall|c2: int| 0 <= c2 < c ==> string_views(out@).contains(#[trigger] kv[c2]),
                    out@.len() <= bps.len() + 1,
                decreases kids@.len() - c,
            {
                let kid = &kids[c];
                let mut present = false;
                let mut t: usize = 0;
                while t < out.len()
                    invariant
                        t <= out@.len(),
                        !present ==> forall|t2: int| 0 <= t2 < t ==> (#[trigger] out@[t2])@ != kid@,
                        present ==> string_views(out@).contains(kid@),
                    decreases out@.len() - t,
                {
                    if str_eq(out[t].as_str(), kid.as_str()) {
                        present = true;
                        assert(string_views(out@)[t as int] == kid@);
                    }
                    t += 1;
                }
                proof {
                    assert(kv[c as int] == kid@);
                    self.keys().lemma_filter_pred(f, c as int);
                    assert(self.keys().filter(f).contains(kv[c as int]));
                    self.keys().lemma_filter_contains_rev(f, kid@);
                }
                if !present {
                    let ghost before = string_views(out@);
                    proof {
                        // the kid is a placed widget under `q`, so it lies in the subtree
                        let ki = choose|ki: int| 0 <= ki < self.keys().len() && self.keys()[ki] == kid@;
                        assert(bps[ki].0 == kid@);
                        assert(has_key_in(bps, kid@));
                        assert(in_subtree(p, bps, root@, q@));
                        let qp = choose|path: Seq<Seq<char>>| #[trigger] is_descent(p, bps, root@, path) && path.last() == q@;
                        let kp = qp.push(kid@);
                        assert(is_descent(p, bps, root@, kp)) by {
                            assert forall|i2: int| 0 < i2 < kp.len() implies has_key_in(bps, #[trigger] kp[i2]) && parent_matches(kp[i2 - 1], parent_in(p, kp[i2])) by {
                                if i2 < qp.len() {
                                    assert(kp[i2] == qp[i2]);
                                    assert(kp[i2 - 1] == qp[i2 - 1]);
                                }
                            }
                        }
                        assert(kp.last() == kid@);
                        // the list stays short: it holds distinct placed ids and the root
                        let keys_and_root = self.keys().push(root@);
                        let nv = before.push(kid@);
                        assert(nv.no_duplicates()) by {
                            assert forall|a: int, b: int| 0 <= a < nv.len() && 0 <= b < nv.len() && a != b implies nv[a] != nv[b] by {
                                if a < before.len() && b < before.len() {
                                } else if a < before.len() {
                                    assert(out@[a]@ == before[a]);
                                } else {
                                    assert(out@[b]@ == before[b]);
                                }
                            }
                        }
                        assert forall|a: int| 0 <= a < nv.len() implies keys_and_root.contains(#[trigger] nv[a]) by {
                            if a == 0 {
                                assert(keys_and_root[self.keys().len() as int] == root@);
                            } else if a < before.len() {
                                assert(has_key_in(bps, before[a]));
                                let j = choose|j: int| 0 <= j < bps.len() && (#[trigger] bps[j]).0 == before[a];
                                assert(keys_and_root[j] == before[a]);
                            } else {
                                assert(keys_and_root[ki] == kid@);
                            }
                        }
                        lemma_distinct_within(nv, keys_and_root);
                    }
                    out.push(kid.clone());
                    proof {
                        assert(string_views(out@) =~= before.push(kid@));
                        assert forall|t2: int, j: int| #![trigger string_views(out@)[t2], bps[j]] 0 <= t2 < i && 0 <= j < bps.len() && parent_matches(string_views(out@)[t2], parent_in(p, bps[j].0))
                            implies string_views(out@).contains(bps[j].0) by {
                            assert(string_views(out@)[t2] == before[t2]);
                            assert(before.contains(bps[j].0));
                            let w = choose|w: int| 0 <= w < before.len() && before[w] == bps[j].0;
                            assert(string_views(out@)[w] == bps[j].0);
                        }
                        assert forall|c2: int| 0 <= c2 < c + 1 implies string_views(out@).contains(#[trigger] kv[c2]) by {
                            if c2 < c {
                                let w = choose|w: int| 0 <= w < before.len() && before[w] == kv[c2];
                                assert(string_views(out@)[w] == kv[c2]);
                            } else {
                                assert(string_views(out@)[before.len() as int] == kv[c2]);
                            }
                        }
                    }
                }
                c += 1;
            }
            proof {
                assert forall|t: int, j: int| #![trigger string_views(out@)[t], bps[j]] 0 <= t < i + 1 && 0 <= j < bps.len() && parent_matches(string_views(out@)[t], parent_in(p, bps[j].0))
                    implies string_views(out@).contains(bps[j].0) by {
                    if t == i {
                        let kj = bps[j].0;
                        assert(self.keys()[j] == kj);
                        assert(f(kj));
                        self.keys().lemma_filter_contains(f, j);
                        let c2 = choose|c2: int| 0 <= c2 < kv.len() && kv[c2] == kj;
                        assert(string_views(out@).contains(kv[c2]));
                    }
                }
            }
            i += 1;
        }
        proof {
            let v = string_views(out@);
            assert forall|k: Seq<char>| v.contains(k) <==> in_subtree(p, bps, root@, k) by {
                if v.contains(k) {
                    let t = choose|t: int| 0 <= t < v.len() && v[t] == k;
                }
                if in_subtree(p, bps, root@, k) {
                    let path = choose|path: Seq<Seq<char>>| #[trigger] is_descent(p, bps, root@, path) && path.last() == k;
                    lemma_bfs_complete(p, bps, root@, v, path, path.len() - 1);
                }
            }
        }
        out
    }

    /// Deletes a widget together with everything below it (the placed
    /// widgets whose parent chain leads to it), and every property of each
    /// of them and of the given id. The other widgets keep their order and
    /// their properties.
    pub fn delete_widget(&mut self, widget_id: &str)
        requires
            old(self).wf(),
        ensures
            widget_deleted(*old(self), *final(self), widget_id@),
    {
        let ghost p0 = self.props();
        let ghost b0 = self.bps();
        let doomed = self.collect_subtree(widget_id);
        let ghost dv = string_views(doomed@);
        let mut j: usize = 0;
        proof {
            assert(b0.filter(outside_prefix(dv, 0)) == b0) by {
                let f = outside_prefix(dv, 0);
                assert forall|i: int| 0 <= i < b0.len() implies f(#[trigger] b0[i]) by {}
                lemma_filter_all(b0, f);
            }
            assert(p0@.restrict(p0@.dom().filter(|k: (Seq<char>, u64)| !dv.take(0).contains(k.0))) =~= p0@);
        }
        while j < doomed.len()
            invariant
                0 <= j <= doomed@.len(),
                dv == string_views(doomed@),
                self.wf(),
                self.counter() == old(self).counter(),
                self.creator_entries() == old(self).creator_entries(),
                self.design_mode() == old(self).design_mode(),
                self.bps() == b0.filter(outside_prefix(dv, j as int)),
                self.props()@ == p0@.restrict(p0@.dom().filter(|k: (Seq<char>, u64)| !dv.take(j as int).contains(k.0))),
            decreases doomed@.len() - j,
        {
            let d = &doomed[j];
            let ghost cur = self.bps();
            let ghost f = outside_prefix(dv, j as int);
            let ghost g = key_is_not(d@);
            let ghost h = outside_prefix(dv, j + 1);
            proof {
                assert(dv[j as int] == d@);
                assert forall|e: (Seq<char>, AnyBlueprint)| #[trigger] h(e) == (f(e) && g(e)) by {
                    lemma_take_contains_step(dv, j as int, e.0);
                }
                lemma_filter_filter(b0, f, g, h);
            }
            let _ = bp_map_shift_remove(&mut self.blueprints, d.as_str());
            proof {
                if exists|i: int| 0 <= i < cur.len() && (#[trigger] cur[i]).0 == d@ {
                    let i = choose|i: int| 0 <= i < cur.len() && (#[trigger] cur[i]).0 == d@;
                    lemma_filter_key_remove(cur, d@, i);
                    assert forall|a: int, b: int| 0 <= a < self.bps().len() && 0 <= b < self.bps().len() && a != b
                        implies (#[trigger] self.bps()[a]).0 != (#[trigger] self.bps()[b]).0 by {
                        let a2 = if a < i { a } else { a + 1 };
                        let b2 = if b < i { b } else { b + 1 };
                        assert(self.bps()[a] == cur[a2]);
                        assert(self.bps()[b] == cur[b2]);
                    }
                } else {
                    lemma_filter_key_absent(cur, d@);
                }
            }
            let ghost pm = self.props()@;
            self.field_values.remove_widget(d.as_str());
            proof {
                assert forall|k: (Seq<char>, u64)| #[trigger] dv.take(j + 1).contains(k.0) == (dv.take(j as int).contains(k.0) || k.0 == d@) by {
                    lemma_take_contains_step(dv, j as int, k.0);
                }
                assert(self.props()@ =~= p0@.restrict(p0@.dom().filter(|k: (Seq<char>, u64)| !dv.take(j + 1).contains(k.0))));
            }
            proof {
                assert(self.bps() == cur.filter(g));
                assert(self.bps() == b0.filter(h));
            }
            j += 1;
        }
        proof {
            assert(dv.take(doomed@.len() as int) =~= dv);
            let f2 = |k: Seq<char>| !in_subtree(p0, b0, widget_id@, k);
            assert(outside_prefix(dv, doomed@.len() as int) =~= key_pred(f2));
            assert(self.props()@ =~= p0@.restrict(p0@.dom().filter(|k: (Seq<char>, u64)| !in_subtree(p0, b0, widget_id@, k.0))));
            let q = self.props();
            assert forall|x: Seq<char>| #[trigger] parent_in(q, x) == parent_in(p0, x) || parent_in(q, x).len() == 0 by {
                let kx = (x, parent_hash());
                if q@.contains_key(kx) {
                    assert(p0@.contains_key(kx));
                    assert(q@[kx] == p0@[kx]);
                }
            }
            if chains_end_in(p0) {
                lemma_cut_keeps_chains(p0, q);
            }
        }
    }

    /// Moves a widget `direction` places among the widgets with the same
    /// parent text, in the order of the store, by trading positions with
    /// the widget at the place reached. Nothing changes when the widget is
    /// not placed or that place does not exist.
    pub fn move_widget_in_map(&mut self, widget_id: &str, direction: i32)
        requires
            old(self).wf(),
        ensures
            widget_moved(*old(self), *final(self), widget_id@, direction as int),
    {
        let ghost p = self.props();
        let ghost bps = self.bps();
        let ghost sp = same_parent_in(p, widget_id@);
        let ghost keys = self.keys();
        let parent_id = self.parent_string(widget_id);
        let n = bp_map_len(&self.blueprints);
        let mut local: Vec<String> = Vec::new();
        let mut pos: Option<usize> = None;
        let mut i: usize = 0;
        while i < n
            invariant
                0 <= i <= n,
                n == bps.len(),
                self.wf(),
                p == self.props(),
                bps == self.bps(),
                keys == self.keys(),
                sp == same_parent_in(p, widget_id@),
                parent_id@ == parent_in(p, widget_id@),
                string_views(local@) == keys.take(i as int).filter(sp),
                pos is None ==> forall|j: int| 0 <= j < i ==> (#[trigger] bps[j]).0 != widget_id@,
                pos is Some ==> has_key_in(bps, widget_id@) && key_pos(bps, widget_id@) < i
                    && pos->0 == sibling_rank_in(p, bps, widget_id@),
            decreases n - i,
        {
            let (k, _) = bp_map_get_index(&self.blueprints, i).unwrap();
            let cur = self.parent_string(k.as_str());
            proof {
                lemma_filter_take_step(keys, sp, i as int);
                assert(keys[i as int] == k@);
            }
            if pos.is_none() && str_eq(k.as_str(), widget_id) {
                proof {
                    assert(bps[i as int].0 == widget_id@);
                    let a = key_pos(bps, widget_id@);
                    assert(bps[a].0 == widget_id@);
                    assert(a == i);
                }
                pos = Some(local.len());
            }
            if str_eq(cur.as_str(), parent_id.as_str()) {
                local.push(k.clone());
                assert(string_views(local@) =~= keys.take(i as int).filter(sp).push(k@));
            }
            i += 1;
        }
        assert(keys.take(n as int) =~= keys);
        if let Some(q) = pos {
            let target: i128 = q as i128 + direction as i128;
            if 0 <= target && target < local.len() as i128 {
                let t = target as usize;
                let sibling = &local[t];
                let gc = bp_map_get_index_of(&self.blueprints, widget_id);
                let gs = bp_map_get_index_of(&self.blueprints, sibling.as_str());
                proof {
                    let sib = keys.filter(sp);
                    assert(sibling@ == sib[t as int]);
                    assert(sib.contains(sib[t as int]));
                    keys.lemma_filter_contains_rev(sp, sib[t as int]);
                    let b = key_pos(bps, sib[t as int]);
                    let jk = choose|jk: int| 0 <= jk < keys.len() && keys[jk] == sib[t as int];
                    assert(bps[jk].0 == sib[t as int]);
                    assert(bps[b].0 == sib[t as int]);
                }
                match (gc, gs) {
                    (Some(g_curr), Some(g_sibl)) => {
                        proof {
                            let sib = keys.filter(sp);
                            let a = key_pos(bps, widget_id@);
                            let b = key_pos(bps, sib[t as int]);
                            assert(bps[a].0 == widget_id@);
                            assert(a == g_curr);
                            assert(bps[b].0 == sib[t as int]);
                            assert(b == g_sibl);
                        }
                        bp_map_swap_indices(&mut self.blueprints, g_curr, g_sibl);
                        proof {
                            let nb = self.bps();
                            assert forall|x: int, y: int| 0 <= x < nb.len() && 0 <= y < nb.len() && x != y
                                implies (#[trigger] nb[x]).0 != (#[trigger] nb[y]).0 by {
                                let x2 = if x == g_curr { g_sibl as int } else if x == g_sibl { g_curr as int } else { x };
                                let y2 = if y == g_curr { g_sibl as int } else if y == g_sibl { g_curr as int } else { y };
                                assert(nb[x] == bps[x2]);
                                assert(nb[y] == bps[y2]);
                            }
                        }
                    },
                    _ => {},
                }
            }
        }
    }

    /// The `parent` text of a widget, or empty.
    pub fn parent_string(&self, widget_id: &str) -> (r: String)
        requires
            self.wf(),
        ensures
            r@ == self.parent_of(widget_id@),
    {
        let key = prop_parent();
        match self.field_values.get_by_hash(widget_id, key.hash) {
            Some(StoredValue::Text(s)) => s.clone(),
            _ => String::new(),
        }
    }

    /// The value stored for the widget and property hash, if any.
    pub fn get_by_hash(&self, widget_id: &str, prop_hash: u64) -> (r: Option<StoredValue>)
        requires
            self.wf(),
        ensures
            r == self.value_of(widget_id@, prop_hash),
    {
        match self.field_values.get_by_hash(widget_id, prop_hash) {
            Some(v) => Some(v.duplicate()),
            None => None,
        }
    }

    /// Stores a value for the widget and property hash.
    pub fn set_by_hash(&mut self, widget_id: &str, prop_hash: u64, value: StoredValue)
        requires
            old(self).wf(),
        ensures
            final(self).wf(),
            final(self).props()@ == old(self).props()@.insert((widget_id@, prop_hash), value),
            final(self).bps() == old(self).bps(),
            final(self).counter() == old(self).counter(),
            final(self).creator_entries() == old(self).creator_entries(),
            final(self).design_mode() == old(self).design_mode(),
    {
        self.field_values.set_by_hash(widget_id, prop_hash, value);
    }

    /// The value stored for the widget and property, if any.
    pub fn get(&self, widget_id: &str, key: &PropertyKey) -> (r: Option<StoredValue>)
        requires
            self.wf(),
        ensures
            r == self.value_of(widget_id@, key.hash),
    {
        self.get_by_hash(widget_id, key.hash)
    }

    /// The text stored for the widget and property; `None` when there is
    /// none or the value is not text.
    pub fn get_string(&self, widget_id: &str, key: &PropertyKey) -> (r: Option<String>)
        requires
            self.wf(),
        ensures
            match self.value_of(widget_id@, key.hash) {
                Some(StoredValue::Text(s)) => r == Some(s),
                _ => r is None,
            },
    {
        match self.field_values.get_by_hash(widget_id, key.hash) {
            Some(StoredValue::Text(s)) => Some(s.clone()),
            _ => None,
        }
    }

    /// Stores a value for the widget and property.
    pub fn set(&mut self, widget_id: &str, key: &PropertyKey, value: StoredValue)
        requires
            old(self).wf(),
        ensures
            final(self).wf(),
            final(self).props()@ == old(self).props()@.insert((widget_id@, key.hash), value),
            final(self).bps() == old(self).bps(),
            final(self).counter() == old(self).counter(),
            final(self).creator_entries() == old(self).creator_entries(),
            final(self).design_mode() == old(self).design_mode(),
    {
        self.set_by_hash(widget_id, key.hash, value);
    }

    /// The stored value when it has the type of `def`, else `def`.
    pub fn get_or_def(&self, widget_id: &str, key: &PropertyKey, def: StoredValue) -> (r: StoredValue)
        requires
            self.wf(),
        ensures
            match self.value_of(widget_id@, key.hash) {
                Some(v) => r == if type_of(v) == type_of(def) { v } else { def },
                None => r == def,
            },
    {
        match self.field_values.get_by_hash(widget_id, key.hash) {
            Some(v) => {
                if v.value_type() == def.value_type() {
                    v.duplicate()
                } else {
                    def
                }
            },
            None => def,
        }
    }

    /// The stored value when it has the type of `def`; otherwise stores
    /// `def` and gives it back.
    pub fn get_or_set_by_hash(&mut self, widget_id: &str, prop_hash: u64, def: StoredValue) -> (r: StoredValue)
        requires
            old(self).wf(),
        ensures
            final(self).wf(),
            match old(self).value_of(widget_id@, prop_hash) {
                Some(v) if type_of(v) == type_of(def) => r == v && final(self).props()@ == old(self).props()@,
                _ => r == def && final(self).props()@ == old(self).props()@.insert((widget_id@, prop_hash), def),
            },
            final(self).bps() == old(self).bps(),
            final(self).counter() == old(self).counter(),
            final(self).creator_entries() == old(self).creator_entries(),
            final(self).design_mode() == old(self).design_mode(),
    {
        let existing = self.get_by_hash(widget_id, prop_hash);
        match existing {
            Some(v) => {
                if v.value_type() == def.value_type() {
                    return v;
                }
            },
            None => {},
        }
        let copy = def.duplicate();
        self.set_by_hash(widget_id, prop_hash, def);
        copy
    }

    /// `get_or_set_by_hash` by property key.
    pub fn get_or_set(&mut self, widget_id: &str, key: &PropertyKey, def: StoredValue) -> (r: StoredValue)
        requires
            old(self).wf(),
        ensures
            final(self).wf(),
            match old(self).value_of(widget_id@, key.hash) {
                Some(v) if type_of(v) == type_of(def) => r == v && final(self).props()@ == old(self).props()@,
                _ => r == def && final(self).props()@ == old(self).props()@.insert((widget_id@, key.hash), def),
            },
            final(self).bps() == old(self).bps(),
            final(self).counter() == old(self).counter(),
            final(self).creator_entries() == old(self).creator_entries(),
            final(self).design_mode() == old(self).design_mode(),
    {
        self.get_or_set_by_hash(widget_id, key.hash, def)
    }

    /// The number of placed widgets.
    pub fn blueprint_count(&self) -> (n: usize)
        ensures
            n == self.bps().len(),
    {
        bp_map_len(&self.blueprints)
    }

    /// The id and blueprint at a position of the widget order.
    pub fn blueprint_at(&self, i: usize) -> (r: Option<(&String, &AnyBlueprint)>)
        ensures
            i < self.bps().len() ==> r is Some && r.unwrap().0@ == self.bps()[i as int].0 && *r.unwrap().1 == self.bps()[i as int].1,
            i >= self.bps().len() ==> r is None,
    {
        bp_map_get_index(&self.blueprints, i)
    }

    /// The ids of all placed widgets, in order.
    pub fn get_blueprint_keys(&self) -> (r: Vec<String>)
        ensures
            string_views(r@) == self.keys(),
    {
        let n = bp_map_len(&self.blueprints);
        let mut out: Vec<String> = Vec::new();
        let mut i: usize = 0;
        while i < n
            invariant
                0 <= i <= n,
                n == self.bps().len(),
                string_views(out@) == self.keys().take(i as int),
            decreases n - i,
        {
            let (k, _) = bp_map_get_index(&self.blueprints, i).unwrap();
            let ghost prev = out@;
            assert(self.keys().len() == self.bps().len());
            assert(string_views(prev).len() == prev.len());
            let kc = k.clone();
            assert(kc@ == k@);
            out.push(kc);
            assert(out@ == prev.push(kc));
            assert(string_views(out@).len() == i + 1);
            assert(self.keys()[i as int] == k@);
            assert forall|j: int| 0 <= j < i + 1 implies #[trigger] string_views(out@)[j] == self.keys().take(i + 1)[j] by {
                if j < i {
                    assert(string_views(prev)[j] == self.keys().take(i as int)[j]);
                    assert(out@[j] == prev[j]);
                } else {
                    assert(out@[j] == kc);
                }
            }
            assert(string_views(out@) =~= self.keys().take(i + 1));
            i += 1;
        }
        assert(self.keys().take(n as int) =~= self.keys());
        out
    }

    /// The blueprint placed under an id, if any.
    pub fn get_blueprint_rc(&self, id: String) -> (r: Option<&AnyBlueprint>)
        requires
            self.wf(),
        ensures
            match r {
                Some(b) => exists|j: int| 0 <= j < self.bps().len() && self.bps()[j] == (id@, *b),
                None => !self.has_key(id@),
            },
    {
        match bp_map_get_index_of(&self.blueprints, id.as_str()) {
            Some(i) => {
                let (_, b) = bp_map_get_index(&self.blueprints, i).unwrap();
                Some(b)
            },
            None => None,
        }
    }

    /// A copy of the blueprint placed under an id, if any.
    pub fn get_blueprint(&self, id: String) -> (r: Option<AnyBlueprint>)
        requires
            self.wf(),
        ensures
            match r {
                Some(b) => exists|j: int| 0 <= j < self.bps().len() && self.bps()[j] == (id@, b),
                None => !self.has_key(id@),
            },
    {
        match self.get_blueprint_rc(id) {
            Some(b) => Some(b.duplicate()),
            None => None,
        }
    }

    /// Ids of the widgets that are children of `parent_id`, in order. The
    /// root is named by "" or "root", and a widget whose parent is "" or
    /// "root" is a child of it.
    pub fn get_children_ids_by_parent(&self, parent_id: &str) -> (r: Vec<String>)
        requires
            self.wf(),
        ensures
            string_views(r@) == self.children_keys(parent_id@),
    {
        let n = bp_map_len(&self.blueprints);
        let mut out: Vec<String> = Vec::new();
        let mut i: usize = 0;
        let ghost f = child_pred_in(self.props(), parent_id@);
        while i < n
            invariant
                0 <= i <= n,
                n == self.bps().len(),
                self.wf(),
                f == child_pred_in(self.props(), parent_id@),
                string_views(out@) == self.keys().take(i as int).filter(f),
            decreases n - i,
        {
            let (k, _) = bp_map_get_index(&self.blueprints, i).unwrap();
            let cur = self.parent_string(k.as_str());
            proof {
                lemma_filter_take_step(self.keys(), f, i as int);
            }
            if parent_matches_exec(parent_id, cur.as_str()) {
                out.push(k.clone());
                assert(string_views(out@) =~= self.keys().take(i as int).filter(f).push(k@));
            }
            i += 1;
        }
        assert(self.keys().take(n as int) =~= self.keys());
        out
    }

    /// Same as `get_children_ids_by_parent`.
    pub fn get_blueprint_keys_by_parent(&self, parent_id: &str) -> (r: Vec<String>)
        requires
            self.wf(),
        ensures
            string_views(r@) == self.children_keys(parent_id@),
    {
        self.get_children_ids_by_parent(parent_id)
    }

    /// The blueprints of the children of `parent_id`, in order.
    pub fn get_blueprints_by_parent(&self, parent_id: &str) -> (r: Vec<&AnyBlueprint>)
        requires
            self.wf(),
        ensures
            r@.len() == self.children_entries(parent_id@).len(),
            forall|j: int| 0 <= j < r@.len() ==> *r@[j] == (#[trigger] self.children_entries(parent_id@)[j]).1,
    {
        let n = bp_map_len(&self.blueprints);
        let mut out: Vec<&AnyBlueprint> = Vec::new();
        let mut i: usize = 0;
        let ghost f = child_entry_pred_in(self.props(), parent_id@);
        while i < n
            invariant
                0 <= i <= n,
                n == self.bps().len(),
                self.wf(),
                f == child_entry_pred_in(self.props(), parent_id@),
                out@.len() == self.bps().take(i as int).filter(f).len(),
                forall|j: int| 0 <= j < out@.len() ==> *out@[j] == (#[trigger] self.bps().take(i as int).filter(f)[j]).1,
            decreases n - i,
        {
            let (k, b) = bp_map_get_index(&self.blueprints, i).unwrap();
            let cur = self.parent_string(k.as_str());
            proof {
                lemma_filter_take_step(self.bps(), f, i as int);
            }
            if parent_matches_exec(parent_id, cur.as_str()) {
                out.push(b);
            }
            i += 1;
        }
        assert(self.bps().take(n as int) =~= self.bps());
        out
    }

    /// Whether the blueprint takes a child now.
    pub fn can_accept_child(&self, bp: &AnyBlueprint) -> (r: bool)
        requires
            self.wf(),
        ensures
            r == self.accepts_child(*bp),
    {
        match bp.get_kind().child_policy() {
            ChildPolicy::Never => false,
            ChildPolicy::Always => true,
            ChildPolicy::WhenEmpty => {
                let id = bp.get_id();
                self.get_blueprints_by_parent(id.as_str()).len() == 0
            },
        }
    }

    /// Whether the designer is in design mode.
    pub fn is_design_mode(&self) -> (r: bool)
        ensures
            r == self.design_mode(),
    {
        self.is_design_mode
    }

    /// Sets design mode.
    pub fn set_design_mode(&mut self, mode: bool)
        ensures
            final(self).design_mode() == mode,
            final(self).bps() == old(self).bps(),
            final(self).props() == old(self).props(),
            final(self).counter() == old(self).counter(),
            final(self).creator_entries() == old(self).creator_entries(),
    {
        self.is_design_mode = mode;
    }

    /// Switches design mode.
    pub fn toggle_design_mode(&mut self)
        ensures
            final(self).design_mode() == !old(self).design_mode(),
            final(self).bps() == old(self).bps(),
            final(self).props() == old(self).props(),
            final(self).counter() == old(self).counter(),
            final(self).creator_entries() == old(self).creator_entries(),
    {
        self.is_design_mode = !self.is_design_mode;
    }

    /// Takes the blueprint of a placed widget out, leaving a `dummy`
    /// blueprint in its place (the order stays); `None` when the id is not
    /// placed, and then nothing changes.
    pub fn take_blueprint_for_event(&mut self, widget_id: &str) -> (r: Option<AnyBlueprint>)
        requires
            old(self).wf(),
        ensures
            blueprint_taken(*old(self), *final(self), widget_id@, r),
    {
        match bp_map_get_index_of(&self.blueprints, widget_id) {
            Some(i) => {
                let ghost s = self.bps();
                proof {
                    lemma_key_pos_at(s, i as int);
                }
                let dummy = AnyBlueprint::Dummy(DummyBlueprint::new(owned("dummy")));
                let old_bp = bp_map_insert(&mut self.blueprints, owned(widget_id), dummy);
                proof {
                    assert(s[i as int].0 == widget_id@);
                    assert(self.bps() == s.update(i as int, (widget_id@, dummy)));
                    assert forall|a: int, b: int| 0 <= a < self.bps().len() && 0 <= b < self.bps().len() && a != b
                        implies (#[trigger] self.bps()[a]).0 != (#[trigger] self.bps()[b]).0 by {
                        assert(s[a].0 != s[b].0);
                    }
                }
                old_bp
            },
            None => None,
        }
    }

    /// Puts a blueprint back under a placed id, in place; nothing changes
    /// when the id is not placed.
    pub fn put_blueprint_back(&mut self, widget_id: &str, taken_bp: AnyBlueprint)
        requires
            old(self).wf(),
        ensures
            blueprint_put_back(*old(self), *final(self), widget_id@, taken_bp),
    {
        match bp_map_get_index_of(&self.blueprints, widget_id) {
            Some(i) => {
                let ghost s = self.bps();
                proof {
                    lemma_key_pos_at(s, i as int);
                }
                let _ = bp_map_insert(&mut self.blueprints, owned(widget_id), taken_bp);
                proof {
                    assert(s[i as int].0 == widget_id@);
                    assert(self.bps() == s.update(i as int, (widget_id@, taken_bp)));
                    assert forall|a: int, b: int| 0 <= a < self.bps().len() && 0 <= b < self.bps().len() && a != b
                        implies (#[trigger] self.bps()[a]).0 != (#[trigger] self.bps()[b]).0 by {
                        assert(s[a].0 != s[b].0);
                    }
                }
            },
            None => {},
        }
    }

    /// Runs `f` on the blueprint of a placed widget, in place: the
    /// blueprint is taken out (a `dummy` one, named after the counter,
    /// holds its place meanwhile, and the counter goes one up), `f` gives
    /// the changed blueprint and a result, and the changed blueprint is put
    /// back. `None` when the id is not placed, and then nothing changes.
    pub fn with_blueprint_mut<F, R>(&mut self, widget_id: &str, f: F) -> (r: Option<R>)
        where
            F: FnOnce(AnyBlueprint) -> (AnyBlueprint, R),
        requires
            old(self).wf(),
            old(self).has_key(widget_id@) ==> old(self).counter() < usize::MAX,
            old(self).has_key(widget_id@) ==> f.requires((old(self).bp_of(widget_id@),)),
        ensures
            final(self).wf(),
            old(self).has_key(widget_id@) ==> exists|nb: AnyBlueprint| {
                &&& r matches Some(x) && f.ensures((old(self).bp_of(widget_id@),), (nb, x))
                &&& final(self).bps() == old(self).bps().update(key_pos(old(self).bps(), widget_id@), (widget_id@, nb))
            },
            old(self).has_key(widget_id@) ==> final(self).counter() == old(self).counter() + 1,
            !old(self).has_key(widget_id@) ==> r is None && final(self).bps() == old(self).bps()
                && final(self).counter() == old(self).counter(),
            final(self).props() == old(self).props(),
            final(self).creator_entries() == old(self).creator_entries(),
            final(self).design_mode() == old(self).design_mode(),
    {
        match bp_map_get_index_of(&self.blueprints, widget_id) {
            Some(i) => {
                let ghost s = self.bps();
                proof {
                    lemma_key_pos_at(s, i as int);
                }
                let new_id = self.field_counter;
                self.field_counter = self.field_counter + 1;
                let mut name = owned("dummy_");
                name.append(usize_to_string(new_id).as_str());
                let dummy = AnyBlueprint::Dummy(DummyBlueprint::new(name));
                let taken = bp_map_insert(&mut self.blueprints, owned(widget_id), dummy);
                let ghost s1 = self.bps();
                proof {
                    assert(s[i as int].0 == widget_id@);
                    assert(s1 == s.update(i as int, (widget_id@, dummy)));
                    assert(s1[i as int].0 == widget_id@);
                    assert forall|a: int, b: int| 0 <= a < s1.len() && 0 <= b < s1.len() && a != b
                        implies (#[trigger] s1[a]).0 != (#[trigger] s1[b]).0 by {
                        assert(s[a].0 != s[b].0);
                    }
                }
                let bp = taken.unwrap();
                let (changed, result) = f(bp);
                let ghost nb = changed;
                let _ = bp_map_insert(&mut self.blueprints, owned(widget_id), changed);
                proof {
                    assert(self.bps() == s1.update(i as int, (widget_id@, nb)));
                    assert(self.bps() =~= s.update(i as int, (widget_id@, nb)));
                    assert forall|a: int, b: int| 0 <= a < self.bps().len() && 0 <= b < self.bps().len() && a != b
                        implies (#[trigger] self.bps()[a]).0 != (#[trigger] self.bps()[b]).0 by {
                        assert(s[a].0 != s[b].0);
                    }
                }
                Some(result)
            },
            None => None,
        }
    }

    /// The property table, to read.
    pub fn get_field_values(&self) -> (r: &PropertyStorage)
        ensures
            *r == self.props(),
    {
        &self.field_values
    }

    /// The property table, to change; the store holds what it is changed
    /// to, and nothing else changes.
    pub fn get_field_values_mut(&mut self) -> (r: &mut PropertyStorage)
        ensures
            *r == old(self).props(),
            final(self).props() == *final(r),
            final(self).bps() == old(self).bps(),
            final(self).counter() == old(self).counter(),
            final(self).creator_entries() == old(self).creator_entries(),
            final(self).design_mode() == old(self).design_mode(),
    {
        &mut self.field_values
    }

    /// The number of stored property values.
    pub fn property_count(&self) -> (n: usize)
        ensures
            n == self.props().entries().len(),
    {
        self.field_values.len()
    }

    /// The widget id, property hash and value of the stored entry at a
    /// position of the property table.
    pub fn property_at(&self, i: usize) -> (r: (&String, u64, &StoredValue))
        requires
            self.wf(),
            i < self.props().entries().len(),
        ensures
            (r.0@, r.1) == crate::storage::entry_key(self.props().entries()[i as int]),
            *r.2 == self.props().entries()[i as int].value,
            self.value_of(r.0@, r.1) == Some(*r.2),
    {
        self.field_values.entry_at(i)
    }

    /// Sets the counter that names new widgets.
    pub fn set_field_counter(&mut self, n: usize)
        ensures
            final(self).counter() == n,
            final(self).bps() == old(self).bps(),
            final(self).props() == old(self).props(),
            final(self).creator_entries() == old(self).creator_entries(),
            final(self).design_mode() == old(self).design_mode(),
    {
        self.field_counter = n;
    }

    /// The counter that names new widgets.
    pub fn get_field_counter(&self) -> (r: usize)
        ensures
            r == self.counter(),
    {
        self.field_counter
    }
}

/// Whether a widget whose parent is `current` is a child of `query`.
pub fn parent_matches_exec(query: &str, current: &str) -> (r: bool)
    ensures
        r == parent_matches(query@, current@),
{
    if str_eq(current, query) {
        return true;
    }
    let query_root = query.is_empty() || str_eq(query, "root");
    let current_root = current.is_empty() || str_eq(current, "root");
    query_root && current_root
}

/// Filtering a prefix one element longer.
pub proof fn lemma_filter_take_step<A>(s: Seq<A>, f: spec_fn(A) -> bool, i: int)
    requires
        0 <= i < s.len(),
    ensures
        s.take(i + 1).filter(f) == if f(s[i]) { s.take(i).filter(f).push(s[i]) } else { s.take(i).filter(f) },
{
    reveal_with_fuel(Seq::<_>::filter, 1);
    assert(s.take(i + 1).drop_last() =~= s.take(i));
}

/// A registrable kind is found again by its type name.
pub proof fn lemma_kind_name_roundtrip(k: WidgetKind)
    requires
        k != WidgetKind::Dummy,
    ensures
        kind_of_type_name(kind_type_name(k)) == Some(k),
{
    match k {
        WidgetKind::NumberInput => {
            reveal_strlit("number_input");
        },
        WidgetKind::ButtonBox => {
            reveal_strlit("button_box");
            reveal_strlit("number_input");
            assert("button_box"@.len() != "number_input"@.len());
        },
        WidgetKind::Checkbox => {
            reveal_strlit("check_box");
            reveal_strlit("number_input");
            assert("check_box"@.len() != "number_input"@.len());
            reveal_strlit("button_box");
            assert("check_box"@.len() != "button_box"@.len());
        },
        WidgetKind::Column => {
            reveal_strlit("column");
            reveal_strlit("number_input");
            assert("column"@.len() != "number_input"@.len());
            reveal_strlit("button_box");
            assert("column"@.len() != "button_box"@.len());
            reveal_strlit("check_box");
            assert("column"@.len() != "check_box"@.len());
        },
        WidgetKind::Counter => {
            reveal_strlit("counter");
            reveal_strlit("number_input");
            assert("counter"@.len() != "number_input"@.len());
            reveal_strlit("button_box");
            assert("counter"@.len() != "button_box"@.len());
            reveal_strlit("check_box");
            assert("counter"@.len() != "check_box"@.len());
            reveal_strlit("column");
            assert("counter"@.len() != "column"@.len());
        },
        WidgetKind::HRule => {
            reveal_strlit("h_rule");
            reveal_strlit("number_input");
            assert("h_rule"@.len() != "number_input"@.len());
            reveal_strlit("button_box");
            assert("h_rule"@.len() != "button_box"@.len());
            reveal_strlit("check_box");
            assert("h_rule"@.len() != "check_box"@.len());
            reveal_strlit("column");
            assert("h_rule"@[0] != "column"@[0]);
            reveal_strlit("counter");
            assert("h_rule"@.len() != "counter"@.len());
        },
        WidgetKind::Image => {
            reveal_strlit("image");
            reveal_strlit("number_input");
            assert("image"@.len() != "number_input"@.len());
            reveal_strlit("button_box");
            assert("image"@.len() != "button_box"@.len());
            reveal_strlit("check_box");
            assert("image"@.len() != "check_box"@.len());
            reveal_strlit("column");
            assert("image"@.len() != "column"@.len());
            reveal_strlit("counter");
            assert("image"@.len() != "counter"@.len());
            reveal_strlit("h_rule");
            assert("image"@.len() != "h_rule"@.len());
        },
        WidgetKind::Input => {
            reveal_strlit("input");
            reveal_strlit("number_input");
            assert("input"@.len() != "number_input"@.len());
            reveal_strlit("button_box");
            assert("input"@.len() != "button_box"@.len());
            reveal_strlit("check_box");
            assert("input"@.len() != "check_box"@.len());
            reveal_strlit("column");
            assert("input"@.len() != "column"@.len());
            reveal_strlit("counter");
            assert("input"@.len() != "counter"@.len());
            reveal_strlit("h_rule");
            assert("input"@.len() != "h_rule"@.len());
            reveal_strlit("image");
            assert("input"@[1] != "image"@[1]);
        },
        WidgetKind::KeyedColumn => {
            reveal_strlit("keyed_column");
            reveal_strlit("number_input");
            assert("keyed_column"@[0] != "number_input"@[0]);
            reveal_strlit("button_box");
            assert("keyed_column"@.len() != "button_box"@.len());
            reveal_strlit("check_box");
            assert("keyed_column"@.len() != "check_box"@.len());
            reveal_strlit("column");
            assert("keyed_column"@.len() != "column"@.len());
            reveal_strlit("counter");
            assert("keyed_column"@.len() != "counter"@.len());
            reveal_strlit("h_rule");
            assert("keyed_column"@.len() != "h_rule"@.len());
            reveal_strlit("image");
            assert("keyed_column"@.len() != "image"@.len());
            reveal_strlit("input");
            assert("keyed_column"@.len() != "input"@.len());
        },
        WidgetKind::PickList => {
            reveal_strlit("pick_list");
            reveal_strlit("number_input");
            assert("pick_list"@.len() != "number_input"@.len());
            reveal_strlit("button_box");
            assert("pick_list"@.len() != "button_box"@.len());
            reveal_strlit("check_box");
            assert("pick_list"@[0] != "check_box"@[0]);
            reveal_strlit("column");
            assert("pick_list"@.len() != "column"@.len());
            reveal_strlit("counter");
            assert("pick_list"@.len() != "counter"@.len());
            reveal_strlit("h_rule");
            assert("pick_list"@.len() != "h_rule"@.len());
            reveal_strlit("image");
            assert("pick_list"@.len() != "image"@.len());
            reveal_strlit("input");
            assert("pick_list"@.len() != "input"@.len());
            reveal_strlit("keyed_column");
            assert("pick_list"@.len() != "keyed_column"@.len());
        },
        WidgetKind::Pin => {
            reveal_strlit("pin");
            reveal_strlit("number_input");
            assert("pin"@.len() != "number_input"@.len());
            reveal_strlit("button_box");
            assert("pin"@.len() != "button_box"@.len());
            reveal_strlit("check_box");
            assert("pin"@.len() != "check_box"@.len());
            reveal_strlit("column");
            assert("pin"@.len() != "column"@.len());
            reveal_strlit("counter");
            assert("pin"@.len() != "counter"@.len());
            reveal_strlit("h_rule");
            assert("pin"@.len() != "h_rule"@.len());
            reveal_strlit("image");
            assert("pin"@.len() != "image"@.len());
            reveal_strlit("input");
            assert("pin"@.len() != "input"@.len());
            reveal_strlit("keyed_column");
            assert("pin"@.len() != "keyed_column"@.len());
            reveal_strlit("pick_list");
            assert("pin"@.len() != "pick_list"@.len());
        },
        WidgetKind::ProgressBar => {
            reveal_strlit("progress_bar");
            reveal_strlit("number_input");
            assert("progress_bar"@[0] != "number_input"@[0]);
            reveal_strlit("button_box");
            assert("progress_bar"@.len() != "button_box"@.len());
            reveal_strlit("check_box");
            assert("progress_bar"@.len() != "check_box"@.len());
            reveal_strlit("column");
            assert("progress_bar"@.len() != "column"@.len());
            reveal_strlit("counter");
            assert("progress_bar"@.len() != "counter"@.len());
            reveal_strlit("h_rule");
            assert("progress_bar"@.len() != "h_rule"@.len());
            reveal_strlit("image");
            assert("progress_bar"@.len() != "image"@.len());
            reveal_strlit("input");
            assert("progress_bar"@.len() != "input"@.len());
            reveal_strlit("keyed_column");
            assert("progress_bar"@[0] != "keyed_column"@[0]);
            reveal_strlit("pick_list");
            assert("progress_bar"@.len() != "pick_list"@.len());
            reveal_strlit("pin");
            assert("progress_bar"@.len() != "pin"@.len());
        },
        WidgetKind::Space => {
            reveal_strlit("space");
            reveal_strlit("number_input");
            assert("space"@.len() != "number_input"@.len());
            reveal_strlit("button_box");
            assert("space"@.len() != "button_box"@.len());
            reveal_strlit("check_box");
            assert("space"@.len() != "check_box"@.len());
            reveal_strlit("column");
            assert("space"@.len() != "column"@.len());
            reveal_strlit("counter");
            assert("space"@.len() != "counter"@.len());
            reveal_strlit("h_rule");
            assert("space"@.len() != "h_rule"@.len());
            reveal_strlit("image");
            assert("space"@[0] != "image"@[0]);
            reveal_strlit("input");
            assert("space"@[0] != "input"@[0]);
            reveal_strlit("keyed_column");
            assert("space"@.len() != "keyed_column"@.len());
            reveal_strlit("pick_list");
            assert("space"@.len() != "pick_list"@.len());
            reveal_strlit("pin");
            assert("space"@.len() != "pin"@.len());
            reveal_strlit("progress_bar");
            assert("space"@.len() != "progress_bar"@.len());
        },
        WidgetKind::Stack => {
            reveal_strlit("stack");
            reveal_strlit("number_input");
            assert("stack"@.len() != "number_input"@.len());
            reveal_strlit("button_box");
            assert("stack"@.len() != "button_box"@.len());
            reveal_strlit("check_box");
            assert("stack"@.len() != "check_box"@.len());
            reveal_strlit("column");
            assert("stack"@.len() != "column"@.len());
            reveal_strlit("counter");
            assert("stack"@.len() != "counter"@.len());
            reveal_strlit("h_rule");
            assert("stack"@.len() != "h_rule"@.len());
            reveal_strlit("image");
            assert("stack"@[0] != "image"@[0]);
            reveal_strlit("input");
            assert("stack"@[0] != "input"@[0]);
            reveal_strlit("keyed_column");
            assert("stack"@.len() != "keyed_column"@.len());
            reveal_strlit("pick_list");
            assert("stack"@.len() != "pick_list"@.len());
            reveal_strlit("pin");
            assert("stack"@.len() != "pin"@.len());
            reveal_strlit("progress_bar");
            assert("stack"@.len() != "progress_bar"@.len());
            reveal_strlit("space");
            assert("stack"@[1] != "space"@[1]);
        },
        WidgetKind::Svg => {
            reveal_strlit("svg");
            reveal_strlit("number_input");
            assert("svg"@.len() != "number_input"@.len());
            reveal_strlit("button_box");
            assert("svg"@.len() != "button_box"@.len());
            reveal_strlit("check_box");
            assert("svg"@.len() != "check_box"@.len());
            reveal_strlit("column");
            assert("svg"@.len() != "column"@.len());
            reveal_strlit("counter");
            assert("svg"@.len() != "counter"@.len());
            reveal_strlit("h_rule");
            assert("svg"@.len() != "h_rule"@.len());
            reveal_strlit("image");
            assert("svg"@.len() != "image"@.len());
            reveal_strlit("input");
            assert("svg"@.len() != "input"@.len());
            reveal_strlit("keyed_column");
            assert("svg"@.len() != "keyed_column"@.len());
            reveal_strlit("pick_list");
            assert("svg"@.len() != "pick_list"@.len());
            reveal_strlit("pin");
            assert("svg"@[0] != "pin"@[0]);
            reveal_strlit("progress_bar");
            assert("svg"@.len() != "progress_bar"@.len());
            reveal_strlit("space");
            assert("svg"@.len() != "space"@.len());
            reveal_strlit("stack");
            assert("svg"@.len() != "stack"@.len());
        },
        WidgetKind::Text => {
            reveal_strlit("text");
            reveal_strlit("number_input");
            assert("text"@.len() != "number_input"@.len());
            reveal_strlit("button_box");
            assert("text"@.len() != "button_box"@.len());
            reveal_strlit("check_box");
            assert("text"@.len() != "check_box"@.len());
            reveal_strlit("column");
            assert("text"@.len() != "column"@.len());
            reveal_strlit("counter");
            assert("text"@.len() != "counter"@.len());
            reveal_strlit("h_rule");
            assert("text"@.len() != "h_rule"@.len());
            reveal_strlit("image");
            assert("text"@.len() != "image"@.len());
            reveal_strlit("input");
            assert("text"@.len() != "input"@.len());
            reveal_strlit("keyed_column");
            assert("text"@.len() != "keyed_column"@.len());
            reveal_strlit("pick_list");
            assert("text"@.len() != "pick_list"@.len());
            reveal_strlit("pin");
            assert("text"@.len() != "pin"@.len());
            reveal_strlit("progress_bar");
            assert("text"@.len() != "progress_bar"@.len());
            reveal_strlit("space");
            assert("text"@.len() != "space"@.len());
            reveal_strlit("stack");
            assert("text"@.len() != "stack"@.len());
            reveal_strlit("svg");
            assert("text"@.len() != "svg"@.len());
        },
        WidgetKind::Toggler => {
            reveal_strlit("toggler");
            reveal_strlit("number_input");
            assert("toggler"@.len() != "number_input"@.len());
            reveal_strlit("button_box");
            assert("toggler"@.len() != "button_box"@.len());
            reveal_strlit("check_box");
            assert("toggler"@.len() != "check_box"@.len());
            reveal_strlit("column");
            assert("toggler"@.len() != "column"@.len());
            reveal_strlit("counter");
            assert("toggler"@[0] != "counter"@[0]);
            reveal_strlit("h_rule");
            assert("toggler"@.len() != "h_rule"@.len());
            reveal_strlit("image");
            assert("toggler"@.len() != "image"@.len());
            reveal_strlit("input");
            assert("toggler"@.len() != "input"@.len());
            reveal_strlit("keyed_column");
            assert("toggler"@.len() != "keyed_column"@.len());
            reveal_strlit("pick_list");
            assert("toggler"@.len() != "pick_list"@.len());
            reveal_strlit("pin");
            assert("toggler"@.len() != "pin"@.len());
            reveal_strlit("progress_bar");
            assert("toggler"@.len() != "progress_bar"@.len());
            reveal_strlit("space");
            assert("toggler"@.len() != "space"@.len());
            reveal_strlit("stack");
            assert("toggler"@.len() != "stack"@.len());
            reveal_strlit("svg");
            assert("toggler"@.len() != "svg"@.len());
            reveal_strlit("text");
            assert("toggler"@.len() != "text"@.len());
        },
        WidgetKind::Dummy => {},
    }
}

/// Distinct registered kinds have distinct type names.
proof fn lemma_registered_names_distinct()
    ensures
        forall|a: int, b: int| 0 <= a < b < registered_kinds().len() ==> kind_type_name(#[trigger] registered_kinds()[a]) != kind_type_name(#[trigger] registered_kinds()[b]),
{
    assert forall|a: int, b: int| 0 <= a < b < registered_kinds().len() implies kind_type_name(#[trigger] registered_kinds()[a]) != kind_type_name(#[trigger] registered_kinds()[b]) by {
        lemma_kind_name_roundtrip(registered_kinds()[a]);
        lemma_kind_name_roundtrip(registered_kinds()[b]);
    }
}


/// Which widgets take a child: a column, a keyed column and a stack take
/// any number of children; a button box and a pin take one, so they take
/// a child only while they have none; every other kind takes none.
pub proof fn law_child_acceptance(f: Factory, k: WidgetKind, id: Seq<char>)
    ensures
        k == WidgetKind::Column ==> f.accepts_kind(k, id),
        k == WidgetKind::KeyedColumn ==> f.accepts_kind(k, id),
        k == WidgetKind::Stack ==> f.accepts_kind(k, id),
        k == WidgetKind::ButtonBox ==> (f.accepts_kind(k, id) <==> f.children_entries(id).len() == 0),
        k == WidgetKind::Pin ==> (f.accepts_kind(k, id) <==> f.children_entries(id).len() == 0),
        !(k == WidgetKind::Column || k == WidgetKind::KeyedColumn || k == WidgetKind::Stack || k == WidgetKind::ButtonBox
            || k == WidgetKind::Pin) ==> !f.accepts_kind(k, id),
{
}

} // verus!
