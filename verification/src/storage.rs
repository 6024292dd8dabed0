use vstd::prelude::*;

use crate::property::StoredValue;
use crate::text::str_eq;

verus! {

/// One stored property value: the widget it belongs to, the property's
/// hash, and the value.
#[derive(Debug)]
pub struct PropEntry {
    pub widget: String,
    pub prop: u64,
    pub value: StoredValue,
}

/// The key of an entry.
pub open spec fn entry_key(e: PropEntry) -> (Seq<char>, u64) {
    (e.widget@, e.prop)
}

/// The property table of all widgets: at most one value per widget id and
/// property hash.
#[derive(Debug)]
pub struct PropertyStorage {
    entries: Vec<PropEntry>,
}

impl PropertyStorage {
    /// The entries in their order.
    pub closed spec fn entries(&self) -> Seq<PropEntry> {
        self.entries@
    }

    /// No two entries share a key.
    pub closed spec fn wf(&self) -> bool {
        forall|i: int, j: int|
            0 <= i < self.entries@.len() && 0 <= j < self.entries@.len() && i != j
                ==> entry_key(#[trigger] self.entries@[i]) != entry_key(#[trigger] self.entries@[j])
    }

    /// The table as a map from (widget id, property hash) to value.
    pub closed spec fn view(&self) -> Map<(Seq<char>, u64), StoredValue> {
        Map::new(
            |k: (Seq<char>, u64)| exists|i: int| 0 <= i < self.entries@.len() && entry_key(#[trigger] self.entries@[i]) == k,
            |k: (Seq<char>, u64)| self.entries@[choose|i: int| 0 <= i < self.entries@.len() && entry_key(#[trigger] self.entries@[i]) == k].value,
        )
    }

    /// The value stored for a widget and property, if any.
    pub open spec fn lookup(&self, w: Seq<char>, p: u64) -> Option<StoredValue> {
        if self@.contains_key((w, p)) {
            Some(self@[(w, p)])
        } else {
            None
        }
    }

    proof fn lemma_view_at(&self, i: int)
        requires
            self.wf(),
            0 <= i < self.entries@.len(),
        ensures
            self@.contains_key(entry_key(self.entries@[i])),
            self@[entry_key(self.entries@[i])] == self.entries@[i].value,
    {
        let k = entry_key(self.entries@[i]);
        assert(exists|j: int| 0 <= j < self.entries@.len() && entry_key(#[trigger] self.entries@[j]) == k);
        let c = choose|j: int| 0 <= j < self.entries@.len() && entry_key(#[trigger] self.entries@[j]) == k;
        assert(c == i);
    }

    /// A stored value is the value of one of the entries, under its key.
    pub proof fn lemma_lookup_entry(&self, w: Seq<char>, p: u64)
        requires
            self.wf(),
            self@.contains_key((w, p)),
        ensures
            exists|i: int| 0 <= i < self.entries().len() && entry_key(#[trigger] self.entries()[i]) == (w, p)
                && self.entries()[i].value == self@[(w, p)],
    {
        let i = choose|i: int| 0 <= i < self.entries@.len() && entry_key(#[trigger] self.entries@[i]) == (w, p);
        self.lemma_view_at(i);
        assert(entry_key(self.entries()[i]) == (w, p) && self.entries()[i].value == self@[(w, p)]);
    }

    /// An empty table.
    pub fn new() -> (s: PropertyStorage)
        ensures
            s.wf(),
            s@ == Map::<(Seq<char>, u64), StoredValue>::empty(),
    {
        let s = PropertyStorage { entries: Vec::new() };
        assert(s@ =~= Map::<(Seq<char>, u64), StoredValue>::empty());
        s
    }

    /// Removes every value of every widget.
    pub fn clear_all(&mut self)
        ensures
            final(self).wf(),
            final(self)@ == Map::<(Seq<char>, u64), StoredValue>::empty(),
    {
        self.entries = Vec::new();
        assert(self@ =~= Map::<(Seq<char>, u64), StoredValue>::empty());
    }

    /// Index of the entry with the given key.
    fn find(&self, widget_id: &str, prop_hash: u64) -> (r: Option<usize>)
        requires
            self.wf(),
        ensures
            match r {
                Some(i) => i < self.entries@.len() && entry_key(self.entries@[i as int]) == (widget_id@, prop_hash),
                None => !self@.contains_key((widget_id@, prop_hash)),
            },
    {
        let mut i: usize = 0;
        while i < self.entries.len()
            invariant
                0 <= i <= self.entries@.len(),
                forall|j: int| 0 <= j < i ==> entry_key(#[trigger] self.entries@[j]) != (widget_id@, prop_hash),
            decreases self.entries@.len() - i,
        {
            let e = &self.entries[i];
            if e.prop == prop_hash && str_eq(e.widget.as_str(), widget_id) {
                return Some(i);
            }
            i += 1;
        }
        None
    }

    /// The value stored for the widget and property, if any.
    pub fn get_by_hash(&self, widget_id: &str, prop_hash: u64) -> (r: Option<&StoredValue>)
        requires
            self.wf(),
        ensures
            match r {
                Some(v) => self.lookup(widget_id@, prop_hash) == Some(*v),
                None => self.lookup(widget_id@, prop_hash).is_none(),
            },
    {
        match self.find(widget_id, prop_hash) {
            Some(i) => {
                proof { self.lemma_view_at(i as int); }
                Some(&self.entries[i].value)
            },
            None => None,
        }
    }

    /// Stores `value` for the widget and property, replacing any earlier one.
    pub fn set_by_hash(&mut self, widget_id: &str, prop_hash: u64, value: StoredValue)
        requires
            old(self).wf(),
        ensures
            final(self).wf(),
            final(self)@ == old(self)@.insert((widget_id@, prop_hash), value),
    {
        let ghost k = (widget_id@, prop_hash);
        let ghost old_entries = self.entries@;
        match self.find(widget_id, prop_hash) {
            Some(i) => {
                let e = PropEntry { widget: String::from_str(widget_id), prop: prop_hash, value };
                self.entries.set(i, e);
                assert forall|a: int, b: int|
                    0 <= a < self.entries@.len() && 0 <= b < self.entries@.len() && a != b
                        implies entry_key(#[trigger] self.entries@[a]) != entry_key(#[trigger] self.entries@[b]) by {
                    assert(entry_key(old_entries[a]) != entry_key(old_entries[b]));
                }
                assert forall|k2: (Seq<char>, u64)| #[trigger] self@.contains_key(k2) == old(self)@.insert(k, value).contains_key(k2) by {
                    if old(self)@.contains_key(k2) {
                        let j = choose|j: int| 0 <= j < old_entries.len() && entry_key(#[trigger] old_entries[j]) == k2;
                        assert(entry_key(self.entries@[j]) == k2);
                    }
                    if self@.contains_key(k2) {
                        let j = choose|j: int| 0 <= j < self.entries@.len() && entry_key(#[trigger] self.entries@[j]) == k2;
                        assert(entry_key(old_entries[j]) == k2);
                    }
                }
                assert forall|k2: (Seq<char>, u64)| #[trigger] self@.contains_key(k2) implies self@[k2] == old(self)@.insert(k, value)[k2] by {
                    let j = choose|j: int| 0 <= j < self.entries@.len() && entry_key(#[trigger] self.entries@[j]) == k2;
                    self.lemma_view_at(j);
                    if k2 != k {
                        old(self).lemma_view_at(j);
                    }
                }
                assert(self@ =~= old(self)@.insert(k, value));
            },
            None => {
                let e = PropEntry { widget: String::from_str(widget_id), prop: prop_hash, value };
                self.entries.push(e);
                let ghost n = old_entries.len() as int;
                assert forall|a: int, b: int|
                    0 <= a < self.entries@.len() && 0 <= b < self.entries@.len() && a != b
                        implies entry_key(#[trigger] self.entries@[a]) != entry_key(#[trigger] self.entries@[b]) by {
                    if a < n && b < n {
                        assert(entry_key(old_entries[a]) != entry_key(old_entries[b]));
                    } else if a < n {
                        old(self).lemma_view_at(a);
                    } else if b < n {
                        old(self).lemma_view_at(b);
                    }
                }
                assert forall|k2: (Seq<char>, u64)| #[trigger] self@.contains_key(k2) == old(self)@.insert(k, value).contains_key(k2) by {
                    if old(self)@.contains_key(k2) {
                        let j = choose|j: int| 0 <= j < old_entries.len() && entry_key(#[trigger] old_entries[j]) == k2;
                        assert(entry_key(self.entries@[j]) == k2);
                    }
                    if k2 == k {
                        assert(entry_key(self.entries@[n]) == k2);
                    }
                    if self@.contains_key(k2) {
                        let j = choose|j: int| 0 <= j < self.entries@.len() && entry_key(#[trigger] self.entries@[j]) == k2;
                        if j < n {
                            assert(entry_key(old_entries[j]) == k2);
                        }
                    }
                }
                assert forall|k2: (Seq<char>, u64)| #[trigger] self@.contains_key(k2) implies self@[k2] == old(self)@.insert(k, value)[k2] by {
                    let j = choose|j: int| 0 <= j < self.entries@.len() && entry_key(#[trigger] self.entries@[j]) == k2;
                    self.lemma_view_at(j);
                    if j < n {
                        old(self).lemma_view_at(j);
                    }
                }
                assert(self@ =~= old(self)@.insert(k, value));
            },
        }
    }

    /// The number of stored values.
    pub fn len(&self) -> (n: usize)
        ensures
            n == self.entries().len(),
    {
        self.entries.len()
    }

    /// The widget id, property hash and value of the entry at a position;
    /// the value is the one the table holds under that key.
    pub fn entry_at(&self, i: usize) -> (r: (&String, u64, &StoredValue))
        requires
            self.wf(),
            i < self.entries().len(),
        ensures
            (r.0@, r.1) == entry_key(self.entries()[i as int]),
            *r.2 == self.entries()[i as int].value,
            self@.contains_key((r.0@, r.1)),
            self@[(r.0@, r.1)] == *r.2,
    {
        proof {
            self.lemma_view_at(i as int);
        }
        let e = &self.entries[i];
        (&e.widget, e.prop, &e.value)
    }

    /// Removes every value stored for the widget.
    pub fn remove_widget(&mut self, widget_id: &str)
        requires
            old(self).wf(),
        ensures
            final(self).wf(),
            final(self)@ == old(self)@.restrict(
                old(self)@.dom().filter(|k: (Seq<char>, u64)| k.0 != widget_id@),
            ),
    {
        let ghost old_entries = self.entries@;
        let mut kept: Vec<PropEntry> = Vec::new();
        let mut rest: Vec<PropEntry> = Vec::new();
        std::mem::swap(&mut rest, &mut self.entries);
        let ghost src = rest@;
        assert(src == old_entries);
        // Entries are moved out back to front, so walk the indices downwards.
        while rest.len() > 0
            invariant
                src == old_entries,
                rest@ == src.take(rest@.len() as int),
                rest@.len() <= src.len(),
                forall|a: int| 0 <= a < kept@.len() ==> #[trigger] kept@[a].widget@ != widget_id@,
                forall|a: int| #![trigger kept@[a]] 0 <= a < kept@.len() ==> exists|b: int| rest@.len() <= b < src.len() && kept@[a] == #[trigger] src[b],
                forall|b: int| rest@.len() <= b < src.len() && (#[trigger] src[b]).widget@ != widget_id@
                    ==> exists|a: int| 0 <= a < kept@.len() && kept@[a] == src[b],
                forall|a: int, c: int| 0 <= a < kept@.len() && 0 <= c < kept@.len() && a != c
                    ==> entry_key(#[trigger] kept@[a]) != entry_key(#[trigger] kept@[c]),
                forall|p: int, q: int| 0 <= p < src.len() && 0 <= q < src.len() && p != q
                    ==> entry_key(#[trigger] src[p]) != entry_key(#[trigger] src[q]),
            decreases rest@.len(),
        {
            let ghost before = rest@;
            let e = rest.pop().unwrap();
            let ghost m = rest@.len() as int;
            assert(src[m] == e);
            assert(rest@ =~= src.take(m));
            if !str_eq(e.widget.as_str(), widget_id) {
                let ghost kept_before = kept@;
                kept.push(e);
                assert forall|a: int, c: int| 0 <= a < kept@.len() && 0 <= c < kept@.len() && a != c
                    implies entry_key(#[trigger] kept@[a]) != entry_key(#[trigger] kept@[c]) by {
                    if a < kept_before.len() && c < kept_before.len() {
                    } else if a < kept_before.len() {
                        let b = choose|b: int| m + 1 <= b < src.len() && kept@[a] == #[trigger] src[b];
                        assert(b != m);
                    } else {
                        let b = choose|b: int| m + 1 <= b < src.len() && kept@[c] == #[trigger] src[b];
                        assert(b != m);
                    }
                }
                assert forall|a: int| #![trigger kept@[a]] 0 <= a < kept@.len() implies exists|b: int| rest@.len() <= b < src.len() && kept@[a] == #[trigger] src[b] by {
                    if a == kept_before.len() {
                        assert(kept@[a] == src[m]);
                    } else {
                        let b = choose|b: int| m + 1 <= b < src.len() && kept_before[a] == #[trigger] src[b];
                        assert(kept@[a] == src[b]);
                    }
                }
                assert forall|b: int| rest@.len() <= b < src.len() && (#[trigger] src[b]).widget@ != widget_id@
                    implies exists|a: int| 0 <= a < kept@.len() && kept@[a] == src[b] by {
                    if b == m {
                        assert(kept@[kept_before.len() as int] == src[b]);
                    } else {
                        let a = choose|a: int| 0 <= a < kept_before.len() && kept_before[a] == src[b];
                        assert(kept@[a] == src[b]);
                    }
                }
            } else {
                assert forall|a: int| #![trigger kept@[a]] 0 <= a < kept@.len() implies exists|b: int| rest@.len() <= b < src.len() && kept@[a] == #[trigger] src[b] by {
                    let b = choose|b: int| m + 1 <= b < src.len() && kept@[a] == #[trigger] src[b];
                }
            }
        }
        self.entries = kept;
        let ghost target = old(self)@.restrict(old(self)@.dom().filter(|k: (Seq<char>, u64)| k.0 != widget_id@));
        assert forall|k2: (Seq<char>, u64)| #[trigger] self@.contains_key(k2) == target.contains_key(k2) by {
            if self@.contains_key(k2) {
                let a = choose|a: int| 0 <= a < self.entries@.len() && entry_key(#[trigger] self.entries@[a]) == k2;
                let b = choose|b: int| 0 <= b < src.len() && self.entries@[a] == #[trigger] src[b];
                old(self).lemma_view_at(b);
            }
            if target.contains_key(k2) {
                let b = choose|b: int| 0 <= b < old_entries.len() && entry_key(#[trigger] old_entries[b]) == k2;
                let a = choose|a: int| 0 <= a < self.entries@.len() && self.entries@[a] == src[b];
                assert(entry_key(self.entries@[a]) == k2);
            }
        }
        assert forall|k2: (Seq<char>, u64)| #[trigger] self@.contains_key(k2) implies self@[k2] == target[k2] by {
            let a = choose|a: int| 0 <= a < self.entries@.len() && entry_key(#[trigger] self.entries@[a]) == k2;
            self.lemma_view_at(a);
            let b = choose|b: int| 0 <= b < src.len() && self.entries@[a] == #[trigger] src[b];
            old(self).lemma_view_at(b);
        }
        assert(self@ =~= target);
    }
}

/// Reading after a write: the value written is read back under its key,
/// and every other key reads as before.
pub proof fn law_get_after_set(
    before: PropertyStorage,
    after: PropertyStorage,
    w: Seq<char>,
    h: u64,
    v: StoredValue,
    w2: Seq<char>,
    h2: u64,
)
    requires
        after@ == before@.insert((w, h), v),
    ensures
        after.lookup(w2, h2) == if w2 == w && h2 == h { Some(v) } else { before.lookup(w2, h2) },
{
}

/// Reading after removing a widget: none of its values is left, and the
/// values of every other widget read as before.
pub proof fn law_get_after_remove(before: PropertyStorage, after: PropertyStorage, w: Seq<char>, w2: Seq<char>, h2: u64)
    requires
        after@ == before@.restrict(before@.dom().filter(|k: (Seq<char>, u64)| k.0 != w)),
    ensures
        after.lookup(w2, h2) == if w2 == w { None } else { before.lookup(w2, h2) },
{
    let k = (w2, h2);
    if w2 == w {
        assert(!after@.contains_key(k));
    } else if before@.contains_key(k) {
        assert(before@.dom().filter(|k: (Seq<char>, u64)| k.0 != w).contains(k));
    }
}

} // verus!
