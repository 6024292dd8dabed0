use vstd::prelude::*;

use crate::align::{
    cast_align_items_2_string, cast_align_x_2_string, cast_align_y_2_string, cast_string_2_align_x,
    cast_string_2_align_y, alignment_name, horizontal_from_key, horizontal_name, vertical_from_key,
    vertical_name, Horizontal, Vertical,
};
use crate::blueprint::{kind_type_name, make_blueprint, AnyBlueprint, CommonWidgetMeta, HasCommonMeta, WidgetKind};
use crate::factory::{entries_insert, keys_in, Factory};
use crate::index_map::keys_unique;
use crate::property::{PropertyKey, StoredValue};
use crate::hash::{fnv1a_hash_64, fnv_str};
use crate::json::{get_member, json_of, lemma_member_first, member, member_in, parse_json, scalar_text, scalar_to_text, JsonValue};
use crate::text::{decimal_chars, option_key, owned, str_eq, string_views, usize_to_string};
use crate::utils::{all_digits, dec_value};

verus! {

/// One placed widget as a project file lists it: its id, its type name and
/// its layer index.
#[derive(Clone, Debug, PartialEq, Eq)]
pub struct BlueprintRecord {
    pub id: String,
    pub widget_type: String,
    pub local_index: usize,
}

/// What a project file holds of the widget store besides the property
/// values: the counter, the ids in their order, and a record per widget.
#[derive(Clone, Debug, PartialEq, Eq)]
pub struct ProjectOutline {
    pub field_counter: usize,
    pub widgets_order: Vec<String>,
    pub blueprints: Vec<BlueprintRecord>,
}

/// The record of one placed widget.
pub open spec fn record_of(e: (Seq<char>, AnyBlueprint)) -> (Seq<char>, Seq<char>, usize) {
    (e.0, kind_type_name(e.1.kind()), e.1.meta_spec().index)
}

/// The outline of the widget store: the counter, the ids in order, and per
/// widget its id, type name and layer index, in order.
pub fn project_outline(factory: &Factory) -> (r: ProjectOutline)
    requires
        factory.wf(),
    ensures
        r.field_counter == factory.counter(),
        string_views(r.widgets_order@) == factory.keys(),
        r.blueprints@.len() == factory.bps().len(),
        forall|i: int| 0 <= i < r.blueprints@.len() ==> (
            (#[trigger] r.blueprints@[i]).id@,
            r.blueprints@[i].widget_type@,
            r.blueprints@[i].local_index,
        ) == record_of(factory.bps()[i]),
{
    let n = factory.blueprint_count();
    let mut order: Vec<String> = Vec::new();
    let mut records: Vec<BlueprintRecord> = Vec::new();
    let mut i: usize = 0;
    while i < n
        invariant
            0 <= i <= n,
            n == factory.bps().len(),
            factory.wf(),
            string_views(order@) == factory.keys().take(i as int),
            records@.len() == i,
            forall|j: int| 0 <= j < i ==> (
                (#[trigger] records@[j]).id@,
                records@[j].widget_type@,
                records@[j].local_index,
            ) == record_of(factory.bps()[j]),
        decreases n - i,
    {
        let (id, bp) = factory.blueprint_at(i).unwrap();
        let ghost before = string_views(order@);
        order.push(id.clone());
        records.push(BlueprintRecord { id: id.clone(), widget_type: owned(bp.widget_type()), local_index: bp.get_index() });
        proof {
            assert(factory.keys()[i as int] == id@);
            assert(string_views(order@) =~= before.push(id@));
            assert(factory.keys().take(i + 1) =~= factory.keys().take(i as int).push(id@));
        }
        i += 1;
    }
    assert(factory.keys().take(n as int) =~= factory.keys());
    ProjectOutline { field_counter: factory.get_field_counter(), widgets_order: order, blueprints: records }
}

/// The widgets rebuilt from `(id, type name)` records, in order: a record
/// whose type has a registered maker puts a new blueprint of that kind
/// under its id (in place when the id is there already); any other record
/// is skipped.
pub open spec fn rebuilt_bps(f: Factory, recs: Seq<(String, Option<String>)>) -> Seq<(Seq<char>, AnyBlueprint)>
    decreases recs.len(),
{
    if recs.len() == 0 {
        Seq::empty()
    } else {
        let prev = rebuilt_bps(f, recs.drop_last());
        let last = recs.last();
        match last.1 {
            Some(t) => match f.creator_of(t@) {
                Some(k) => entries_insert(prev, last.0@, make_blueprint(k, CommonWidgetMeta { id: last.0, index: 0 })),
                None => prev,
            },
            None => prev,
        }
    }
}

/// What a project file keeps of each widget: its id, its kind, the id its
/// blueprint carries, and its layer index.
pub open spec fn widget_shapes(bps: Seq<(Seq<char>, AnyBlueprint)>) -> Seq<(Seq<char>, WidgetKind, Seq<char>, usize)> {
    bps.map_values(|e: (Seq<char>, AnyBlueprint)| (e.0, e.1.kind(), e.1.id(), e.1.meta_spec().index))
}

/// The records `recs` name the widgets of `bps` one for one: the same ids
/// in the same order, each with its type name.
pub open spec fn records_match(recs: Seq<(String, Option<String>)>, bps: Seq<(Seq<char>, AnyBlueprint)>) -> bool {
    &&& recs.len() == bps.len()
    &&& forall|i: int| 0 <= i < recs.len() ==> {
        &&& (#[trigger] recs[i]).0@ == bps[i].0
        &&& recs[i].1 matches Some(t) && t@ == kind_type_name(bps[i].1.kind())
    }
}

/// Every widget carries its own id and layer index 0, and its type name
/// has a registered maker of its kind in `g`: what `Factory::add_widget`
/// builds with the makers of `Factory::new`.
pub open spec fn rebuildable_in(g: Factory, bps: Seq<(Seq<char>, AnyBlueprint)>) -> bool {
    forall|i: int| 0 <= i < bps.len() ==> {
        &&& (#[trigger] bps[i]).1.id() == bps[i].0
        &&& bps[i].1.meta_spec().index == 0
        &&& g.creator_of(kind_type_name(bps[i].1.kind())) == Some(bps[i].1.kind())
    }
}

/// The blueprint made of a kind carries that kind.
pub proof fn lemma_make_blueprint_kind(k: WidgetKind, m: CommonWidgetMeta)
    ensures
        make_blueprint(k, m).kind() == k,
        make_blueprint(k, m).meta_spec() == m,
{
}

/// Rebuilding from the first `n` records gives the first `n` widgets.
proof fn lemma_rebuilt_prefix(g: Factory, recs: Seq<(String, Option<String>)>, bps: Seq<(Seq<char>, AnyBlueprint)>, n: int)
    requires
        keys_unique(bps),
        records_match(recs, bps),
        rebuildable_in(g, bps),
        0 <= n <= bps.len(),
    ensures
        widget_shapes(rebuilt_bps(g, recs.take(n))) == widget_shapes(bps.take(n)),
        keys_in(rebuilt_bps(g, recs.take(n))) == keys_in(bps.take(n)),
    decreases n,
{
    if n == 0 {
        assert(recs.take(0) =~= Seq::<(String, Option<String>)>::empty());
        assert(widget_shapes(bps.take(0)) =~= Seq::empty());
        assert(keys_in(bps.take(0)) =~= Seq::empty());
    } else {
        lemma_rebuilt_prefix(g, recs, bps, n - 1);
        let prev = rebuilt_bps(g, recs.take(n - 1));
        assert(recs.take(n).drop_last() =~= recs.take(n - 1));
        let last = recs.take(n).last();
        assert(last == recs[n - 1]);
        let e = bps[n - 1];
        let k = e.1.kind();
        assert(recs[n - 1].0@ == e.0);
        let t = recs[n - 1].1.unwrap();
        assert(g.creator_of(t@) == Some(k));
        let nb = make_blueprint(k, CommonWidgetMeta { id: last.0, index: 0 });
        lemma_make_blueprint_kind(k, CommonWidgetMeta { id: last.0, index: 0 });
        assert(keys_in(prev).len() == prev.len());
        assert(keys_in(bps.take(n - 1)).len() == n - 1);
        assert forall|j: int| 0 <= j < prev.len() implies (#[trigger] prev[j]).0 != e.0 by {
            assert(keys_in(prev)[j] == prev[j].0);
            assert(bps.take(n - 1)[j] == bps[j]);
            assert(keys_in(bps.take(n - 1))[j] == bps[j].0);
            assert(bps[j].0 != bps[n - 1].0);
        }
        assert(rebuilt_bps(g, recs.take(n)) == prev.push((e.0, nb)));
        assert(bps.take(n) =~= bps.take(n - 1).push(e));
        assert(widget_shapes(prev.push((e.0, nb))) =~= widget_shapes(prev).push((e.0, k, e.0, 0usize)));
        assert(widget_shapes(bps.take(n - 1).push(e)) =~= widget_shapes(bps.take(n - 1)).push((e.0, k, e.1.id(), e.1.meta_spec().index)));
        assert(keys_in(prev.push((e.0, nb))) =~= keys_in(prev).push(e.0));
        assert(keys_in(bps.take(n - 1).push(e)) =~= keys_in(bps.take(n - 1)).push(e.0));
    }
}

/// Saving and loading keep the widgets: rebuilding from the records of a
/// store's widgets (the ids in order, each with its type name, as
/// `project_outline` lists them) gives widgets of the same ids, kinds and
/// layer indices in the same order, whenever each widget carries its own
/// id and index 0 and its type has a maker of its kind.
pub proof fn law_rebuild_from_outline(f: Factory, g: Factory, recs: Seq<(String, Option<String>)>)
    requires
        f.wf(),
        records_match(recs, f.bps()),
        rebuildable_in(g, f.bps()),
    ensures
        widget_shapes(rebuilt_bps(g, recs)) == widget_shapes(f.bps()),
{
    lemma_rebuilt_prefix(g, recs, f.bps(), f.bps().len() as int);
    assert(recs.take(recs.len() as int) =~= recs);
    assert(f.bps().take(f.bps().len() as int) =~= f.bps());
}

/// Restores the widgets of a project: sets the counter, removes every
/// widget, and rebuilds the widgets from the `(id, type name)` records in
/// order. The property table is left as it is.
pub fn restore_project(factory: &mut Factory, field_counter: usize, records: &Vec<(String, Option<String>)>)
    requires
        old(factory).wf(),
    ensures
        final(factory).wf(),
        final(factory).counter() == field_counter,
        final(factory).bps() == rebuilt_bps(*old(factory), records@),
        final(factory).props() == old(factory).props(),
        final(factory).creator_entries() == old(factory).creator_entries(),
        final(factory).design_mode() == old(factory).design_mode(),
{
    let ghost f0 = *factory;
    factory.set_field_counter(field_counter);
    factory.clear_blueprints();
    let mut i: usize = 0;
    while i < records.len()
        invariant
            0 <= i <= records@.len(),
            factory.wf(),
            factory.counter() == field_counter,
            factory.bps() == rebuilt_bps(f0, records@.take(i as int)),
            factory.props() == f0.props(),
            factory.creator_entries() == f0.creator_entries(),
            factory.design_mode() == f0.design_mode(),
        decreases records@.len() - i,
    {
        proof {
            assert(records@.take(i + 1).drop_last() =~= records@.take(i as int));
            assert(records@.take(i + 1).last() == records@[i as int]);
        }
        let (id, wtype) = &records[i];
        match wtype {
            Some(t) => match factory.find_creator(t.as_str()) {
                Some(kind) => {
                    let bp = kind.create(id.clone());
                    factory.insert_blueprint(id, bp);
                },
                None => {},
            },
            None => {},
        }
        i += 1;
    }
    assert(records@.take(records@.len() as int) =~= records@);
}

/// The text a stored value is shown and saved as, for the values whose
/// text needs no number formatting: a text as it is, a count in decimal, a
/// flag as "true" or "false", an alignment by its name. `None` for the
/// others.
pub open spec fn value_text_of(v: StoredValue) -> Option<Seq<char>> {
    match v {
        StoredValue::Text(s) => Some(s@),
        StoredValue::USize(n) => Some(decimal_chars(n as nat)),
        StoredValue::Boolean(b) => Some(if b { "true"@ } else { "false"@ }),
        StoredValue::AlignItems(a) => Some(alignment_name(a)),
        StoredValue::AlignX(a) => Some(horizontal_name(a)),
        StoredValue::AlignY(a) => Some(vertical_name(a)),
        _ => None,
    }
}

/// The text of a stored value, as `value_text_of` says.
pub fn value_text(v: &StoredValue) -> (r: Option<String>)
    ensures
        match r {
            Some(s) => value_text_of(*v) == Some(s@),
            None => value_text_of(*v) is None,
        },
{
    match v {
        StoredValue::Text(s) => Some(s.clone()),
        StoredValue::USize(n) => Some(usize_to_string(*n)),
        StoredValue::Boolean(b) => Some(if *b { owned("true") } else { owned("false") }),
        StoredValue::AlignItems(a) => Some(cast_align_items_2_string(*a)),
        StoredValue::AlignX(a) => Some(cast_align_x_2_string(*a)),
        StoredValue::AlignY(a) => Some(cast_align_y_2_string(*a)),
        _ => None,
    }
}

/// Whether `r` is what a saved text restores for a property of the named
/// type, for the types read without number parsing: "String" gives the
/// text as it is, "bool" a flag from exactly "true" or "false", and
/// "Horizontal" and "Vertical" an alignment by name (Left and Top when the
/// name is unknown). Any other type, and a "bool" text that is neither,
/// gives `None`.
pub open spec fn restores(prop_type: Seq<char>, text: Seq<char>, r: Option<StoredValue>) -> bool {
    if prop_type == "String"@ {
        r matches Some(StoredValue::Text(s)) && s@ == text
    } else if prop_type == "bool"@ {
        r == if text == "true"@ {
            Some(StoredValue::Boolean(true))
        } else if text == "false"@ {
            Some(StoredValue::Boolean(false))
        } else {
            None
        }
    } else if prop_type == "Horizontal"@ {
        r == Some(StoredValue::AlignX(
            match horizontal_from_key(option_key(text)) {
                Some(h) => h,
                None => Horizontal::Left,
            },
        ))
    } else if prop_type == "Vertical"@ {
        r == Some(StoredValue::AlignY(
            match vertical_from_key(option_key(text)) {
                Some(v) => v,
                None => Vertical::Top,
            },
        ))
    } else {
        r is None
    }
}

/// The value a saved text restores for a property of the named type, as
/// `restores` says.
pub fn restore_value(prop_type: &str, text: &str) -> (r: Option<StoredValue>)
    ensures
        restores(prop_type@, text@, r),
{
    if str_eq(prop_type, "String") {
        Some(StoredValue::Text(owned(text)))
    } else if str_eq(prop_type, "bool") {
        if str_eq(text, "true") {
            Some(StoredValue::Boolean(true))
        } else if str_eq(text, "false") {
            Some(StoredValue::Boolean(false))
        } else {
            None
        }
    } else if str_eq(prop_type, "Horizontal") {
        let h = match cast_string_2_align_x(text) {
            Some(h) => h,
            None => Horizontal::Left,
        };
        Some(StoredValue::AlignX(h))
    } else if str_eq(prop_type, "Vertical") {
        let v = match cast_string_2_align_y(text) {
            Some(v) => v,
            None => Vertical::Top,
        };
        Some(StoredValue::AlignY(v))
    } else {
        None
    }
}

/// Restores one saved property of a widget: stores the value that
/// `restore_value` gives, if any, and says whether it stored one.
pub fn restore_property(factory: &mut Factory, widget_id: &str, key: &PropertyKey, prop_type: &str, text: &str) -> (stored: bool)
    requires
        old(factory).wf(),
    ensures
        final(factory).wf(),
        exists|v: Option<StoredValue>| #[trigger] restores(prop_type@, text@, v) && match v {
            Some(x) => stored && final(factory).props()@ == old(factory).props()@.insert((widget_id@, key.hash), x),
            None => !stored && final(factory).props()@ == old(factory).props()@,
        },
        final(factory).bps() == old(factory).bps(),
        final(factory).counter() == old(factory).counter(),
        final(factory).creator_entries() == old(factory).creator_entries(),
        final(factory).design_mode() == old(factory).design_mode(),
{
    let v = restore_value(prop_type, text);
    let ghost gv = v;
    match v {
        Some(x) => {
            factory.set(widget_id, key, x);
            true
        },
        None => false,
    }
}


/// A saved property whose value is a number, a length, a padding, a
/// radius or a colour: the library hands its text back to be read, as
/// these are floating-point values.
#[derive(Clone, Debug, PartialEq, Eq)]
pub struct FloatProperty {
    pub widget_id: String,
    pub name: String,
    pub prop_type: String,
    pub text: String,
}

/// Why a project text could not be loaded.
#[derive(Clone, Copy, Debug, PartialEq, Eq)]
pub enum LoadError {
    /// The text is not valid JSON.
    InvalidJson,
}

/// One saved property as a load reads it: the widget id, the property
/// name, the type the registry declares for the name, and the saved text.
pub type SavedItem = (Seq<char>, Seq<char>, Seq<char>, Seq<char>);

/// The type the registry of `(name, type)` pairs declares for a property
/// name: that of the first pair with the name.
pub open spec fn declared_type(reg: Seq<(String, String)>, name: Seq<char>) -> Option<Seq<char>>
    decreases reg.len(),
{
    if reg.len() == 0 {
        None
    } else {
        match declared_type(reg.drop_last(), name) {
            Some(t) => Some(t),
            None => if reg.last().0@ == name {
                Some(reg.last().1@)
            } else {
                None
            },
        }
    }
}

/// The saved property that one member `(name, value)` of a widget's table
/// gives: none when the value is not a scalar or the name is not declared.
pub open spec fn saved_item(w: String, m: (String, JsonValue), reg: Seq<(String, String)>) -> Seq<SavedItem> {
    match (scalar_text(m.1), declared_type(reg, m.0@)) {
        (Some(t), Some(ty)) => seq![(w@, m.0@, ty, t)],
        _ => Seq::empty(),
    }
}

/// The saved properties of one widget's table, in order.
pub open spec fn widget_items(w: String, ps: Seq<(String, JsonValue)>, reg: Seq<(String, String)>) -> Seq<SavedItem>
    decreases ps.len(),
{
    if ps.len() == 0 {
        Seq::empty()
    } else {
        widget_items(w, ps.drop_last(), reg) + saved_item(w, ps.last(), reg)
    }
}

/// The saved properties of one member `(widget id, table)`; none when the
/// table is not an object.
pub open spec fn member_items(m: (String, JsonValue), reg: Seq<(String, String)>) -> Seq<SavedItem> {
    match m.1 {
        JsonValue::Object(ps) => widget_items(m.0, ps@, reg),
        _ => Seq::empty(),
    }
}

/// The saved properties of the widgets' tables, in order.
pub open spec fn table_items(ws: Seq<(String, JsonValue)>, reg: Seq<(String, String)>) -> Seq<SavedItem>
    decreases ws.len(),
{
    if ws.len() == 0 {
        Seq::empty()
    } else {
        table_items(ws.drop_last(), reg) + member_items(ws.last(), reg)
    }
}

/// The saved properties of a project document: those of its
/// "field_values" object, widget by widget.
pub open spec fn saved_items(env: JsonValue, reg: Seq<(String, String)>) -> Seq<SavedItem> {
    match member(env, "field_values"@) {
        Some(JsonValue::Object(ws)) => table_items(ws@, reg),
        _ => Seq::empty(),
    }
}

/// The property types whose values are floating-point numbers.
pub open spec fn is_float_type(t: Seq<char>) -> bool {
    t == "f32"@ || t == "Length"@ || t == "Pixels"@ || t == "Padding"@ || t == "Radius"@ || t == "Color"@
}

/// The saved properties of floating-point types, in order.
pub open spec fn float_items(items: Seq<SavedItem>) -> Seq<SavedItem>
    decreases items.len(),
{
    if items.len() == 0 {
        Seq::empty()
    } else if is_float_type(items.last().2) {
        float_items(items.drop_last()).push(items.last())
    } else {
        float_items(items.drop_last())
    }
}

/// The views of returned floating-point properties.
pub open spec fn float_views(v: Seq<FloatProperty>) -> Seq<SavedItem> {
    v.map_values(|f: FloatProperty| (f.widget_id@, f.name@, f.prop_type@, f.text@))
}

/// A saved text that `restore_value` turns into a value for the type.
pub open spec fn restorable(ty: Seq<char>, text: Seq<char>) -> bool {
    ||| ty == "String"@
    ||| ty == "bool"@ && (text == "true"@ || text == "false"@)
    ||| ty == "Horizontal"@
    ||| ty == "Vertical"@
}

/// The saved property is stored by the load itself.
pub open spec fn applied(it: SavedItem) -> bool {
    !is_float_type(it.2) && restorable(it.2, it.3)
}

/// The last saved property that the load stores under the widget id and
/// property hash.
pub open spec fn last_set(items: Seq<SavedItem>, w: Seq<char>, h: u64) -> Option<SavedItem>
    decreases items.len(),
{
    if items.len() == 0 {
        None
    } else if applied(items.last()) && items.last().0 == w && fnv_str(items.last().1) == h {
        Some(items.last())
    } else {
        last_set(items.drop_last(), w, h)
    }
}

/// After storing the saved properties in order: a widget and property
/// hash that one of them was stored under holds what the last of them
/// restores; any other keeps its value.
pub open spec fn props_restored(before: Factory, after: Factory, items: Seq<SavedItem>) -> bool {
    forall|w: Seq<char>, h: u64|
        #![trigger after.value_of(w, h)]
        #![trigger last_set(items, w, h)]
        match last_set(items, w, h) {
            Some(it) => restores(it.2, it.3, after.value_of(w, h)),
            None => after.value_of(w, h) == before.value_of(w, h),
        }
}

/// The counter a project document saves: its "field_counter" when that is
/// a whole number in the `u64` range, else 0.
pub open spec fn counter_in(env: JsonValue) -> usize {
    match member(env, "field_counter"@) {
        Some(JsonValue::Number(t)) => if t@.len() > 0 && all_digits(t@) && dec_value(t@) <= u64::MAX {
            (dec_value(t@) as u64) as usize
        } else {
            0
        },
        _ => 0,
    }
}

/// The type name a widget id has under "blueprints": its "type" member
/// when that is a string.
pub open spec fn saved_type(env: JsonValue, id: Seq<char>) -> Option<String> {
    match member(env, "blueprints"@) {
        Some(b) => match member(b, id) {
            Some(info) => match member(info, "type"@) {
                Some(JsonValue::Text(t)) => Some(t),
                _ => None,
            },
            None => None,
        },
        None => None,
    }
}

/// The `(id, type name)` records of the strings in a widget order list.
pub open spec fn records_from(env: JsonValue, order: Seq<JsonValue>) -> Seq<(String, Option<String>)>
    decreases order.len(),
{
    if order.len() == 0 {
        Seq::empty()
    } else {
        let prev = records_from(env, order.drop_last());
        match order.last() {
            JsonValue::Text(id) => prev.push((id, saved_type(env, id@))),
            _ => prev,
        }
    }
}

/// The widget records of a project document: one per string of its
/// "widgets_order" array, with the type its blueprint saves; none when
/// there is no such array.
pub open spec fn records_in(env: JsonValue) -> Seq<(String, Option<String>)> {
    match member(env, "widgets_order"@) {
        Some(JsonValue::Array(order)) => records_from(env, order@),
        _ => Seq::empty(),
    }
}

/// What loading a project document does to the widget store: the counter
/// it saves, the widgets rebuilt from its records, the saved properties
/// stored in order, and the makers and mode kept.
pub open spec fn loaded(before: Factory, after: Factory, env: JsonValue, reg: Seq<(String, String)>) -> bool {
    &&& after.counter() == counter_in(env)
    &&& after.bps() == rebuilt_bps(before, records_in(env))
    &&& props_restored(before, after, saved_items(env, reg))
    &&& after.creator_entries() == before.creator_entries()
    &&& after.design_mode() == before.design_mode()
}


/// Reads a run of decimal digits as `u64::as_u64` sees an integer: its
/// value when it fits in 64 bits, else 0, and 0 for any other text.
fn counter_from_text(t: &String) -> (r: usize)
    ensures
        r == (if t@.len() > 0 && all_digits(t@) && dec_value(t@) <= u64::MAX {
            (dec_value(t@) as u64) as usize
        } else {
            0
        }),
{
    let cv = crate::text::chars_of(t.as_str());
    if cv.len() == 0 {
        return 0;
    }
    let mut v: u64 = 0;
    let mut i: usize = 0;
    while i < cv.len()
        invariant
            0 <= i <= cv@.len(),
            cv@ == t@,
            cv@.len() > 0,
            forall|j: int| 0 <= j < i ==> '0' <= #[trigger] cv@[j] && cv@[j] <= '9',
            v == dec_value(cv@.take(i as int)),
        decreases cv@.len() - i,
    {
        let c = cv[i];
        if !('0' <= c && c <= '9') {
            assert(!all_digits(t@));
            return 0;
        }
        let dig: u64 = (c as u64) - ('0' as u64);
        assert(cv@.take(i + 1).drop_last() =~= cv@.take(i as int));
        assert(cv@.take(i + 1).last() == c);
        if v > 1844674407370955161 || (v == 1844674407370955161 && dig > 5) {
            proof {
                assert(dec_value(cv@.take(i + 1)) == v * 10 + dig);
                if all_digits(t@) {
                    crate::utils::lemma_dec_value_prefix(t@, i + 1);
                }
            }
            return 0;
        }
        v = v * 10 + dig;
        i += 1;
    }
    assert(cv@.take(i as int) =~= t@);
    v as usize
}

/// The counter a project document saves, as `counter_in` says.
fn counter_of(env: &JsonValue) -> (r: usize)
    ensures
        r == counter_in(*env),
{
    match get_member(env, "field_counter") {
        Some(JsonValue::Number(t)) => counter_from_text(t),
        _ => 0,
    }
}

/// The type the registry declares for a property name, as
/// `declared_type` says.
fn declared_type_of(reg: &Vec<(String, String)>, name: &str) -> (r: Option<String>)
    ensures
        match r {
            Some(t) => declared_type(reg@, name@) == Some(t@),
            None => declared_type(reg@, name@) is None,
        },
{
    let mut i: usize = 0;
    while i < reg.len()
        invariant
            0 <= i <= reg@.len(),
            declared_type(reg@.take(i as int), name@) is None,
        decreases reg@.len() - i,
    {
        assert(reg@.take(i + 1).drop_last() =~= reg@.take(i as int));
        assert(reg@.take(i + 1).last() == reg@[i as int]);
        if str_eq(reg[i].0.as_str(), name) {
            proof { lemma_declared_prefix(reg@, name@, i + 1); }
            return Some(reg[i].1.clone());
        }
        i += 1;
    }
    assert(reg@.take(i as int) =~= reg@);
    None
}

/// A type found in a prefix of the registry is the type the whole
/// registry declares.
proof fn lemma_declared_prefix(reg: Seq<(String, String)>, name: Seq<char>, n: int)
    requires
        0 <= n <= reg.len(),
        declared_type(reg.take(n), name) is Some,
    ensures
        declared_type(reg, name) == declared_type(reg.take(n), name),
    decreases reg.len() - n,
{
    if n < reg.len() {
        assert(reg.take(n + 1).drop_last() =~= reg.take(n));
        lemma_declared_prefix(reg, name, n + 1);
    } else {
        assert(reg.take(n) =~= reg);
    }
}

/// The type name saved for a widget id, as `saved_type` says.
fn saved_type_of(env: &JsonValue, id: &str) -> (r: Option<String>)
    ensures
        r == saved_type(*env, id@),
{
    match get_member(env, "blueprints") {
        Some(b) => match get_member(b, id) {
            Some(info) => match get_member(info, "type") {
                Some(JsonValue::Text(t)) => Some(t.clone()),
                _ => None,
            },
            None => None,
        },
        None => None,
    }
}

/// The widget records of a project document, as `records_in` says.
fn records_of(env: &JsonValue) -> (r: Vec<(String, Option<String>)>)
    ensures
        r@ == records_in(*env),
{
    let mut out: Vec<(String, Option<String>)> = Vec::new();
    match get_member(env, "widgets_order") {
        Some(JsonValue::Array(order)) => {
            let mut i: usize = 0;
            while i < order.len()
                invariant
                    0 <= i <= order@.len(),
                    out@ == records_from(*env, order@.take(i as int)),
                decreases order@.len() - i,
            {
                assert(order@.take(i + 1).drop_last() =~= order@.take(i as int));
                assert(order@.take(i + 1).last() == order@[i as int]);
                match &order[i] {
                    JsonValue::Text(id) => {
                        let t = saved_type_of(env, id.as_str());
                        out.push((id.clone(), t));
                    },
                    _ => {},
                }
                i += 1;
            }
            assert(order@.take(i as int) =~= order@);
            out
        },
        _ => out,
    }
}

/// Rebuilding goes by the registered makers alone.
proof fn lemma_rebuilt_same_makers(f: Factory, g: Factory, recs: Seq<(String, Option<String>)>)
    requires
        f.creator_entries() == g.creator_entries(),
    ensures
        rebuilt_bps(f, recs) == rebuilt_bps(g, recs),
    decreases recs.len(),
{
    if recs.len() > 0 {
        lemma_rebuilt_same_makers(f, g, recs.drop_last());
    }
}


/// A restored value is there exactly when the text is restorable.
proof fn lemma_restores_some(ty: Seq<char>, text: Seq<char>, r: Option<StoredValue>)
    requires
        restores(ty, text, r),
    ensures
        r is Some <==> restorable(ty, text),
{
    reveal_strlit("String");
    reveal_strlit("bool");
    reveal_strlit("Horizontal");
    reveal_strlit("Vertical");
    assert("bool"@.len() != "Horizontal"@.len() && "bool"@.len() != "Vertical"@.len());
}

/// Whether a property type holds floating-point values, as
/// `is_float_type` says.
fn is_float_type_name(t: &str) -> (r: bool)
    ensures
        r == is_float_type(t@),
{
    str_eq(t, "f32") || str_eq(t, "Length") || str_eq(t, "Pixels") || str_eq(t, "Padding") || str_eq(t, "Radius")
        || str_eq(t, "Color")
}

/// Handles one saved property: a floating-point one is handed back in
/// `floats`; any other is stored under the widget id and the hash of its
/// name when its text restores a value.
fn apply_saved(
    factory: &mut Factory,
    floats: &mut Vec<FloatProperty>,
    w: &String,
    name: &String,
    ty: String,
    text: String,
    Ghost(f0): Ghost<Factory>,
    Ghost(items): Ghost<Seq<SavedItem>>,
)
    requires
        old(factory).wf(),
        props_restored(f0, *old(factory), items),
        float_views(old(floats)@) == float_items(items),
    ensures
        final(factory).wf(),
        final(factory).bps() == old(factory).bps(),
        final(factory).counter() == old(factory).counter(),
        final(factory).creator_entries() == old(factory).creator_entries(),
        final(factory).design_mode() == old(factory).design_mode(),
        props_restored(f0, *final(factory), items.push((w@, name@, ty@, text@))),
        float_views(final(floats)@) == float_items(items.push((w@, name@, ty@, text@))),
{
    let ghost it = (w@, name@, ty@, text@);
    let ghost all = items.push(it);
    let ghost before = *factory;
    assert(all.drop_last() =~= items);
    assert(all.last() == it);
    if is_float_type_name(ty.as_str()) {
        let ghost fl = floats@;
        floats.push(FloatProperty { widget_id: w.clone(), name: name.clone(), prop_type: ty, text: text });
        assert(float_views(floats@) =~= float_views(fl).push(it));
        assert forall|w2: Seq<char>, h2: u64| #[trigger] last_set(all, w2, h2) == last_set(items, w2, h2) by {}
    } else {
        assert(float_views(floats@) == float_items(all));
        let v = restore_value(ty.as_str(), text.as_str());
        proof { lemma_restores_some(ty@, text@, v); }
        match v {
            Some(x) => {
                let h = fnv1a_hash_64(name.as_str());
                factory.set_by_hash(w.as_str(), h, x);
                assert(applied(it));
                assert forall|w2: Seq<char>, h2: u64| #![trigger factory.value_of(w2, h2)] #![trigger last_set(all, w2, h2)]
                    match last_set(all, w2, h2) {
                        Some(i2) => restores(i2.2, i2.3, factory.value_of(w2, h2)),
                        None => factory.value_of(w2, h2) == f0.value_of(w2, h2),
                    } by {
                    if w2 == w@ && h2 == h {
                        assert(last_set(all, w2, h2) == Some(it));
                        assert(factory.value_of(w2, h2) == Some(x));
                    } else {
                        assert(last_set(all, w2, h2) == last_set(items, w2, h2));
                        assert(factory.value_of(w2, h2) == before.value_of(w2, h2));
                    }
                }
            },
            None => {
                assert forall|w2: Seq<char>, h2: u64| #[trigger] last_set(all, w2, h2) == last_set(items, w2, h2) by {}
            },
        }
    }
}


/// Stores the saved properties of a project document in order, as
/// `props_restored` says, and hands back the floating-point ones.
fn restore_saved(factory: &mut Factory, env: &JsonValue, reg: &Vec<(String, String)>) -> (r: Vec<FloatProperty>)
    requires
        old(factory).wf(),
    ensures
        final(factory).wf(),
        final(factory).bps() == old(factory).bps(),
        final(factory).counter() == old(factory).counter(),
        final(factory).creator_entries() == old(factory).creator_entries(),
        final(factory).design_mode() == old(factory).design_mode(),
        props_restored(*old(factory), *final(factory), saved_items(*env, reg@)),
        float_views(r@) == float_items(saved_items(*env, reg@)),
{
    let ghost f0 = *factory;
    let mut floats: Vec<FloatProperty> = Vec::new();
    assert(float_views(floats@) =~= Seq::<SavedItem>::empty());
    match get_member(env, "field_values") {
        Some(JsonValue::Object(ws)) => {
            let mut i: usize = 0;
            while i < ws.len()
                invariant
                    0 <= i <= ws@.len(),
                    factory.wf(),
                    factory.bps() == f0.bps(),
                    factory.counter() == f0.counter(),
                    factory.creator_entries() == f0.creator_entries(),
                    factory.design_mode() == f0.design_mode(),
                    props_restored(f0, *factory, table_items(ws@.take(i as int), reg@)),
                    float_views(floats@) == float_items(table_items(ws@.take(i as int), reg@)),
                decreases ws@.len() - i,
            {
                let w = &ws[i].0;
                let pv = &ws[i].1;
                let ghost t_i = table_items(ws@.take(i as int), reg@);
                proof {
                    assert(ws@.take(i + 1).drop_last() =~= ws@.take(i as int));
                    assert(ws@.take(i + 1).last() == ws@[i as int]);
                    assert(table_items(ws@.take(i + 1), reg@) == t_i + member_items(ws@[i as int], reg@));
                }
                match pv {
                    JsonValue::Object(ps) => {
                        let mut j: usize = 0;
                        assert(t_i + widget_items(*w, ps@.take(0), reg@) =~= t_i);
                        while j < ps.len()
                            invariant
                                0 <= j <= ps@.len(),
                                factory.wf(),
                                factory.bps() == f0.bps(),
                                factory.counter() == f0.counter(),
                                factory.creator_entries() == f0.creator_entries(),
                                factory.design_mode() == f0.design_mode(),
                                props_restored(f0, *factory, t_i + widget_items(*w, ps@.take(j as int), reg@)),
                                float_views(floats@) == float_items(t_i + widget_items(*w, ps@.take(j as int), reg@)),
                            decreases ps@.len() - j,
                        {
                            let ghost d = t_i + widget_items(*w, ps@.take(j as int), reg@);
                            let ghost sj = saved_item(*w, ps@[j as int], reg@);
                            proof {
                                assert(ps@.take(j + 1).drop_last() =~= ps@.take(j as int));
                                assert(ps@.take(j + 1).last() == ps@[j as int]);
                                assert(t_i + widget_items(*w, ps@.take(j + 1), reg@) =~= d + sj);
                            }
                            let name = &ps[j].0;
                            let val = &ps[j].1;
                            match scalar_to_text(val) {
                                Some(text) => match declared_type_of(reg, name.as_str()) {
                                    Some(ty) => {
                                        proof {
                                            assert(d + sj =~= d.push((w@, name@, ty@, text@)));
                                        }
                                        apply_saved(factory, &mut floats, w, name, ty, text, Ghost(f0), Ghost(d));
                                    },
                                    None => {
                                        assert(d + sj =~= d);
                                    },
                                },
                                None => {
                                    assert(d + sj =~= d);
                                },
                            }
                            j += 1;
                        }
                        proof {
                            assert(ps@.take(j as int) =~= ps@);
                            assert(ws@[i as int].1 == JsonValue::Object(*ps));
                        }
                    },
                    _ => {
                        assert(t_i + member_items(ws@[i as int], reg@) =~= t_i);
                    },
                }
                i += 1;
            }
            proof {
                assert(ws@.take(i as int) =~= ws@);
            }
            floats
        },
        _ => {
            assert(props_restored(f0, *factory, saved_items(*env, reg@)));
            floats
        },
    }
}

/// Loads a parsed project document, as `loaded` says: the counter it
/// saves, its saved properties stored in order, and the widgets rebuilt
/// from its records. The floating-point properties are handed back in
/// order, to be read and stored by the caller.
pub fn load_document(factory: &mut Factory, env: &JsonValue, registry: &Vec<(String, String)>) -> (r: Vec<FloatProperty>)
    requires
        old(factory).wf(),
    ensures
        final(factory).wf(),
        loaded(*old(factory), *final(factory), *env, registry@),
        float_views(r@) == float_items(saved_items(*env, registry@)),
{
    let ghost f0 = *factory;
    let counter = counter_of(env);
    let floats = restore_saved(factory, env, registry);
    let records = records_of(env);
    let ghost f1 = *factory;
    restore_project(factory, counter, &records);
    proof {
        lemma_rebuilt_same_makers(f1, f0, records@);
        assert forall|w: Seq<char>, h: u64| #[trigger] factory.value_of(w, h) == f1.value_of(w, h) by {}
    }
    floats
}

/// Loads a project from its JSON text: the counter it saves, the
/// properties of its "field_values" stored in order (those of a type the
/// `(name, type)` registry declares; the floating-point ones are handed
/// back to be read), and the widgets rebuilt from its "widgets_order" and
/// "blueprints". A text that is not JSON is refused and changes nothing.
pub fn deserialize_from_json_string(
    factory: &mut Factory,
    json_text: &str,
    registry: &Vec<(String, String)>,
) -> (r: Result<Vec<FloatProperty>, LoadError>)
    requires
        old(factory).wf(),
    ensures
        final(factory).wf(),
        json_of(json_text@) is None <==> r is Err,
        r is Err ==> r == Err::<Vec<FloatProperty>, LoadError>(LoadError::InvalidJson) && *final(factory) == *old(factory),
        json_of(json_text@) matches Some(env) ==> {
            &&& loaded(*old(factory), *final(factory), env, registry@)
            &&& r matches Ok(v) && float_views(v@) == float_items(saved_items(env, registry@))
        },
{
    match parse_json(json_text) {
        Some(env) => Ok(load_document(factory, &env, registry)),
        None => Err(LoadError::InvalidJson),
    }
}


/// The decimal text of a number is a non-empty run of digits whose value
/// is the number.
pub proof fn lemma_decimal_value(n: nat)
    ensures
        decimal_chars(n).len() > 0,
        all_digits(decimal_chars(n)),
        dec_value(decimal_chars(n)) == n,
    decreases n,
{
    if n < 10 {
        let c = (('0' as u32) + n) as char;
        assert(decimal_chars(n) == seq![c]);
        assert(seq![c].drop_last() =~= Seq::<char>::empty());
        assert((c as u32) == 48 + n);
        assert(seq![c].last() == c);
        assert(dec_value(seq![c]) == dec_value(seq![c].drop_last()) * 10 + ((c as u32) - ('0' as u32)) as nat);
    } else {
        lemma_decimal_value(n / 10);
        let p = decimal_chars(n / 10);
        let c = (('0' as u32) + (n % 10)) as char;
        assert(decimal_chars(n) == p.push(c));
        assert(p.push(c).drop_last() =~= p);
        assert((c as u32) == 48 + n % 10);
        assert((n / 10) * 10 + n % 10 == n) by (nonlinear_arith);
        assert(p.push(c).last() == c);
        assert(dec_value(p.push(c)) == dec_value(p) * 10 + ((c as u32) - ('0' as u32)) as nat);
        assert forall|i: int| 0 <= i < p.push(c).len() implies '0' <= #[trigger] p.push(c)[i] && p.push(c)[i] <= '9' by {
            if i < p.len() {
                assert(p.push(c)[i] == p[i]);
            }
        }
    }
}

/// A widget's record in a saved document: its "type" is the type name of
/// its kind, and its "meta" holds its id and its layer index in decimal.
pub open spec fn widget_record_saved(rec: JsonValue, e: (Seq<char>, AnyBlueprint)) -> bool {
    &&& member(rec, "type"@) matches Some(JsonValue::Text(t)) && t@ == kind_type_name(e.1.kind())
    &&& member(rec, "meta"@) matches Some(m) && member(m, "id"@) matches Some(JsonValue::Text(i)) && i@ == e.0
    &&& member(rec, "meta"@) matches Some(m) && member(m, "local_index"@) matches Some(JsonValue::Number(x))
        && x@ == decimal_chars(e.1.meta_spec().index as nat)
}

/// The document a save writes for a widget store: "field_counter" in
/// decimal, "widgets_order" with the ids in order, "blueprints" with each
/// widget's record under its id, in order, and "field_values" as given.
pub open spec fn saved_document(f: Factory, values: JsonValue, doc: JsonValue) -> bool {
    &&& member(doc, "field_counter"@) matches Some(JsonValue::Number(c)) && c@ == decimal_chars(f.counter() as nat)
    &&& member(doc, "widgets_order"@) matches Some(JsonValue::Array(order)) && order@.len() == f.bps().len()
        && forall|i: int| 0 <= i < order@.len() ==> ((#[trigger] order@[i]) matches JsonValue::Text(k) && k@ == f.bps()[i].0)
    &&& member(doc, "blueprints"@) matches Some(JsonValue::Object(b)) && b@.len() == f.bps().len()
        && forall|i: int| 0 <= i < b@.len() ==> (#[trigger] b@[i]).0@ == f.bps()[i].0 && widget_record_saved(b@[i].1, f.bps()[i])
    &&& member(doc, "field_values"@) == Some(values)
}


/// The record a save writes for one widget, as `widget_record_saved`
/// says.
fn widget_record(id: &String, bp: &AnyBlueprint) -> (r: JsonValue)
    ensures
        widget_record_saved(r, (id@, *bp)),
{
    let mfields = vec![
        (owned("id"), JsonValue::Text(id.clone())),
        (owned("local_index"), JsonValue::Number(usize_to_string(bp.get_index()))),
    ];
    let ghost mf = mfields@;
    let meta = JsonValue::Object(mfields);
    let fields = vec![(owned("type"), JsonValue::Text(owned(bp.widget_type()))), (owned("meta"), meta)];
    let ghost ff = fields@;
    proof {
        reveal_strlit("type");
        reveal_strlit("meta");
        reveal_strlit("id");
        reveal_strlit("local_index");
        assert(ff[0].0@ == "type"@);
        assert(mf[0].0@ == "id"@);
        assert("type"@[0] != "meta"@[0]);
        assert("id"@.len() != "local_index"@.len());
        assert(ff[0].0@ != "meta"@);
        assert(mf[0].0@ != "local_index"@);
        lemma_member_first(ff, "type"@, 0);
        lemma_member_first(ff, "meta"@, 1);
        lemma_member_first(mf, "id"@, 0);
        lemma_member_first(mf, "local_index"@, 1);
    }
    JsonValue::Object(fields)
}


/// The document a save writes for the widget store, as `saved_document`
/// says; `values` is the property table, already in its saved form.
pub fn project_document(factory: &Factory, values: JsonValue) -> (r: JsonValue)
    requires
        factory.wf(),
    ensures
        saved_document(*factory, values, r),
{
    let n = factory.blueprint_count();
    let mut order: Vec<JsonValue> = Vec::new();
    let mut records: Vec<(String, JsonValue)> = Vec::new();
    let mut i: usize = 0;
    while i < n
        invariant
            0 <= i <= n,
            n == factory.bps().len(),
            order@.len() == i,
            records@.len() == i,
            forall|j: int| 0 <= j < i ==> ((#[trigger] order@[j]) matches JsonValue::Text(k) && k@ == factory.bps()[j].0),
            forall|j: int| 0 <= j < i ==> (#[trigger] records@[j]).0@ == factory.bps()[j].0
                && widget_record_saved(records@[j].1, factory.bps()[j]),
        decreases n - i,
    {
        let (id, bp) = factory.blueprint_at(i).unwrap();
        order.push(JsonValue::Text(id.clone()));
        let rec = widget_record(id, bp);
        records.push((id.clone(), rec));
        i += 1;
    }
    let ghost ov = order@;
    let ghost rv = records@;
    let counter_text = usize_to_string(factory.get_field_counter());
    let fields = vec![
        (owned("blueprints"), JsonValue::Object(records)),
        (owned("field_counter"), JsonValue::Number(counter_text)),
        (owned("field_values"), values),
        (owned("widgets_order"), JsonValue::Array(order)),
    ];
    let ghost ff = fields@;
    proof {
        reveal_strlit("blueprints");
        reveal_strlit("field_counter");
        reveal_strlit("field_values");
        reveal_strlit("widgets_order");
        assert(ff[0].0@ == "blueprints"@);
        assert(ff[1].0@ == "field_counter"@);
        assert(ff[2].0@ == "field_values"@);
        assert(ff[3].0@ == "widgets_order"@);
        assert("blueprints"@.len() != "field_counter"@.len());
        assert("blueprints"@.len() != "field_values"@.len());
        assert("blueprints"@.len() != "widgets_order"@.len());
        assert("field_counter"@.len() != "field_values"@.len());
        assert("field_values"@.len() != "widgets_order"@.len());
        assert("field_counter"@[0] != "widgets_order"@[0]);
        lemma_member_first(ff, "blueprints"@, 0);
        lemma_member_first(ff, "field_counter"@, 1);
        lemma_member_first(ff, "field_values"@, 2);
        lemma_member_first(ff, "widgets_order"@, 3);
    }
    JsonValue::Object(fields)
}


/// The records a saved document lists are, in order, the ids and type
/// names of the first `n` widgets.
proof fn lemma_saved_records(
    f: Factory,
    doc: JsonValue,
    order: Seq<JsonValue>,
    bv: Vec<(String, JsonValue)>,
    n: int,
)
    requires
        f.wf(),
        0 <= n <= order.len(),
        order.len() == f.bps().len(),
        forall|i: int| 0 <= i < order.len() ==> ((#[trigger] order[i]) matches JsonValue::Text(k) && k@ == f.bps()[i].0),
        member(doc, "blueprints"@) == Some(JsonValue::Object(bv)),
        bv@.len() == f.bps().len(),
        forall|i: int| 0 <= i < bv@.len() ==> (#[trigger] bv@[i]).0@ == f.bps()[i].0 && widget_record_saved(bv@[i].1, f.bps()[i]),
    ensures
        records_match(records_from(doc, order.take(n)), f.bps().take(n)),
    decreases n,
{
    let bps = f.bps();
    if n == 0 {
        assert(order.take(0) =~= Seq::<JsonValue>::empty());
        assert(bps.take(0) =~= Seq::<(Seq<char>, AnyBlueprint)>::empty());
    } else {
        lemma_saved_records(f, doc, order, bv, n - 1);
        let prev = records_from(doc, order.take(n - 1));
        assert(order.take(n).drop_last() =~= order.take(n - 1));
        assert(order.take(n).last() == order[n - 1]);
        let k = order[n - 1]->Text_0;
        assert(order[n - 1] == JsonValue::Text(k));
        assert(k@ == bps[n - 1].0);
        assert(records_from(doc, order.take(n)) == prev.push((k, saved_type(doc, k@))));
        assert forall|i: int| 0 <= i < n - 1 implies (#[trigger] bv@[i]).0@ != k@ by {
            assert(bps[i].0 != bps[n - 1].0);
        }
        lemma_member_first(bv@, k@, n - 1);
        let rec = bv@[n - 1].1;
        assert(widget_record_saved(rec, bps[n - 1]));
        let t = member(rec, "type"@).unwrap()->Text_0;
        assert(saved_type(doc, k@) == Some(t));
        assert(bps.take(n) =~= bps.take(n - 1).push(bps[n - 1]));
        let recs = prev.push((k, saved_type(doc, k@)));
        assert forall|i: int| 0 <= i < recs.len() implies {
            &&& (#[trigger] recs[i]).0@ == bps.take(n)[i].0
            &&& recs[i].1 matches Some(tt) && tt@ == kind_type_name(bps.take(n)[i].1.kind())
        } by {
            if i < n - 1 {
                assert(recs[i] == prev[i]);
                assert(bps.take(n)[i] == bps.take(n - 1)[i]);
            }
        }
    }
}

/// Saving and loading keep the widget store: loading the document a save
/// writes for a store (into a store whose makers build each kind under
/// its type name) gives back its counter and its widgets, with the same
/// ids, kinds and layer indices in the same order, whenever each widget
/// carries its own id and layer index 0.
pub proof fn law_save_then_load(
    f: Factory,
    values: JsonValue,
    doc: JsonValue,
    g: Factory,
    h: Factory,
    reg: Seq<(String, String)>,
)
    requires
        f.wf(),
        saved_document(f, values, doc),
        rebuildable_in(g, f.bps()),
        loaded(g, h, doc, reg),
    ensures
        h.counter() == f.counter(),
        widget_shapes(h.bps()) == widget_shapes(f.bps()),
{
    lemma_decimal_value(f.counter() as nat);
    let order = member(doc, "widgets_order"@).unwrap()->Array_0;
    let bv = member(doc, "blueprints"@).unwrap()->Object_0;
    lemma_saved_records(f, doc, order@, bv, order@.len() as int);
    assert(order@.take(order@.len() as int) =~= order@);
    assert(f.bps().take(f.bps().len() as int) =~= f.bps());
    assert(records_in(doc) == records_from(doc, order@));
    law_rebuild_from_outline(f, g, records_in(doc));
}


/// A load hands back every saved property of a floating-point type (a
/// number, length, pixel size, padding, radius or colour), and never one
/// of a type it stores itself (a text, a flag or an alignment).
pub proof fn law_load_hands_back_floats(items: Seq<SavedItem>, i: int)
    requires
        0 <= i < items.len(),
    ensures
        (items[i].2 == "f32"@ || items[i].2 == "Length"@ || items[i].2 == "Pixels"@ || items[i].2 == "Padding"@
            || items[i].2 == "Radius"@ || items[i].2 == "Color"@) ==> float_items(items).contains(items[i]),
        (items[i].2 == "String"@ || items[i].2 == "bool"@ || items[i].2 == "Horizontal"@ || items[i].2 == "Vertical"@)
            ==> !float_items(items).contains(items[i]),
    decreases items.len(),
{
    reveal_strlit("f32");
    reveal_strlit("Length");
    reveal_strlit("Pixels");
    reveal_strlit("Padding");
    reveal_strlit("Radius");
    reveal_strlit("Color");
    reveal_strlit("String");
    reveal_strlit("bool");
    reveal_strlit("Horizontal");
    reveal_strlit("Vertical");
    let d = items.drop_last();
    if i < items.len() - 1 {
        law_load_hands_back_floats(d, i);
        assert(d[i] == items[i]);
        if is_float_type(items.last().2) {
            assert(float_items(items) == float_items(d).push(items.last()));
            if float_items(d).contains(items[i]) {
                let j = choose|j: int| 0 <= j < float_items(d).len() && float_items(d)[j] == items[i];
                assert(float_items(items)[j] == items[i]);
            }
            if float_items(items).contains(items[i]) && !float_items(d).contains(items[i]) {
                assert(items.last() == items[i]);
            }
        }
    } else {
        if is_float_type(items[i].2) {
            assert(float_items(items) == float_items(d).push(items.last()));
            assert(float_items(items)[float_items(d).len() as int] == items[i]);
        }
    }
    if items[i].2 == "String"@ || items[i].2 == "bool"@ || items[i].2 == "Horizontal"@ || items[i].2 == "Vertical"@ {
        lemma_float_items_are_float(items);
        assert("String"@[0] != "Length"@[0] && "String"@[0] != "Pixels"@[0] && "String"@[0] != "Radius"@[0]);
        assert("String"@.len() != "f32"@.len() && "String"@.len() != "Padding"@.len() && "String"@.len() != "Color"@.len());
        assert(!is_float_type(items[i].2));
        if float_items(items).contains(items[i]) {
            let j = choose|j: int| 0 <= j < float_items(items).len() && float_items(items)[j] == items[i];
            assert(is_float_type(float_items(items)[j].2));
        }
    }
}

/// Every handed-back property has a floating-point type.
proof fn lemma_float_items_are_float(items: Seq<SavedItem>)
    ensures
        forall|j: int| 0 <= j < float_items(items).len() ==> is_float_type((#[trigger] float_items(items)[j]).2),
    decreases items.len(),
{
    if items.len() > 0 {
        let d = items.drop_last();
        lemma_float_items_are_float(d);
        if is_float_type(items.last().2) {
            assert(float_items(items) == float_items(d).push(items.last()));
            assert forall|j: int| 0 <= j < float_items(items).len() implies is_float_type((#[trigger] float_items(items)[j]).2) by {
                if j < float_items(d).len() {
                    assert(float_items(items)[j] == float_items(d)[j]);
                }
            }
        } else {
            assert(float_items(items) == float_items(d));
        }
    }
}

/// Writing a flag or a text as the text a save keeps, and restoring it as
/// a property of the matching type, gives the same value back.
pub proof fn law_value_text_restores(v: StoredValue)
    ensures
        v matches StoredValue::Boolean(b) ==> (value_text_of(v) matches Some(t) && restores("bool"@, t, Some(v))),
        v matches StoredValue::Text(s) ==> (value_text_of(v) matches Some(t) && restores("String"@, t, Some(v))),
{
    reveal_strlit("bool");
    reveal_strlit("String");
    reveal_strlit("true");
    reveal_strlit("false");
    assert("String"@.len() != "bool"@.len());
    assert("true"@.len() != "false"@.len());
}

} // verus!
