use vstd::prelude::*;

use crate::factory::{chains_end_in, props_with_text, Factory};
use crate::hash::{fnv1a_hash_64, fnv_str};
use crate::message::PropertyValue;
use crate::property::{parent_hash, PropertyKey, StoredValue};

verus! {

/// The stored value a property update writes under the key's own hash,
/// for the kinds of update that write one value.
pub open spec fn stored_for(v: PropertyValue) -> Option<StoredValue> {
    match v {
        PropertyValue::Text(s) => Some(StoredValue::Text(s)),
        PropertyValue::USize(n) => Some(StoredValue::USize(n)),
        PropertyValue::Float(f) => Some(StoredValue::Float(f)),
        PropertyValue::Integer(i) => Some(StoredValue::Integer(i)),
        PropertyValue::Boolean(b) => Some(StoredValue::Boolean(b)),
        PropertyValue::Color(c) => Some(StoredValue::Color(c)),
        PropertyValue::Pixels(p) => Some(StoredValue::Pixels(p)),
        PropertyValue::Padding(p) => Some(StoredValue::Padding(p)),
        PropertyValue::Radius(r) => Some(StoredValue::Radius(r)),
        PropertyValue::AlignItems(a) => Some(StoredValue::AlignItems(a)),
        PropertyValue::AlignX(a) => Some(StoredValue::AlignX(a)),
        PropertyValue::AlignY(a) => Some(StoredValue::AlignY(a)),
        _ => None,
    }
}

/// The name under which the pixel size that goes with a length property
/// `name` is stored.
pub open spec fn pixels_name(name: Seq<char>) -> Seq<char> {
    name + ":pixels"@
}

/// What a property update does to the store: the widgets, counter,
/// makers and design mode stay; a new parent is granted or refused as
/// `Factory::set_blueprint_parent` says; a length stores its pixel size as
/// a float under the hash of "`name`:pixels" and then the length under the
/// key's hash; `Quad` and `Size` store nothing; any other value is stored
/// under the key's hash.
pub open spec fn property_updated(before: Factory, after: Factory, w: Seq<char>, key: PropertyKey, value: PropertyValue) -> bool {
    &&& after.wf()
    &&& after.bps() == before.bps()
    &&& after.counter() == before.counter()
    &&& after.creator_entries() == before.creator_entries()
    &&& after.design_mode() == before.design_mode()
    &&& match value {
        PropertyValue::Parent(pid) => {
            &&& match before.parent_assignment(w, pid@) {
                Some(t) => props_with_text(before.props()@, after.props()@, (w, parent_hash()), t),
                None => after.props()@ == before.props()@,
            }
            &&& (chains_end_in(before.props()) ==> chains_end_in(after.props()))
        },
        PropertyValue::Length(l, px) => after.props()@ == before.props()@.insert(
            (w, fnv_str(pixels_name(key.name@))),
            StoredValue::Float(px),
        ).insert((w, key.hash), StoredValue::Length(l)),
        PropertyValue::Quad(_, _) => after.props()@ == before.props()@,
        PropertyValue::Size(_) => after.props()@ == before.props()@,
        _ => after.props()@ == before.props()@.insert((w, key.hash), stored_for(value).unwrap()),
    }
}

/// Applies an update from the inspector to a widget property, as
/// `property_updated` says.
pub fn handle_property_update(factory: &mut Factory, widget_id: String, property_key: PropertyKey, value: PropertyValue)
    requires
        old(factory).wf(),
    ensures
        property_updated(*old(factory), *final(factory), widget_id@, property_key, value),
{
    let prop_hash = property_key.hash;
    match value {
        PropertyValue::Parent(parent_id) => {
            factory.set_blueprint_parent(widget_id.as_str(), parent_id.as_str());
        },
        PropertyValue::Text(txt) => {
            factory.set_by_hash(widget_id.as_str(), prop_hash, StoredValue::Text(txt));
        },
        PropertyValue::USize(num) => {
            factory.set_by_hash(widget_id.as_str(), prop_hash, StoredValue::USize(num));
        },
        PropertyValue::Float(num) => {
            factory.set_by_hash(widget_id.as_str(), prop_hash, StoredValue::Float(num));
        },
        PropertyValue::Integer(num) => {
            factory.set_by_hash(widget_id.as_str(), prop_hash, StoredValue::Integer(num));
        },
        PropertyValue::Boolean(flag) => {
            factory.set_by_hash(widget_id.as_str(), prop_hash, StoredValue::Boolean(flag));
        },
        PropertyValue::Color(color) => {
            factory.set_by_hash(widget_id.as_str(), prop_hash, StoredValue::Color(color));
        },
        PropertyValue::Length(length, pixels) => {
            let pixels_key = property_key.name.clone().concat(":pixels");
            let hash_key_pixels = fnv1a_hash_64(pixels_key.as_str());
            factory.set_by_hash(widget_id.as_str(), hash_key_pixels, StoredValue::Float(pixels));
            factory.set_by_hash(widget_id.as_str(), prop_hash, StoredValue::Length(length));
        },
        PropertyValue::Pixels(pixels) => {
            factory.set_by_hash(widget_id.as_str(), prop_hash, StoredValue::Pixels(pixels));
        },
        PropertyValue::Padding(padding) => {
            factory.set_by_hash(widget_id.as_str(), prop_hash, StoredValue::Padding(padding));
        },
        PropertyValue::Radius(radius) => {
            factory.set_by_hash(widget_id.as_str(), prop_hash, StoredValue::Radius(radius));
        },
        PropertyValue::AlignItems(align) => {
            factory.set_by_hash(widget_id.as_str(), prop_hash, StoredValue::AlignItems(align));
        },
        PropertyValue::AlignX(align) => {
            factory.set_by_hash(widget_id.as_str(), prop_hash, StoredValue::AlignX(align));
        },
        PropertyValue::AlignY(align) => {
            factory.set_by_hash(widget_id.as_str(), prop_hash, StoredValue::AlignY(align));
        },
        PropertyValue::Quad(_, _) => {},
        PropertyValue::Size(_) => {},
    }
}

/// Reading a property after an update from the inspector gives the value
/// the update stores under the key (for a length, the length), and leaves
/// the values of every other widget as they were.
pub proof fn law_read_after_update(before: Factory, after: Factory, w: Seq<char>, key: PropertyKey, value: PropertyValue, w2: Seq<char>, h2: u64)
    requires
        property_updated(before, after, w, key, value),
    ensures
        stored_for(value) is Some ==> after.value_of(w, key.hash) == stored_for(value),
        value matches PropertyValue::Length(l, _) ==> after.value_of(w, key.hash) == Some(StoredValue::Length(l)),
        w2 != w ==> after.value_of(w2, h2) == before.value_of(w2, h2),
{
    let k2 = (w2, h2);
    if w2 != w {
        match value {
            PropertyValue::Parent(pid) => {
                let k = (w, parent_hash());
                assert(k2 != k);
                assert(after.props()@.remove(k).contains_key(k2) == after.props()@.contains_key(k2));
                assert(before.props()@.remove(k).contains_key(k2) == before.props()@.contains_key(k2));
                if after.props()@.contains_key(k2) {
                    assert(after.props()@.remove(k)[k2] == after.props()@[k2]);
                    assert(before.props()@.remove(k)[k2] == before.props()@[k2]);
                }
            },
            _ => {
                assert(after.props()@.contains_key(k2) == before.props()@.contains_key(k2));
            },
        }
    }
}


/// An update from the inspector stores exactly the value it carries, in
/// the stored form of its own kind, under the widget and the key's hash:
/// a text as that text, a flag as that flag, a number, colour, size or
/// alignment as itself.
pub proof fn law_update_stores_its_value(before: Factory, after: Factory, w: Seq<char>, key: PropertyKey, value: PropertyValue)
    requires
        property_updated(before, after, w, key, value),
    ensures
        value matches PropertyValue::Text(s) ==> after.value_of(w, key.hash) == Some(StoredValue::Text(s)),
        value matches PropertyValue::USize(n) ==> after.value_of(w, key.hash) == Some(StoredValue::USize(n)),
        value matches PropertyValue::Float(x) ==> after.value_of(w, key.hash) == Some(StoredValue::Float(x)),
        value matches PropertyValue::Integer(i) ==> after.value_of(w, key.hash) == Some(StoredValue::Integer(i)),
        value matches PropertyValue::Boolean(b) ==> after.value_of(w, key.hash) == Some(StoredValue::Boolean(b)),
        value matches PropertyValue::Color(c) ==> after.value_of(w, key.hash) == Some(StoredValue::Color(c)),
        value matches PropertyValue::Pixels(p) ==> after.value_of(w, key.hash) == Some(StoredValue::Pixels(p)),
        value matches PropertyValue::Padding(p) ==> after.value_of(w, key.hash) == Some(StoredValue::Padding(p)),
        value matches PropertyValue::Radius(r) ==> after.value_of(w, key.hash) == Some(StoredValue::Radius(r)),
        value matches PropertyValue::AlignItems(a) ==> after.value_of(w, key.hash) == Some(StoredValue::AlignItems(a)),
        value matches PropertyValue::AlignX(a) ==> after.value_of(w, key.hash) == Some(StoredValue::AlignX(a)),
        value matches PropertyValue::AlignY(a) ==> after.value_of(w, key.hash) == Some(StoredValue::AlignY(a)),
        value matches PropertyValue::Length(l, _) ==> after.value_of(w, key.hash) == Some(StoredValue::Length(l)),
{
}

} // verus!
