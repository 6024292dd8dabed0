use iced_forms::blueprint::{AnyBlueprint, ColumnBlueprint, DummyBlueprint, PinBlueprint, TextBlueprint, WidgetKind};
use iced_forms::factory::{Factory, WalkOutcome};
use iced_forms::property::{prop_parent, PropertyKey, StoredValue};

fn parent_of(f: &Factory, id: &str) -> String {
    f.parent_string(id)
}

#[test]
fn new_factory_registers_every_kind() {
    let f = Factory::new();
    assert_eq!(f.find_creator("column"), Some(WidgetKind::Column));
    assert_eq!(f.find_creator("check_box"), Some(WidgetKind::Checkbox));
    assert_eq!(f.find_creator("number_input"), Some(WidgetKind::NumberInput));
    assert_eq!(f.find_creator("dummy"), None);
    assert_eq!(f.find_creator("nope"), None);
    assert_eq!(f.blueprint_count(), 0);
    assert_eq!(f.get_field_counter(), 0);
    assert!(f.is_design_mode());
}

#[test]
fn create_blueprint_names_by_counter() {
    let mut f = Factory::new();
    assert_eq!(f.create_blueprint("column"), "widget_1");
    assert_eq!(f.create_blueprint("nope"), "widget_2");
    assert_eq!(f.create_blueprint("text"), "widget_3");
    assert_eq!(f.get_field_counter(), 3);
    assert_eq!(f.get_blueprint_keys(), vec!["widget_1".to_string(), "widget_3".to_string()]);
    assert_eq!(f.get_blueprint("widget_3".to_string()).unwrap().widget_type(), "text");
    assert!(f.get_blueprint("widget_2".to_string()).is_none());
}

#[test]
fn add_widget_into_selected_container() {
    let mut f = Factory::new();
    let col = f.add_widget("column", None);
    assert_eq!(col, "widget_1");
    assert_eq!(parent_of(&f, &col), "");
    let t = f.add_widget("text", Some(&col));
    assert_eq!(parent_of(&f, &t), "widget_1");
    // A text cannot hold children: the search climbs to the column.
    let t2 = f.add_widget("text", Some(&t));
    assert_eq!(parent_of(&f, &t2), "widget_1");
    assert_eq!(f.get_children_ids_by_parent("widget_1"), vec![t.clone(), t2.clone()]);
    assert_eq!(f.get_children_ids_by_parent(""), vec![col.clone()]);
    assert_eq!(f.get_children_ids_by_parent("root"), vec![col.clone()]);
}

#[test]
fn pin_takes_one_child() {
    let mut f = Factory::new();
    let pin = f.add_widget("pin", None);
    let a = f.add_widget("text", Some(&pin));
    assert_eq!(parent_of(&f, &a), pin);
    let b = f.add_widget("text", Some(&pin));
    assert_eq!(parent_of(&f, &b), "");
}

#[test]
fn reparent_refuses_a_cycle() {
    let mut f = Factory::new();
    let outer = f.add_widget("column", None);
    let inner = f.add_widget("column", Some(&outer));
    assert_eq!(f.walk_to_root(&inner, &outer), WalkOutcome::HitsChild);
    assert_eq!(f.walk_to_root(&outer, &inner), WalkOutcome::Clean);
    f.set_blueprint_parent(&outer, &inner);
    assert_eq!(parent_of(&f, &outer), "");
    f.set_blueprint_parent(&inner, "  ROOT ");
    assert_eq!(parent_of(&f, &inner), "");
    f.set_blueprint_parent(&outer, &inner);
    assert_eq!(parent_of(&f, &outer), inner);
}

#[test]
fn reparent_to_itself_means_root() {
    let mut f = Factory::new();
    let outer = f.add_widget("column", None);
    let inner = f.add_widget("column", Some(&outer));
    f.set_blueprint_parent(&inner, &inner);
    assert_eq!(parent_of(&f, &inner), "");
}

#[test]
fn reparent_refuses_missing_child_or_parent() {
    let mut f = Factory::new();
    let col = f.add_widget("column", None);
    let txt = f.add_widget("text", None);
    f.set_blueprint_parent("widget_99", &col);
    assert_eq!(f.get("widget_99", &prop_parent()), None);
    f.set_blueprint_parent(&txt, "widget_42");
    assert_eq!(parent_of(&f, &txt), "");
    // a text is no container
    f.set_blueprint_parent(&col, &txt);
    assert_eq!(parent_of(&f, &col), "");
}

#[test]
fn walk_detects_foreign_cycle() {
    let mut f = Factory::new();
    let key = prop_parent();
    f.set("a", &key, StoredValue::Text("b".to_string()));
    f.set("b", &key, StoredValue::Text("a".to_string()));
    assert_eq!(f.walk_to_root("a", "z"), WalkOutcome::Cycle);
    assert_eq!(f.walk_to_root("a", "b"), WalkOutcome::HitsChild);
}

#[test]
fn find_container_climbs() {
    let mut f = Factory::new();
    let col = f.add_widget("column", None);
    let txt = f.add_widget("text", Some(&col));
    assert_eq!(f.find_container(&txt), Some(col.clone()));
    assert_eq!(f.find_container(&col), Some(col.clone()));
    let lone = f.add_widget("text", None);
    assert_eq!(f.find_container(&lone), None);
    assert_eq!(f.find_container("root"), None);
}

#[test]
fn delete_removes_subtree_and_properties() {
    let mut f = Factory::new();
    let col = f.add_widget("column", None);
    let inner = f.add_widget("column", Some(&col));
    let leaf = f.add_widget("text", Some(&inner));
    let other = f.add_widget("text", None);
    let k = PropertyKey::declare("label");
    f.set(&leaf, &k, StoredValue::Text("hi".to_string()));
    f.set(&other, &k, StoredValue::Text("keep".to_string()));
    f.delete_widget(&col);
    assert_eq!(f.get_blueprint_keys(), vec![other.clone()]);
    assert_eq!(f.get(&leaf, &k), None);
    assert_eq!(f.get(&inner, &prop_parent()), None);
    assert_eq!(f.get(&other, &k), Some(StoredValue::Text("keep".to_string())));
}

#[test]
fn delete_unknown_only_drops_its_properties() {
    let mut f = Factory::new();
    let a = f.add_widget("text", None);
    let k = PropertyKey::declare("x");
    f.set("ghost", &k, StoredValue::USize(3));
    f.delete_widget("ghost");
    assert_eq!(f.get_blueprint_keys(), vec![a]);
    assert_eq!(f.get("ghost", &k), None);
}

#[test]
fn move_swaps_with_sibling() {
    let mut f = Factory::new();
    let a = f.add_widget("text", None);
    let col = f.add_widget("column", None);
    let inside = f.add_widget("text", Some(&col));
    let b = f.add_widget("text", None);
    // root siblings in order: a, col, b; `inside` has another parent
    f.move_widget_in_map(&b, -1);
    assert_eq!(f.get_blueprint_keys(), vec![a.clone(), b.clone(), inside.clone(), col.clone()]);
    f.move_widget_in_map(&b, 1);
    assert_eq!(f.get_blueprint_keys(), vec![a.clone(), col.clone(), inside.clone(), b.clone()]);
}

#[test]
fn move_past_the_ends_does_nothing() {
    let mut f = Factory::new();
    let a = f.add_widget("text", None);
    let b = f.add_widget("text", None);
    f.move_widget_in_map(&a, -1);
    f.move_widget_in_map(&b, 1);
    f.move_widget_in_map(&a, i32::MAX);
    f.move_widget_in_map(&a, i32::MIN);
    f.move_widget_in_map("nope", 1);
    assert_eq!(f.get_blueprint_keys(), vec![a, b]);
}

#[test]
fn move_up_then_down_restores() {
    let mut f = Factory::new();
    let a = f.add_widget("text", None);
    let b = f.add_widget("text", None);
    let c = f.add_widget("text", None);
    let before = f.get_blueprint_keys();
    f.move_widget_in_map(&c, -1);
    assert_eq!(f.get_blueprint_keys(), vec![a.clone(), c.clone(), b.clone()]);
    f.move_widget_in_map(&c, 1);
    assert_eq!(f.get_blueprint_keys(), before);
}

#[test]
fn get_after_set() {
    let mut f = Factory::new();
    let k = PropertyKey::declare("width");
    let other = PropertyKey::declare("height");
    f.set("w", &k, StoredValue::USize(10));
    f.set("w", &other, StoredValue::Boolean(true));
    f.set("w", &k, StoredValue::USize(12));
    assert_eq!(f.get("w", &k), Some(StoredValue::USize(12)));
    assert_eq!(f.get_by_hash("w", other.hash), Some(StoredValue::Boolean(true)));
    assert_eq!(f.get("v", &k), None);
    assert_eq!(f.get_string("w", &k), None);
}

#[test]
fn get_or_def_and_get_or_set() {
    let mut f = Factory::new();
    let k = PropertyKey::declare("n");
    assert_eq!(f.get_or_def("w", &k, StoredValue::USize(5)), StoredValue::USize(5));
    assert_eq!(f.get("w", &k), None);
    assert_eq!(f.get_or_set("w", &k, StoredValue::USize(7)), StoredValue::USize(7));
    assert_eq!(f.get("w", &k), Some(StoredValue::USize(7)));
    assert_eq!(f.get_or_set("w", &k, StoredValue::USize(9)), StoredValue::USize(7));
    // a stored value of another type gives way to the default
    assert_eq!(f.get_or_def("w", &k, StoredValue::Boolean(false)), StoredValue::Boolean(false));
    assert_eq!(f.get_or_set("w", &k, StoredValue::Boolean(true)), StoredValue::Boolean(true));
    assert_eq!(f.get("w", &k), Some(StoredValue::Boolean(true)));
}

#[test]
fn clear_all_empties() {
    let mut f = Factory::new();
    let a = f.add_widget("column", None);
    f.set(&a, &PropertyKey::declare("x"), StoredValue::USize(1));
    f.clear_all();
    assert_eq!(f.blueprint_count(), 0);
    assert_eq!(f.get_field_counter(), 0);
    assert_eq!(f.get(&a, &prop_parent()), None);
    assert_eq!(f.add_widget("text", None), "widget_1");
}

#[test]
fn clear_blueprints_keeps_properties() {
    let mut f = Factory::new();
    let a = f.add_widget("column", None);
    f.clear_blueprints();
    assert_eq!(f.blueprint_count(), 0);
    assert_eq!(f.get_field_counter(), 1);
    assert_eq!(f.get(&a, &prop_parent()), Some(StoredValue::Text(String::new())));
}

#[test]
fn insert_blueprint_replaces_in_place() {
    let mut f = Factory::new();
    f.insert_blueprint(&"x".to_string(), AnyBlueprint::Text(TextBlueprint::new("x".to_string())));
    f.insert_blueprint(&"y".to_string(), AnyBlueprint::Pin(PinBlueprint::new("y".to_string())));
    f.insert_blueprint(&"x".to_string(), AnyBlueprint::Column(ColumnBlueprint::new("x".to_string())));
    assert_eq!(f.get_blueprint_keys(), vec!["x".to_string(), "y".to_string()]);
    assert_eq!(f.get_blueprint("x".to_string()).unwrap().widget_type(), "column");
    assert_eq!(f.blueprint_at(1).unwrap().1.widget_type(), "pin");
    assert!(f.blueprint_at(2).is_none());
}

#[test]
fn can_accept_child_by_kind() {
    let mut f = Factory::new();
    let pin = f.add_widget("pin", None);
    let bp = f.get_blueprint(pin.clone()).unwrap();
    assert!(f.can_accept_child(&bp));
    f.add_widget("text", Some(&pin));
    assert!(!f.can_accept_child(&bp));
    let col = AnyBlueprint::Column(ColumnBlueprint::new("c".to_string()));
    assert!(f.can_accept_child(&col));
    let txt = AnyBlueprint::Text(TextBlueprint::new("t".to_string()));
    assert!(!f.can_accept_child(&txt));
    let d = AnyBlueprint::Dummy(DummyBlueprint::new("d".to_string()));
    assert!(!f.can_accept_child(&d));
}

#[test]
fn blueprints_by_parent() {
    let mut f = Factory::new();
    let col = f.add_widget("column", None);
    f.add_widget("text", Some(&col));
    f.add_widget("pin", Some(&col));
    let kids = f.get_blueprints_by_parent(&col);
    assert_eq!(kids.len(), 2);
    assert_eq!(kids[0].widget_type(), "text");
    assert_eq!(kids[1].widget_type(), "pin");
    assert_eq!(f.get_blueprint_keys_by_parent(&col), vec!["widget_2".to_string(), "widget_3".to_string()]);
}

#[test]
fn design_mode_switches() {
    let mut f = Factory::new();
    f.toggle_design_mode();
    assert!(!f.is_design_mode());
    f.toggle_design_mode();
    assert!(f.is_design_mode());
    f.set_design_mode(false);
    assert!(!f.is_design_mode());
}

#[test]
fn take_and_put_back_blueprint() {
    let mut f = Factory::new();
    let a = f.add_widget("column", None);
    let b = f.add_widget("text", None);
    let taken = f.take_blueprint_for_event(&a).unwrap();
    assert_eq!(taken.widget_type(), "column");
    assert_eq!(f.get_blueprint(a.clone()).unwrap().widget_type(), "dummy");
    assert_eq!(f.get_blueprint(a.clone()).unwrap().get_id(), "dummy");
    assert_eq!(f.get_blueprint_keys(), vec![a.clone(), b.clone()]);
    f.put_blueprint_back(&a, taken);
    assert_eq!(f.get_blueprint(a.clone()).unwrap().widget_type(), "column");
    assert!(f.take_blueprint_for_event("nope").is_none());
    f.put_blueprint_back("nope", AnyBlueprint::Text(TextBlueprint::new("nope".to_string())));
    assert_eq!(f.get_blueprint_keys(), vec![a, b]);
}

#[test]
fn with_blueprint_mut_changes_in_place() {
    let mut f = Factory::new();
    let a = f.add_widget("column", None);
    let b = f.add_widget("text", None);
    let r = f.with_blueprint_mut(&a, |bp| {
        let kind = bp.widget_type().to_string();
        (AnyBlueprint::Stack(iced_forms::blueprint::StackBlueprint::new("s".to_string())), kind)
    });
    assert_eq!(r, Some("column".to_string()));
    assert_eq!(f.get_field_counter(), 3);
    assert_eq!(f.get_blueprint(a.clone()).unwrap().widget_type(), "stack");
    assert_eq!(f.get_blueprint_keys(), vec![a, b]);
    let none = f.with_blueprint_mut("nope", |bp| (bp, 1));
    assert_eq!(none, None);
    assert_eq!(f.get_field_counter(), 3);
}

#[test]
fn set_parent_normalized_takes_clean_names() {
    let mut f = Factory::new();
    let col = f.add_widget("column", None);
    let t = f.add_widget("text", None);
    // the name is used as given: no trimming or lower-casing here
    f.set_parent_normalized(&t, " WIDGET_1");
    assert_eq!(f.parent_string(&t), "");
    f.set_parent_normalized(&t, &col);
    assert_eq!(f.parent_string(&t), col);
    f.set_parent_normalized(&t, "root");
    assert_eq!(f.parent_string(&t), "");
}

#[test]
fn property_listing() {
    let mut f = Factory::new();
    let k = PropertyKey::declare("k");
    f.set("a", &k, StoredValue::USize(1));
    f.set("b", &k, StoredValue::USize(2));
    assert_eq!(f.property_count(), 2);
    let (w, h, v) = f.property_at(1);
    assert_eq!(w, "b");
    assert_eq!(h, k.hash);
    assert_eq!(*v, StoredValue::USize(2));
}

#[test]
fn chains_stay_finite_after_edits() {
    let mut f = Factory::new();
    let a = f.add_widget("column", None);
    let b = f.add_widget("column", Some(&a));
    let c = f.add_widget("column", Some(&b));
    // every attempt to close a circle is refused
    f.set_blueprint_parent(&a, &c);
    f.set_blueprint_parent(&a, &b);
    assert_eq!(f.walk_to_root(&c, "none"), WalkOutcome::Clean);
    assert_eq!(f.walk_to_root(&a, "none"), WalkOutcome::Clean);
    f.delete_widget(&b);
    assert_eq!(f.get_blueprint_keys(), vec![a.clone()]);
    assert_eq!(f.walk_to_root(&a, "none"), WalkOutcome::Clean);
}

#[test]
fn field_values_access() {
    let mut f = Factory::new();
    let k = PropertyKey::declare("k");
    f.get_field_values_mut().set_by_hash("w", k.hash, StoredValue::USize(5));
    assert_eq!(f.get("w", &k), Some(StoredValue::USize(5)));
    assert_eq!(f.get_field_values().get_by_hash("w", k.hash), Some(&StoredValue::USize(5)));
    assert_eq!(f.get_field_values().len(), 1);
}
