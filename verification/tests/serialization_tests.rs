use iced_forms::align::{Alignment, Horizontal, Vertical};
use iced_forms::blueprint::{
    registered_widgets, ButtonBoxBlueprint, CheckboxBlueprint, ColumnBlueprint, CounterBlueprint, DummyBlueprint,
    HRuleBlueprint, HasCommonMeta, ImageBlueprint, InputBlueprint, KeyedColumnBlueprint, NumberInputBlueprint,
    PickListBlueprint, PinBlueprint, ProgressBarBlueprint, SpaceBlueprint, StackBlueprint, SvgBlueprint,
    TextBlueprint, TogglerBlueprint, WidgetBlueprint, WidgetKind,
};
use iced_forms::factory::Factory;
use iced_forms::property::{PropertyKey, StoredValue};
use iced_forms::serialization::{project_outline, restore_project, restore_property, restore_value, value_text};
use iced_forms::storage::PropertyStorage;

#[test]
fn outline_lists_widgets_in_order() {
    let mut f = Factory::new();
    let col = f.add_widget("column", None);
    f.add_widget("text", Some(&col));
    let o = project_outline(&f);
    assert_eq!(o.field_counter, 2);
    assert_eq!(o.widgets_order, vec!["widget_1".to_string(), "widget_2".to_string()]);
    assert_eq!(o.blueprints.len(), 2);
    assert_eq!(o.blueprints[0].id, "widget_1");
    assert_eq!(o.blueprints[0].widget_type, "column");
    assert_eq!(o.blueprints[1].widget_type, "text");
    assert_eq!(o.blueprints[1].local_index, 0);
}

#[test]
fn restore_rebuilds_in_order_and_skips_unknown() {
    let mut f = Factory::new();
    f.add_widget("pin", None);
    let records = vec![
        ("b".to_string(), Some("text".to_string())),
        ("a".to_string(), Some("column".to_string())),
        ("x".to_string(), Some("nope".to_string())),
        ("y".to_string(), None),
        ("b".to_string(), Some("pin".to_string())),
    ];
    restore_project(&mut f, 7, &records);
    assert_eq!(f.get_field_counter(), 7);
    assert_eq!(f.get_blueprint_keys(), vec!["b".to_string(), "a".to_string()]);
    assert_eq!(f.get_blueprint("b".to_string()).unwrap().widget_type(), "pin");
    assert_eq!(f.get_blueprint("a".to_string()).unwrap().get_id(), "a");
    // the property table is kept
    assert_eq!(f.parent_string("widget_1"), "");
    assert!(f.get("widget_1", &iced_forms::property::prop_parent()).is_some());
}

#[test]
fn outline_then_restore_gives_same_widgets() {
    let mut f = Factory::new();
    let col = f.add_widget("column", None);
    f.add_widget("toggler", Some(&col));
    f.add_widget("svg", None);
    let o = project_outline(&f);
    let records: Vec<(String, Option<String>)> =
        o.blueprints.iter().map(|b| (b.id.clone(), Some(b.widget_type.clone()))).collect();
    let mut g = Factory::new();
    restore_project(&mut g, o.field_counter, &records);
    assert_eq!(g.get_blueprint_keys(), f.get_blueprint_keys());
    assert_eq!(project_outline(&g), o);
}

#[test]
fn restore_values() {
    assert_eq!(restore_value("String", " a "), Some(StoredValue::Text(" a ".to_string())));
    assert_eq!(restore_value("bool", "true"), Some(StoredValue::Boolean(true)));
    assert_eq!(restore_value("bool", "false"), Some(StoredValue::Boolean(false)));
    assert_eq!(restore_value("bool", "TRUE"), None);
    assert_eq!(restore_value("Horizontal", "Right"), Some(StoredValue::AlignX(Horizontal::Right)));
    assert_eq!(restore_value("Horizontal", "sideways"), Some(StoredValue::AlignX(Horizontal::Left)));
    assert_eq!(restore_value("Vertical", " bottom"), Some(StoredValue::AlignY(Vertical::Bottom)));
    assert_eq!(restore_value("Vertical", "?"), Some(StoredValue::AlignY(Vertical::Top)));
    assert_eq!(restore_value("Widget", "x"), None);
}

#[test]
fn restore_property_stores_or_skips() {
    let mut f = Factory::new();
    let k = PropertyKey::declare("checked");
    assert!(restore_property(&mut f, "w", &k, "bool", "true"));
    assert_eq!(f.get("w", &k), Some(StoredValue::Boolean(true)));
    assert!(!restore_property(&mut f, "w", &k, "bool", "maybe"));
    assert_eq!(f.get("w", &k), Some(StoredValue::Boolean(true)));
}

#[test]
fn value_texts() {
    assert_eq!(value_text(&StoredValue::Text("x".to_string())), Some("x".to_string()));
    assert_eq!(value_text(&StoredValue::USize(120)), Some("120".to_string()));
    assert_eq!(value_text(&StoredValue::Boolean(true)), Some("true".to_string()));
    assert_eq!(value_text(&StoredValue::AlignItems(Alignment::Center)), Some("Center".to_string()));
    assert_eq!(value_text(&StoredValue::AlignX(Horizontal::Left)), Some("Left".to_string()));
    assert_eq!(value_text(&StoredValue::AlignY(Vertical::Top)), Some("Top".to_string()));
    assert_eq!(value_text(&StoredValue::Float(0)), None);
    assert_eq!(value_text(&StoredValue::Integer(3)), None);
}

#[test]
fn storage_set_get_remove() {
    let mut s = PropertyStorage::new();
    s.set_by_hash("a", 1, StoredValue::USize(1));
    s.set_by_hash("a", 2, StoredValue::USize(2));
    s.set_by_hash("b", 1, StoredValue::USize(3));
    s.set_by_hash("a", 1, StoredValue::USize(4));
    assert_eq!(s.get_by_hash("a", 1), Some(&StoredValue::USize(4)));
    s.remove_widget("a");
    assert_eq!(s.get_by_hash("a", 1), None);
    assert_eq!(s.get_by_hash("a", 2), None);
    assert_eq!(s.get_by_hash("b", 1), Some(&StoredValue::USize(3)));
    s.clear_all();
    assert_eq!(s.get_by_hash("b", 1), None);
}

#[test]
fn blueprint_constructors() {
    assert_eq!(NumberInputBlueprint::new("a".to_string()).get_meta().id, "a");
    assert_eq!(ButtonBoxBlueprint::new("b".to_string(), "go".to_string()).get_meta().id, "b");
    assert_eq!(CheckboxBlueprint::new("c".to_string(), "ok".to_string()).get_meta().index, 0);
    assert_eq!(ColumnBlueprint::new("d".to_string()).get_meta().id, "d");
    assert_eq!(CounterBlueprint::new("e".to_string()).get_meta().id, "e");
    assert_eq!(HRuleBlueprint::new("f".to_string()).get_meta().id, "f");
    assert_eq!(ImageBlueprint::new("g".to_string()).get_meta().id, "g");
    assert_eq!(InputBlueprint::new("h".to_string(), "type".to_string()).get_meta().id, "h");
    assert_eq!(KeyedColumnBlueprint::new("i".to_string()).get_meta().id, "i");
    assert_eq!(PickListBlueprint::new("j".to_string()).get_meta().id, "j");
    assert_eq!(PinBlueprint::new("k".to_string()).get_meta().id, "k");
    assert_eq!(ProgressBarBlueprint::new("l".to_string()).get_meta().id, "l");
    assert_eq!(SpaceBlueprint::new("m".to_string()).get_meta().id, "m");
    assert_eq!(StackBlueprint::new("n".to_string()).get_meta().id, "n");
    assert_eq!(SvgBlueprint::new("o".to_string()).get_meta().id, "o");
    assert_eq!(TextBlueprint::new("p".to_string()).get_meta().id, "p");
    assert_eq!(TogglerBlueprint::new("q".to_string(), "t".to_string()).get_meta().id, "q");
    assert_eq!(DummyBlueprint::new("r".to_string()).get_meta().id, "r");
}

#[test]
fn kinds_and_registry() {
    assert_eq!(WidgetKind::Checkbox.widget_type(), "check_box");
    assert_eq!(WidgetKind::HRule.widget_type(), "h_rule");
    let b = WidgetKind::Stack.create("s".to_string());
    assert_eq!(b.get_kind(), WidgetKind::Stack);
    assert_eq!(b.get_id(), "s");
    let reg = registered_widgets();
    assert_eq!(reg.len(), 17);
    for w in reg.iter() {
        assert_eq!(w.kind.widget_type(), w.name);
    }
}

#[test]
fn blueprint_metadata_changes() {
    let mut b = WidgetKind::Text.create("t".to_string());
    b.set_id("renamed");
    assert_eq!(b.get_id(), "renamed");
    assert_eq!(b.get_kind(), WidgetKind::Text);
    b.get_meta_mut().index = 3;
    assert_eq!(b.get_index(), 3);
    let mut p = PinBlueprint::new("p".to_string());
    p.get_meta_mut().id = "q".to_string();
    assert_eq!(p.get_meta().id, "q");
}

#[test]
fn blueprint_trait_behaviour() {
    let mut f = Factory::new();
    let pin_id = f.add_widget("pin", None);
    let pin = PinBlueprint::new(pin_id.clone());
    assert_eq!(pin.widget_type(), "pin");
    assert_eq!(pin.get_id(), pin_id);
    assert_eq!(pin.get_index(), 0);
    assert!(pin.can_accept_child(&f));
    f.add_widget("text", Some(&pin_id));
    assert!(!pin.can_accept_child(&f));
    let bb = ButtonBoxBlueprint::new("bb".to_string(), "go".to_string());
    assert!(bb.can_accept_child(&f));
    assert!(ColumnBlueprint::new("c".to_string()).can_accept_child(&f));
    assert!(KeyedColumnBlueprint::new("k".to_string()).can_accept_child(&f));
    assert!(StackBlueprint::new("s".to_string()).can_accept_child(&f));
    assert!(!TextBlueprint::new("t".to_string()).can_accept_child(&f));
    assert!(!DummyBlueprint::new("d".to_string()).can_accept_child(&f));
    assert_eq!(CheckboxBlueprint::new("x".to_string(), "l".to_string()).widget_type(), "check_box");
    assert_eq!(HRuleBlueprint::new("h".to_string()).widget_type(), "h_rule");
    assert_eq!(NumberInputBlueprint::new("n".to_string()).widget_type(), "number_input");
    assert_eq!(ProgressBarBlueprint::new("p".to_string()).widget_type(), "progress_bar");
    assert_eq!(DummyBlueprint::new("d".to_string()).widget_type(), "dummy");
}
