use iced_forms::factory::Factory;
use iced_forms::json::{parse_json, JsonValue};
use iced_forms::property::{prop_parent, PropertyKey, StoredValue};
use iced_forms::serialization::{deserialize_from_json_string, load_document, FloatProperty, LoadError};

fn registry() -> Vec<(String, String)> {
    vec![
        ("parent".to_string(), "String".to_string()),
        ("width".to_string(), "Length".to_string()),
        ("checked".to_string(), "bool".to_string()),
        ("align_x".to_string(), "Horizontal".to_string()),
    ]
}

const PROJECT: &str = r#"{
  "field_counter": 7,
  "widgets_order": ["widget_2", 5, "widget_1", "ghost"],
  "blueprints": {
    "widget_1": { "type": "column", "meta": { "id": "widget_1", "local_index": 0 } },
    "widget_2": { "type": "text", "meta": { "id": "widget_2", "local_index": 0 } },
    "ghost": { "type": "nope" }
  },
  "field_values": {
    "widget_1": { "parent": "", "width": "Fill", "unknown": "x" },
    "widget_2": { "parent": "widget_1", "checked": true, "align_x": "center", "width": [1] }
  }
}"#;

#[test]
fn load_rejects_text_that_is_not_json() {
    let mut f = Factory::new();
    f.add_widget("text", None);
    let r = deserialize_from_json_string(&mut f, "{ not json", &registry());
    assert_eq!(r, Err(LoadError::InvalidJson));
    assert_eq!(f.get_field_counter(), 1);
    assert_eq!(f.get_blueprint_keys(), vec!["widget_1".to_string()]);
}

#[test]
fn load_restores_counter_widgets_and_properties() {
    let mut f = Factory::new();
    f.add_widget("pin", None);
    f.add_widget("pin", None);
    f.add_widget("pin", None);
    let floats = deserialize_from_json_string(&mut f, PROJECT, &registry()).unwrap();
    assert_eq!(f.get_field_counter(), 7);
    assert_eq!(f.get_blueprint_keys(), vec!["widget_2".to_string(), "widget_1".to_string()]);
    assert_eq!(f.get_blueprint("widget_2".to_string()).unwrap().widget_type(), "text");
    assert_eq!(f.get_blueprint("widget_1".to_string()).unwrap().widget_type(), "column");
    assert_eq!(f.parent_string("widget_2"), "widget_1");
    assert_eq!(f.parent_string("widget_1"), "");
    let checked = PropertyKey::from_dynamic("checked");
    assert!(matches!(f.get("widget_2", &checked), Some(StoredValue::Boolean(true))));
    let align = PropertyKey::from_dynamic("align_x");
    assert!(matches!(
        f.get("widget_2", &align),
        Some(StoredValue::AlignX(iced_forms::align::Horizontal::Center))
    ));
    assert!(f.get("widget_1", &PropertyKey::from_dynamic("unknown")).is_none());
    assert_eq!(
        floats,
        vec![FloatProperty {
            widget_id: "widget_1".to_string(),
            name: "width".to_string(),
            prop_type: "Length".to_string(),
            text: "Fill".to_string(),
        }]
    );
}

#[test]
fn load_reads_counter_only_from_whole_numbers() {
    for (text, expected) in [
        (r#"{"field_counter": 3.5}"#, 0usize),
        (r#"{"field_counter": -2}"#, 0),
        (r#"{"field_counter": "9"}"#, 0),
        (r#"{"field_counter": 18446744073709551615}"#, usize::MAX),
        (r#"{"field_counter": 42}"#, 42),
        (r#"[]"#, 0),
    ] {
        let mut f = Factory::new();
        f.add_widget("text", None);
        let floats = deserialize_from_json_string(&mut f, text, &registry()).unwrap();
        assert!(floats.is_empty());
        assert_eq!(f.get_field_counter(), expected, "{}", text);
        assert_eq!(f.blueprint_count(), 0);
    }
}

#[test]
fn load_skips_bool_text_that_is_not_a_flag() {
    let mut f = Factory::new();
    let doc = r#"{"field_values": {"w": {"checked": "yes", "parent": 12}}, "widgets_order": []}"#;
    deserialize_from_json_string(&mut f, doc, &registry()).unwrap();
    assert!(f.get("w", &PropertyKey::from_dynamic("checked")).is_none());
    assert_eq!(f.parent_string("w"), "12");
    assert!(matches!(f.get("w", &prop_parent()), Some(StoredValue::Text(s)) if s == "12"));
}

#[test]
fn load_document_takes_a_parsed_document() {
    let doc = JsonValue::Object(vec![
        ("field_counter".to_string(), JsonValue::Number("5".to_string())),
        ("widgets_order".to_string(), JsonValue::Array(vec![JsonValue::Text("a".to_string())])),
        (
            "blueprints".to_string(),
            JsonValue::Object(vec![(
                "a".to_string(),
                JsonValue::Object(vec![("type".to_string(), JsonValue::Text("svg".to_string()))]),
            )]),
        ),
    ]);
    let mut f = Factory::new();
    let floats = load_document(&mut f, &doc, &registry());
    assert!(floats.is_empty());
    assert_eq!(f.get_field_counter(), 5);
    assert_eq!(f.get_blueprint_keys(), vec!["a".to_string()]);
    assert_eq!(f.get_blueprint("a".to_string()).unwrap().get_id(), "a");
}

#[test]
fn parse_json_converts_each_kind_of_value() {
    let v = parse_json(r#"{"b": [true, null, 2, -3, 1.5], "a": "x"}"#).unwrap();
    let JsonValue::Object(fields) = v else { panic!("not an object") };
    assert_eq!(fields.len(), 2);
    assert_eq!(fields[0].0, "a");
    assert!(matches!(&fields[0].1, JsonValue::Text(s) if s == "x"));
    let JsonValue::Array(items) = &fields[1].1 else { panic!("not an array") };
    assert!(matches!(items[0], JsonValue::Bool(true)));
    assert!(matches!(items[1], JsonValue::Null));
    assert!(matches!(&items[2], JsonValue::Number(t) if t == "2"));
    assert!(matches!(&items[3], JsonValue::Number(t) if t == "-3"));
    assert!(matches!(&items[4], JsonValue::Number(t) if t == "1.5"));
    assert!(parse_json("[1,").is_none());
}

#[test]
fn saved_document_loads_back_to_the_same_widgets() {
    let mut f = Factory::new();
    let col = f.add_widget("column", None);
    f.add_widget("text", Some(&col));
    f.add_widget("svg", None);
    let values = JsonValue::Object(Vec::new());
    let doc = iced_forms::serialization::project_document(&f, values);
    let mut g = Factory::new();
    let floats = load_document(&mut g, &doc, &registry());
    assert!(floats.is_empty());
    assert_eq!(g.get_field_counter(), f.get_field_counter());
    assert_eq!(g.get_blueprint_keys(), f.get_blueprint_keys());
    for k in f.get_blueprint_keys() {
        assert_eq!(
            g.get_blueprint(k.clone()).unwrap().widget_type(),
            f.get_blueprint(k.clone()).unwrap().widget_type()
        );
    }
}

#[test]
fn saved_document_holds_counter_order_and_records() {
    let mut f = Factory::new();
    f.add_widget("pin", None);
    let doc = iced_forms::serialization::project_document(&f, JsonValue::Null);
    let JsonValue::Object(fields) = doc else { panic!("not an object") };
    let names: Vec<&str> = fields.iter().map(|(k, _)| k.as_str()).collect();
    assert_eq!(names, vec!["blueprints", "field_counter", "field_values", "widgets_order"]);
    assert!(matches!(&fields[1].1, JsonValue::Number(t) if t == "1"));
    assert!(matches!(fields[2].1, JsonValue::Null));
    let JsonValue::Array(order) = &fields[3].1 else { panic!("not an array") };
    assert!(matches!(&order[0], JsonValue::Text(t) if t == "widget_1"));
    let JsonValue::Object(records) = &fields[0].1 else { panic!("not an object") };
    assert_eq!(records[0].0, "widget_1");
    let JsonValue::Object(rec) = &records[0].1 else { panic!("not an object") };
    assert!(matches!(&rec[0].1, JsonValue::Text(t) if t == "pin"));
}
