use iced_forms::blueprint::{ColumnBlueprint, DummyBlueprint, PropertyId, WidgetBlueprint};
use iced_forms::app::App;
use iced_forms::hash::fnv1a_hash_64;
use iced_forms::message::MenuAction;
use iced_forms::property::PropertyKey;
use iced_forms::serialization::value_text;
use iced_forms::property::StoredValue;
use iced_forms::update_ui::{handle_menu_action, MenuEffect};

const PRIME: u64 = 0x100000001b3;

#[test]
fn fnv_of_string_with_ascii_char_is_one_more_round() {
    for (s, c) in [("", 'a'), ("widget_", '7'), ("parent", '!'), ("ключ", 'x')] {
        let mut t = s.to_string();
        t.push(c);
        let expected = (fnv1a_hash_64(s) ^ (c as u64)).wrapping_mul(PRIME);
        assert_eq!(fnv1a_hash_64(&t), expected);
    }
}

#[test]
fn fnv_of_string_with_wide_char_folds_its_utf8_bytes() {
    for (s, c) in [("a", 'é'), ("", '€'), ("id", '😀')] {
        let mut t = s.to_string();
        t.push(c);
        let mut buf = [0u8; 4];
        let mut h = fnv1a_hash_64(s);
        for b in c.encode_utf8(&mut buf).bytes() {
            h = (h ^ (b as u64)).wrapping_mul(PRIME);
        }
        assert_eq!(fnv1a_hash_64(&t), h);
    }
}

fn snapshot(app: &App) -> (Option<String>, Option<String>, bool, bool, Vec<String>) {
    (
        app.get_state().selected_widget_id.clone(),
        app.get_state().selected_property_key.as_ref().map(|k| k.name.clone()),
        app.is_design_mode(),
        app.is_dark_theme(),
        app.get_factory().get_blueprint_keys(),
    )
}

#[test]
fn menu_actions_do_what_the_app_methods_do() {
    let mut by_menu = App::new();
    let mut direct = App::new();
    let steps: Vec<MenuAction> = vec![
        MenuAction::AddWidget("column".to_string()),
        MenuAction::AddWidget("text".to_string()),
        MenuAction::SelectProperty(PropertyKey::declare("spacing")),
        MenuAction::MoveUpWidget,
        MenuAction::MoveDownWidget,
        MenuAction::SelectWidget("widget_1".to_string()),
        MenuAction::ToggleDesignMode,
        MenuAction::ToggleViewTheme,
        MenuAction::ClearSelection,
        MenuAction::SelectWidget("widget_2".to_string()),
        MenuAction::DeleteWidget,
    ];
    for step in steps {
        match &step {
            MenuAction::AddWidget(t) => direct.add_widget(t),
            MenuAction::SelectProperty(k) => direct.select_property(k.clone()),
            MenuAction::MoveUpWidget => direct.moveup_widget(),
            MenuAction::MoveDownWidget => direct.movedown_widget(),
            MenuAction::SelectWidget(id) => direct.select_widget(id.clone()),
            MenuAction::ToggleDesignMode => direct.toggle_design_mode(),
            MenuAction::ToggleViewTheme => direct.toggle_view_theme(),
            MenuAction::ClearSelection => direct.clear_selection(),
            MenuAction::DeleteWidget => direct.delete_widget(),
            _ => unreachable!(),
        }
        assert_eq!(handle_menu_action(step, &mut by_menu), MenuEffect::Nothing);
        assert_eq!(snapshot(&by_menu), snapshot(&direct));
    }
}

#[test]
fn counts_are_written_in_decimal() {
    for (n, t) in [(0usize, "0"), (7, "7"), (10, "10"), (1234567890, "1234567890"), (usize::MAX, &usize::MAX.to_string()[..])] {
        assert_eq!(value_text(&StoredValue::USize(n)), Some(t.to_string()));
    }
}

#[test]
fn editable_property_lists() {
    let c = ColumnBlueprint::new("widget_1".to_string());
    assert_eq!(
        c.editable_properties(),
        vec![
            PropertyId::Width,
            PropertyId::Height,
            PropertyId::MaxWidth,
            PropertyId::Padding,
            PropertyId::Spacing,
            PropertyId::AlignX
        ]
    );
    let d = DummyBlueprint::new("dummy_0".to_string());
    assert!(d.editable_properties().is_empty());
}

#[test]
fn trim_drops_white_space_at_both_ends() {
    assert_eq!(iced_forms::text::normalize_key("\u{2003} Ab c \t\n"), "ab c");
}
