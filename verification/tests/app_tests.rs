use iced_forms::app::{App, DesignerState, InspectorPane, Pane, RenderStyle, UIStyle};
use iced_forms::message::{DialogType, MenuAction, OverlayAction, PropertyValue};
use iced_forms::property::{prop_parent, ColorBits, LengthValue, PropertyKey, StoredValue};
use iced_forms::hash::fnv1a_hash_64;
use iced_forms::update_property::handle_property_update;
use iced_forms::update_ui::{handle_menu_action, MenuEffect};

#[test]
fn new_app_defaults() {
    let app = App::new();
    assert!(app.state.selected_widget_id.is_none());
    assert!(app.state.selected_property_key.is_none());
    assert_eq!(app.get_ui_style(), UIStyle { render_style: RenderStyle::Blender, is_dark_theme: false });
    assert_eq!(app.state.template_path, "./templates");
    assert!(!app.has_active_overlay());
    assert!(app.is_design_mode());
    let d = DesignerState::default();
    assert!(d.selected_widget_id.is_none());
    assert_eq!(RenderStyle::default(), RenderStyle::Blender);
    assert_eq!(OverlayAction::default(), OverlayAction::NoOp);
    assert_ne!(Pane::Toolbox, Pane::Canvas);
    assert_ne!(InspectorPane::Props, InspectorPane::Layers);
}

#[test]
fn theme_from_config() {
    let mut app = App::new();
    app.from_config("FIGMA");
    assert_eq!(app.get_ui_style().render_style, RenderStyle::Figma);
    app.from_config("VSCode");
    assert_eq!(app.get_ui_style().render_style, RenderStyle::VSCode);
    app.from_config("something");
    assert_eq!(app.get_ui_style().render_style, RenderStyle::Blender);
    // no trimming: the name must match exactly apart from case
    app.from_config(" figma");
    assert_eq!(app.get_ui_style().render_style, RenderStyle::Blender);
    assert_eq!(App::init("figma").get_ui_style().render_style, RenderStyle::Figma);
}

#[test]
fn select_property_needs_a_widget() {
    let mut app = App::new();
    app.select_property(PropertyKey::declare("width"));
    assert!(app.state.selected_property_key.is_none());
    app.select_widget("w".to_string());
    app.select_property(PropertyKey::declare("width"));
    assert_eq!(app.state.selected_property_key, Some(PropertyKey::declare("width")));
    app.select_widget("v".to_string());
    assert!(app.state.selected_property_key.is_none());
    assert_eq!(app.state.selected_widget_id, Some("v".to_string()));
    app.clear_selection();
    assert!(app.state.selected_widget_id.is_none());
}

#[test]
fn add_selects_and_delete_clears() {
    let mut app = App::new();
    app.add_widget("column");
    assert_eq!(app.state.selected_widget_id, Some("widget_1".to_string()));
    app.add_widget("text");
    assert_eq!(app.state.selected_widget_id, Some("widget_2".to_string()));
    assert_eq!(app.get_factory().parent_string("widget_2"), "widget_1");
    app.select_widget("widget_1".to_string());
    app.delete_widget();
    assert!(app.state.selected_widget_id.is_none());
    assert_eq!(app.get_factory().blueprint_count(), 0);
    // nothing selected: nothing happens
    app.delete_widget();
    assert_eq!(app.get_factory().get_field_counter(), 2);
}

#[test]
fn move_selected_widget() {
    let mut app = App::new();
    app.add_widget("text");
    app.clear_selection();
    app.add_widget("text");
    app.moveup_widget();
    assert_eq!(app.get_factory().get_blueprint_keys(), vec!["widget_2".to_string(), "widget_1".to_string()]);
    app.movedown_widget();
    assert_eq!(app.get_factory().get_blueprint_keys(), vec!["widget_1".to_string(), "widget_2".to_string()]);
}

#[test]
fn toggles() {
    let mut app = App::new();
    app.toggle_view_theme();
    assert!(app.is_dark_theme());
    app.toggle_view_theme();
    assert!(!app.is_dark_theme());
    app.toggle_design_mode();
    assert!(!app.is_design_mode());
    app.get_factory_mut().set_design_mode(true);
    assert!(app.is_design_mode());
}

#[test]
fn overlay_open_and_close() {
    let mut app = App::new();
    app.apply_overlay(OverlayAction::OpenDialog(DialogType::About));
    assert!(app.has_active_overlay());
    assert_eq!(app.overlay_operation, OverlayAction::OpenDialog(DialogType::About));
    app.overlay_content_code = "code".to_string();
    app.apply_overlay(OverlayAction::CloseOverlay);
    assert!(!app.has_active_overlay());
    assert_eq!(app.overlay_content_code, "");
    app.apply_overlay(OverlayAction::NoOp);
    assert!(!app.has_active_overlay());
    app.apply_overlay(OverlayAction::OpenWidgetEditor("w".to_string()));
    assert!(app.has_active_overlay());
    app.close_overlay();
    assert_eq!(app.overlay_operation, OverlayAction::NoOp);
}

#[test]
fn menu_dialog_actions() {
    let mut app = App::new();
    assert_eq!(
        handle_menu_action(MenuAction::NewProject, &mut app),
        MenuEffect::Overlay(OverlayAction::OpenDialog(DialogType::NewProject))
    );
    assert_eq!(
        handle_menu_action(MenuAction::ClearCanvas, &mut app),
        MenuEffect::Overlay(OverlayAction::OpenDialog(DialogType::ClearProject))
    );
    assert_eq!(
        handle_menu_action(MenuAction::ExitApplication, &mut app),
        MenuEffect::Overlay(OverlayAction::OpenDialog(DialogType::Exit))
    );
    assert_eq!(
        handle_menu_action(MenuAction::ShowAbout, &mut app),
        MenuEffect::Overlay(OverlayAction::OpenDialog(DialogType::About))
    );
    assert_eq!(handle_menu_action(MenuAction::ExitApplicationConfirmed(false), &mut app), MenuEffect::Exit);
    assert_eq!(handle_menu_action(MenuAction::NoOp, &mut app), MenuEffect::Nothing);
    assert_eq!(handle_menu_action(MenuAction::OpenSettingsPanel, &mut app), MenuEffect::Nothing);
}

#[test]
fn menu_file_actions() {
    let mut app = App::new();
    assert_eq!(handle_menu_action(MenuAction::OpenProject, &mut app), MenuEffect::AskOpenPath);
    assert_eq!(handle_menu_action(MenuAction::SaveProject, &mut app), MenuEffect::AskSavePath);
    assert_eq!(handle_menu_action(MenuAction::ExportProject, &mut app), MenuEffect::AskExportPath);
    assert_eq!(
        handle_menu_action(MenuAction::OpenProjectConfirmed(Some("p.json".to_string())), &mut app),
        MenuEffect::LoadProject("p.json".to_string())
    );
    assert_eq!(handle_menu_action(MenuAction::OpenProjectConfirmed(None), &mut app), MenuEffect::Nothing);
    assert_eq!(
        handle_menu_action(MenuAction::SaveProjectConfirmed(Some("s.json".to_string())), &mut app),
        MenuEffect::SaveProject("s.json".to_string())
    );
    assert_eq!(handle_menu_action(MenuAction::SaveProjectConfirmed(None), &mut app), MenuEffect::Nothing);
    assert_eq!(
        handle_menu_action(MenuAction::ExportProjectConfirmed(Some("e.json".to_string())), &mut app),
        MenuEffect::ExportProject("e.json".to_string())
    );
    assert_eq!(handle_menu_action(MenuAction::ExportProjectConfirmed(None), &mut app), MenuEffect::Nothing);
}

#[test]
fn menu_widget_actions() {
    let mut app = App::new();
    assert_eq!(handle_menu_action(MenuAction::AddWidget("column".to_string()), &mut app), MenuEffect::Nothing);
    assert_eq!(app.state.selected_widget_id, Some("widget_1".to_string()));
    handle_menu_action(MenuAction::SelectProperty(PropertyKey::declare("spacing")), &mut app);
    assert!(app.state.selected_property_key.is_some());
    handle_menu_action(MenuAction::ClearSelection, &mut app);
    assert!(app.state.selected_widget_id.is_none());
    assert!(app.state.selected_property_key.is_none());
    handle_menu_action(MenuAction::AddWidget("text".to_string()), &mut app);
    handle_menu_action(MenuAction::MoveUpWidget, &mut app);
    assert_eq!(app.get_factory().get_blueprint_keys(), vec!["widget_2".to_string(), "widget_1".to_string()]);
    handle_menu_action(MenuAction::MoveDownWidget, &mut app);
    assert_eq!(app.get_factory().get_blueprint_keys(), vec!["widget_1".to_string(), "widget_2".to_string()]);
    handle_menu_action(MenuAction::SelectWidget("widget_1".to_string()), &mut app);
    handle_menu_action(MenuAction::DeleteWidget, &mut app);
    assert_eq!(app.get_factory().get_blueprint_keys(), vec!["widget_2".to_string()]);
    handle_menu_action(MenuAction::ToggleDesignMode, &mut app);
    assert!(!app.is_design_mode());
    handle_menu_action(MenuAction::ToggleViewTheme, &mut app);
    assert!(app.is_dark_theme());
}

#[test]
fn menu_confirmed_clear() {
    let mut app = App::new();
    handle_menu_action(MenuAction::AddWidget("column".to_string()), &mut app);
    assert_eq!(
        handle_menu_action(MenuAction::ClearCanvasConfirmed(true), &mut app),
        MenuEffect::Overlay(OverlayAction::CloseOverlay)
    );
    assert_eq!(app.get_factory().blueprint_count(), 0);
    assert_eq!(app.get_factory().get_field_counter(), 0);
    assert!(app.state.selected_widget_id.is_none());
    handle_menu_action(MenuAction::AddWidget("column".to_string()), &mut app);
    assert_eq!(
        handle_menu_action(MenuAction::NewProjectConfirmed(false), &mut app),
        MenuEffect::Overlay(OverlayAction::CloseOverlay)
    );
    assert_eq!(app.get_factory().blueprint_count(), 0);
}

#[test]
fn property_updates() {
    let mut app = App::new();
    app.add_widget("column");
    let f = &mut app.factory;
    let width = PropertyKey::declare("width");
    handle_property_update(f, "widget_1".to_string(), width.clone(), PropertyValue::Length(LengthValue::Fixed(100.0f32.to_bits()), 100.0f32.to_bits()));
    assert_eq!(f.get("widget_1", &width), Some(StoredValue::Length(LengthValue::Fixed(100.0f32.to_bits()))));
    assert_eq!(f.get_by_hash("widget_1", fnv1a_hash_64("width:pixels")), Some(StoredValue::Float(100.0f32.to_bits())));
    let label = PropertyKey::declare("label");
    handle_property_update(f, "widget_1".to_string(), label.clone(), PropertyValue::Text("Hi".to_string()));
    assert_eq!(f.get("widget_1", &label), Some(StoredValue::Text("Hi".to_string())));
    let color = PropertyKey::declare("color");
    let c = ColorBits { r: 1, g: 2, b: 3, a: 4 };
    handle_property_update(f, "widget_1".to_string(), color.clone(), PropertyValue::Color(c));
    assert_eq!(f.get("widget_1", &color), Some(StoredValue::Color(c)));
    let q = PropertyKey::declare("quad");
    handle_property_update(f, "widget_1".to_string(), q.clone(), PropertyValue::Quad(0, 1));
    handle_property_update(f, "widget_1".to_string(), q.clone(), PropertyValue::Size(0));
    assert_eq!(f.get("widget_1", &q), None);
}

#[test]
fn property_update_parent_goes_through_reparenting() {
    let mut app = App::new();
    app.add_widget("column");
    app.clear_selection();
    app.add_widget("text");
    let f = &mut app.factory;
    handle_property_update(f, "widget_2".to_string(), prop_parent(), PropertyValue::Parent(" Widget_1 ".to_string()));
    assert_eq!(f.parent_string("widget_2"), "widget_1");
    // a text cannot hold the column
    handle_property_update(f, "widget_1".to_string(), prop_parent(), PropertyValue::Parent("widget_2".to_string()));
    assert_eq!(f.parent_string("widget_1"), "");
}
