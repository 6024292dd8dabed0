use vstd::prelude::*;

use crate::app::{
    app_added, app_cleared, app_deleted, app_design_toggled, app_moved, app_selected_property, app_selected_widget,
    app_selection_cleared, app_theme_toggled, App,
};
use crate::factory::{chains_end_in, lemma_empty_table_chains};
use crate::message::{DialogType, MenuAction, OverlayAction};

verus! {

/// The work a menu action leaves to the surroundings of the designer:
/// nothing, an overlay event to send, a file to ask the user for, a
/// project file to read, write or export to, or ending the process.
#[derive(Clone, Debug, PartialEq, Eq)]
pub enum MenuEffect {
    Nothing,
    Overlay(OverlayAction),
    AskOpenPath,
    AskSavePath,
    AskExportPath,
    LoadProject(String),
    SaveProject(String),
    ExportProject(String),
    Exit,
}

/// The work left to the surroundings after a menu action.
pub open spec fn menu_effect(action: MenuAction) -> MenuEffect {
    match action {
        MenuAction::NewProject => MenuEffect::Overlay(OverlayAction::OpenDialog(DialogType::NewProject)),
        MenuAction::NewProjectConfirmed(_) => MenuEffect::Overlay(OverlayAction::CloseOverlay),
        MenuAction::OpenProject => MenuEffect::AskOpenPath,
        MenuAction::OpenProjectConfirmed(Some(p)) => MenuEffect::LoadProject(p),
        MenuAction::SaveProject => MenuEffect::AskSavePath,
        MenuAction::SaveProjectConfirmed(Some(p)) => MenuEffect::SaveProject(p),
        MenuAction::ClearCanvas => MenuEffect::Overlay(OverlayAction::OpenDialog(DialogType::ClearProject)),
        MenuAction::ClearCanvasConfirmed(_) => MenuEffect::Overlay(OverlayAction::CloseOverlay),
        MenuAction::ExportProject => MenuEffect::AskExportPath,
        MenuAction::ExportProjectConfirmed(Some(p)) => MenuEffect::ExportProject(p),
        MenuAction::ExitApplication => MenuEffect::Overlay(OverlayAction::OpenDialog(DialogType::Exit)),
        MenuAction::ExitApplicationConfirmed(_) => MenuEffect::Exit,
        MenuAction::ShowAbout => MenuEffect::Overlay(OverlayAction::OpenDialog(DialogType::About)),
        _ => MenuEffect::Nothing,
    }
}

/// What a menu action does to the designer.
pub open spec fn menu_step(before: App, after: App, action: MenuAction) -> bool {
    match action {
        MenuAction::NewProjectConfirmed(_) => app_cleared(before, after),
        MenuAction::ClearCanvasConfirmed(_) => app_cleared(before, after),
        MenuAction::AddWidget(t) => app_added(before, after, t@),
        MenuAction::DeleteWidget => app_deleted(before, after),
        MenuAction::SelectWidget(id) => app_selected_widget(before, after, id),
        MenuAction::SelectProperty(k) => app_selected_property(before, after, k),
        MenuAction::MoveUpWidget => app_moved(before, after, -1),
        MenuAction::MoveDownWidget => app_moved(before, after, 1),
        MenuAction::ToggleDesignMode => app_design_toggled(before, after),
        MenuAction::ToggleViewTheme => app_theme_toggled(before, after),
        MenuAction::ClearSelection => app_selection_cleared(before, after),
        _ => after == before,
    }
}

/// Handles a menu action: changes the designer as `menu_step` says and
/// returns the work left to its surroundings. No menu action makes a chain
/// of parents run in a circle.
pub fn handle_menu_action(action: MenuAction, app: &mut App) -> (r: MenuEffect)
    requires
        old(app).wf(),
        action is AddWidget ==> old(app).factory.counter() < usize::MAX,
    ensures
        final(app).wf(),
        r == menu_effect(action),
        menu_step(*old(app), *final(app), action),
        chains_end_in(old(app).factory.props()) ==> chains_end_in(final(app).factory.props()),
{
    let ghost a0 = *app;
    let ghost act = action;
    let r = handle_menu_step(action, app);
    proof {
        if chains_end_in(a0.factory.props()) {
            match act {
                MenuAction::NewProjectConfirmed(_) | MenuAction::ClearCanvasConfirmed(_) => {
                    lemma_empty_table_chains(app.factory.props());
                },
                _ => {},
            }
        }
    }
    r
}

/// Handles a menu action as `menu_step` says, returning the work left.
fn handle_menu_step(action: MenuAction, app: &mut App) -> (r: MenuEffect)
    requires
        old(app).wf(),
        action is AddWidget ==> old(app).factory.counter() < usize::MAX,
    ensures
        final(app).wf(),
        r == menu_effect(action),
        menu_step(*old(app), *final(app), action),
{
    match action {
        MenuAction::NewProject => MenuEffect::Overlay(OverlayAction::OpenDialog(DialogType::NewProject)),
        MenuAction::NewProjectConfirmed(_) => {
            app.clear_all();
            MenuEffect::Overlay(OverlayAction::CloseOverlay)
        },
        MenuAction::OpenProject => MenuEffect::AskOpenPath,
        MenuAction::OpenProjectConfirmed(path) => match path {
            Some(p) => MenuEffect::LoadProject(p),
            None => MenuEffect::Nothing,
        },
        MenuAction::SaveProject => MenuEffect::AskSavePath,
        MenuAction::SaveProjectConfirmed(path) => match path {
            Some(p) => MenuEffect::SaveProject(p),
            None => MenuEffect::Nothing,
        },
        MenuAction::ClearCanvas => MenuEffect::Overlay(OverlayAction::OpenDialog(DialogType::ClearProject)),
        MenuAction::ClearCanvasConfirmed(_) => {
            app.clear_all();
            MenuEffect::Overlay(OverlayAction::CloseOverlay)
        },
        MenuAction::ExportProject => MenuEffect::AskExportPath,
        MenuAction::ExportProjectConfirmed(path) => match path {
            Some(p) => MenuEffect::ExportProject(p),
            None => MenuEffect::Nothing,
        },
        MenuAction::ExitApplication => MenuEffect::Overlay(OverlayAction::OpenDialog(DialogType::Exit)),
        MenuAction::ExitApplicationConfirmed(_) => MenuEffect::Exit,
        MenuAction::ShowAbout => MenuEffect::Overlay(OverlayAction::OpenDialog(DialogType::About)),
        MenuAction::AddWidget(widget_type) => {
            app.add_widget(widget_type.as_str());
            MenuEffect::Nothing
        },
        MenuAction::DeleteWidget => {
            app.delete_widget();
            MenuEffect::Nothing
        },
        MenuAction::SelectWidget(widget_id) => {
            app.select_widget(widget_id);
            MenuEffect::Nothing
        },
        MenuAction::SelectProperty(prop_key) => {
            app.select_property(prop_key);
            MenuEffect::Nothing
        },
        MenuAction::MoveUpWidget => {
            app.moveup_widget();
            MenuEffect::Nothing
        },
        MenuAction::MoveDownWidget => {
            app.movedown_widget();
            MenuEffect::Nothing
        },
        MenuAction::ToggleDesignMode => {
            app.toggle_design_mode();
            MenuEffect::Nothing
        },
        MenuAction::ToggleViewTheme => {
            app.toggle_view_theme();
            MenuEffect::Nothing
        },
        MenuAction::ClearSelection => {
            app.clear_selection();
            MenuEffect::Nothing
        },
        MenuAction::NoOp => MenuEffect::Nothing,
        MenuAction::OpenSettingsPanel => MenuEffect::Nothing,
    }
}

/// Each menu action that edits the designer does exactly what the
/// matching `App` method does (as its contract states) and leaves no work
/// to the surroundings: selecting a widget or a property, adding,
/// deleting or moving a widget, switching design mode or the theme, and
/// clearing the selection.
pub proof fn law_menu_matches_methods(before: App, after: App, action: MenuAction)
    ensures
        action matches MenuAction::SelectWidget(id) ==> (menu_step(before, after, action) <==> app_selected_widget(
            before,
            after,
            id,
        )),
        action matches MenuAction::SelectProperty(k) ==> (menu_step(before, after, action) <==> app_selected_property(
            before,
            after,
            k,
        )),
        action matches MenuAction::AddWidget(t) ==> (menu_step(before, after, action) <==> app_added(before, after, t@)),
        action is DeleteWidget ==> (menu_step(before, after, action) <==> app_deleted(before, after)),
        action is MoveUpWidget ==> (menu_step(before, after, action) <==> app_moved(before, after, -1)),
        action is MoveDownWidget ==> (menu_step(before, after, action) <==> app_moved(before, after, 1)),
        action is ToggleDesignMode ==> (menu_step(before, after, action) <==> app_design_toggled(before, after)),
        action is ToggleViewTheme ==> (menu_step(before, after, action) <==> app_theme_toggled(before, after)),
        action is ClearSelection ==> (menu_step(before, after, action) <==> app_selection_cleared(before, after)),
        (action is SelectWidget || action is SelectProperty || action is AddWidget || action is DeleteWidget
            || action is MoveUpWidget || action is MoveDownWidget || action is ToggleDesignMode
            || action is ToggleViewTheme || action is ClearSelection) ==> menu_effect(action) == MenuEffect::Nothing,
{
}

} // verus!
