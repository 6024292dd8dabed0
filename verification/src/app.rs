use vstd::prelude::*;

use crate::blueprint::{kind_type_name, registered_kinds};
use crate::factory::{opt_view, widget_added, widget_deleted, widget_moved, Factory};
use crate::message::OverlayAction;
use crate::property::{PropertyKey, StoredValue};
use crate::text::{lowercase_chars, owned, str_eq, str_to_lowercase};

verus! {

/// The panes of the workspace.
#[derive(Clone, Copy, Debug, PartialEq, Eq, Structural)]
pub enum Pane {
    Toolbox,
    Canvas,
    Inspector,
}

/// The two parts of the inspector pane.
#[derive(Clone, Copy, Debug, PartialEq, Eq, Structural)]
pub enum InspectorPane {
    Props,
    Layers,
}

/// The look the interface is drawn in.
#[derive(Clone, Copy, Debug, PartialEq, Eq, Structural)]
pub enum RenderStyle {
    Blender,
    Figma,
    VSCode,
}

impl Default for RenderStyle {
    fn default() -> (r: RenderStyle)
        ensures
            r == RenderStyle::Blender,
    {
        RenderStyle::Blender
    }
}

/// The look of the interface and whether its theme is dark.
#[derive(Clone, Copy, Debug, PartialEq, Eq, Structural)]
pub struct UIStyle {
    pub render_style: RenderStyle,
    pub is_dark_theme: bool,
}

impl Default for UIStyle {
    fn default() -> (r: UIStyle)
        ensures
            r.render_style == RenderStyle::Blender,
            !r.is_dark_theme,
    {
        UIStyle { render_style: RenderStyle::Blender, is_dark_theme: false }
    }
}

/// The render style a configured theme name picks, by its lower-cased
/// form: "figma", "vscode", and Blender for anything else.
pub open spec fn style_for(lowered: Seq<char>) -> RenderStyle {
    if lowered == "figma"@ {
        RenderStyle::Figma
    } else if lowered == "vscode"@ {
        RenderStyle::VSCode
    } else {
        RenderStyle::Blender
    }
}

/// The render style a lower-cased theme name picks, as `style_for` says.
pub fn render_style_for(lowered: &str) -> (r: RenderStyle)
    ensures
        r == style_for(lowered@),
{
    if str_eq(lowered, "figma") {
        RenderStyle::Figma
    } else if str_eq(lowered, "vscode") {
        RenderStyle::VSCode
    } else {
        RenderStyle::Blender
    }
}

/// What the designer has selected, how it looks, and where its code
/// templates are.
#[derive(Clone, Debug)]
pub struct DesignerState {
    pub selected_widget_id: Option<String>,
    pub selected_property_key: Option<PropertyKey>,
    pub ui_style: UIStyle,
    pub template_path: String,
}

impl Default for DesignerState {
    fn default() -> (r: DesignerState)
        ensures
            r.selected_widget_id is None,
            r.selected_property_key is None,
            r.ui_style.render_style == RenderStyle::Blender,
            !r.ui_style.is_dark_theme,
            r.template_path@ == "./templates"@,
    {
        DesignerState {
            selected_widget_id: None,
            selected_property_key: None,
            ui_style: UIStyle::default(),
            template_path: owned("./templates"),
        }
    }
}

/// The selected widget id, by its characters.
pub open spec fn selected_view(st: DesignerState) -> Option<Seq<char>> {
    match st.selected_widget_id {
        Some(s) => Some(s@),
        None => None,
    }
}

/// The designer: the widget store, the selection and look, and the
/// overlay shown above the workspace with the code it displays.
#[derive(Debug)]
pub struct App {
    pub factory: Factory,
    pub state: DesignerState,
    pub overlay_operation: OverlayAction,
    pub overlay_content_code: String,
}

/// `after` is `before` with only the factory replaced.
pub open spec fn same_but_factory(before: App, after: App) -> bool {
    &&& after.state == before.state
    &&& after.overlay_operation == before.overlay_operation
    &&& after.overlay_content_code == before.overlay_content_code
}

/// `after` is `before` with only the selection replaced.
pub open spec fn same_but_selection(before: App, after: App) -> bool {
    &&& after.factory == before.factory
    &&& after.state.ui_style == before.state.ui_style
    &&& after.state.template_path == before.state.template_path
    &&& after.overlay_operation == before.overlay_operation
    &&& after.overlay_content_code == before.overlay_content_code
}

/// The factory is emptied as `Factory::clear_all` does and nothing is
/// selected; the rest stays.
pub open spec fn app_cleared(before: App, after: App) -> bool {
    &&& after.factory.wf()
    &&& after.factory.bps().len() == 0
    &&& after.factory.props()@ == Map::<(Seq<char>, u64), StoredValue>::empty()
    &&& after.factory.counter() == 0
    &&& after.factory.creator_entries() == before.factory.creator_entries()
    &&& after.factory.design_mode() == before.factory.design_mode()
    &&& after.state.selected_widget_id is None
    &&& after.state.selected_property_key is None
    &&& after.state.ui_style == before.state.ui_style
    &&& after.state.template_path == before.state.template_path
    &&& after.overlay_operation == before.overlay_operation
    &&& after.overlay_content_code == before.overlay_content_code
}

/// A widget of type `t` is added as `Factory::add_widget` does from the
/// current selection, and becomes the selection.
pub open spec fn app_added(before: App, after: App, t: Seq<char>) -> bool {
    &&& after.state.selected_widget_id matches Some(r) && widget_added(
        before.factory,
        after.factory,
        t,
        selected_view(before.state),
        r,
    )
    &&& after.state.selected_property_key is None
    &&& after.state.ui_style == before.state.ui_style
    &&& after.state.template_path == before.state.template_path
    &&& after.overlay_operation == before.overlay_operation
    &&& after.overlay_content_code == before.overlay_content_code
}

/// The selected widget, if any, is deleted with its subtree and the
/// selection is cleared; with nothing selected nothing changes.
pub open spec fn app_deleted(before: App, after: App) -> bool {
    match before.state.selected_widget_id {
        Some(w) => {
            &&& widget_deleted(before.factory, after.factory, w@)
            &&& after.state.selected_widget_id is None
            &&& after.state.selected_property_key is None
            &&& after.state.ui_style == before.state.ui_style
            &&& after.state.template_path == before.state.template_path
            &&& after.overlay_operation == before.overlay_operation
            &&& after.overlay_content_code == before.overlay_content_code
        },
        None => after == before,
    }
}

/// The selected widget, if any, is moved by `dir` places among its
/// siblings; with nothing selected nothing changes.
pub open spec fn app_moved(before: App, after: App, dir: int) -> bool {
    match before.state.selected_widget_id {
        Some(w) => widget_moved(before.factory, after.factory, w@, dir) && same_but_factory(before, after),
        None => after == before,
    }
}

/// The widget `id` is selected and no property is; the rest stays.
pub open spec fn app_selected_widget(before: App, after: App, id: String) -> bool {
    &&& after.state.selected_widget_id == Some(id)
    &&& after.state.selected_property_key is None
    &&& same_but_selection(before, after)
}

/// The property `k` is selected when a widget is; with no widget selected
/// the selection stays. The rest stays.
pub open spec fn app_selected_property(before: App, after: App, k: PropertyKey) -> bool {
    &&& after.state.selected_property_key == if before.state.selected_widget_id is Some {
        Some(k)
    } else {
        before.state.selected_property_key
    }
    &&& after.state.selected_widget_id == before.state.selected_widget_id
    &&& same_but_selection(before, after)
}

/// Nothing is selected; the rest stays.
pub open spec fn app_selection_cleared(before: App, after: App) -> bool {
    &&& after.state.selected_widget_id is None
    &&& after.state.selected_property_key is None
    &&& same_but_selection(before, after)
}

/// Design mode is switched; the rest stays.
pub open spec fn app_design_toggled(before: App, after: App) -> bool {
    &&& after.factory.design_mode() == !before.factory.design_mode()
    &&& after.factory.bps() == before.factory.bps()
    &&& after.factory.props() == before.factory.props()
    &&& after.factory.counter() == before.factory.counter()
    &&& after.factory.creator_entries() == before.factory.creator_entries()
    &&& same_but_factory(before, after)
}

/// The theme is switched between dark and light; the rest stays.
pub open spec fn app_theme_toggled(before: App, after: App) -> bool {
    &&& after.state.ui_style.is_dark_theme == !before.state.ui_style.is_dark_theme
    &&& after.state.ui_style.render_style == before.state.ui_style.render_style
    &&& after.state.selected_widget_id == before.state.selected_widget_id
    &&& after.state.selected_property_key == before.state.selected_property_key
    &&& after.state.template_path == before.state.template_path
    &&& after.factory == before.factory
    &&& after.overlay_operation == before.overlay_operation
    &&& after.overlay_content_code == before.overlay_content_code
}

impl App {
    /// The widget store is well formed, and a property is selected only
    /// while a widget is.
    pub open spec fn wf(&self) -> bool {
        &&& self.factory.wf()
        &&& (self.state.selected_property_key is Some ==> self.state.selected_widget_id is Some)
    }

    /// A designer with a fresh factory (every registered widget type, no
    /// widgets), nothing selected, the default look and no overlay.
    pub fn new() -> (r: App)
        ensures
            r.wf(),
            r.factory.bps().len() == 0,
            r.factory.props()@ == Map::<(Seq<char>, u64), StoredValue>::empty(),
            r.factory.counter() == 0,
            r.factory.design_mode(),
            forall|i: int| 0 <= i < registered_kinds().len() ==> r.factory.creator_of(kind_type_name(#[trigger] registered_kinds()[i])) == Some(registered_kinds()[i]),
            forall|n: Seq<char>| #[trigger] r.factory.creator_of(n) is Some ==> exists|i: int| 0 <= i < registered_kinds().len() && n == kind_type_name(#[trigger] registered_kinds()[i]),
            r.state.selected_widget_id is None,
            r.state.selected_property_key is None,
            r.state.ui_style.render_style == RenderStyle::Blender,
            !r.state.ui_style.is_dark_theme,
            r.state.template_path@ == "./templates"@,
            r.overlay_operation == OverlayAction::NoOp,
            r.overlay_content_code@ == Seq::<char>::empty(),
    {
        App {
            factory: Factory::new(),
            state: DesignerState::default(),
            overlay_operation: OverlayAction::NoOp,
            overlay_content_code: String::new(),
        }
    }

    /// Picks the render style from the configured theme name, by its
    /// lower-cased form.
    pub fn from_config(&mut self, theme_style: &str)
        ensures
            final(self).state.ui_style.render_style == style_for(lowercase_chars(theme_style@)),
            final(self).state.ui_style.is_dark_theme == old(self).state.ui_style.is_dark_theme,
            final(self).state.selected_widget_id == old(self).state.selected_widget_id,
            final(self).state.selected_property_key == old(self).state.selected_property_key,
            final(self).state.template_path == old(self).state.template_path,
            final(self).factory == old(self).factory,
            final(self).overlay_operation == old(self).overlay_operation,
            final(self).overlay_content_code == old(self).overlay_content_code,
    {
        let lowered = str_to_lowercase(theme_style);
        self.state.ui_style.render_style = render_style_for(lowered.as_str());
    }

    /// A designer set up from the configured theme name.
    pub fn init(theme_style: &str) -> (r: App)
        ensures
            r.wf(),
            r.factory.bps().len() == 0,
            r.factory.props()@ == Map::<(Seq<char>, u64), StoredValue>::empty(),
            r.factory.counter() == 0,
            r.factory.design_mode(),
            r.state.selected_widget_id is None,
            r.state.selected_property_key is None,
            r.state.ui_style.render_style == style_for(lowercase_chars(theme_style@)),
            !r.state.ui_style.is_dark_theme,
            r.overlay_operation == OverlayAction::NoOp,
    {
        let mut app = App::new();
        app.from_config(theme_style);
        app
    }

    /// The widget store.
    pub fn get_factory(&self) -> (r: &Factory)
        ensures
            *r == self.factory,
    {
        &self.factory
    }

    /// The widget store, to change.
    pub fn get_factory_mut(&mut self) -> (r: &mut Factory)
        ensures
            *r == old(self).factory,
            final(self).factory == *final(r),
            final(self).state == old(self).state,
            final(self).overlay_operation == old(self).overlay_operation,
            final(self).overlay_content_code == old(self).overlay_content_code,
    {
        &mut self.factory
    }

    /// The selection and look.
    pub fn get_state(&self) -> (r: &DesignerState)
        ensures
            *r == self.state,
    {
        &self.state
    }

    /// Empties the factory and clears the selection.
    pub fn clear_all(&mut self)
        requires
            old(self).wf(),
        ensures
            final(self).wf(),
            app_cleared(*old(self), *final(self)),
    {
        self.factory.clear_all();
        self.clear_selection();
    }

    /// Selects a widget; the selected property is dropped.
    pub fn select_widget(&mut self, widget_id: String)
        ensures
            old(self).wf() ==> final(self).wf(),
            app_selected_widget(*old(self), *final(self), widget_id),
    {
        self.state.selected_property_key = None;
        self.state.selected_widget_id = Some(widget_id);
    }

    /// Selects a property, when a widget is selected; otherwise nothing
    /// changes.
    pub fn select_property(&mut self, property_key: PropertyKey)
        ensures
            old(self).wf() ==> final(self).wf(),
            app_selected_property(*old(self), *final(self), property_key),
    {
        if self.state.selected_widget_id.is_some() {
            self.state.selected_property_key = Some(property_key);
        }
    }

    /// Clears the selection.
    pub fn clear_selection(&mut self)
        ensures
            old(self).wf() ==> final(self).wf(),
            app_selection_cleared(*old(self), *final(self)),
    {
        self.state.selected_property_key = None;
        self.state.selected_widget_id = None;
    }

    /// The selected widget id, copied.
    fn selected_copy(&self) -> (r: Option<String>)
        ensures
            r == self.state.selected_widget_id,
    {
        match &self.state.selected_widget_id {
            Some(s) => Some(s.clone()),
            None => None,
        }
    }

    /// Adds a widget of a type near the selection and selects it.
    pub fn add_widget(&mut self, widget_type: &str)
        requires
            old(self).wf(),
            old(self).factory.counter() < usize::MAX,
        ensures
            final(self).wf(),
            app_added(*old(self), *final(self), widget_type@),
    {
        let sel = self.selected_copy();
        let sel_ref: Option<&str> = match &sel {
            Some(s) => Some(s.as_str()),
            None => None,
        };
        assert(opt_view(sel_ref) == selected_view(old(self).state));
        let new_id = self.factory.add_widget(widget_type, sel_ref);
        self.select_widget(new_id);
    }

    /// Deletes the selected widget with its subtree and clears the
    /// selection; does nothing when nothing is selected.
    pub fn delete_widget(&mut self)
        requires
            old(self).wf(),
        ensures
            final(self).wf(),
            app_deleted(*old(self), *final(self)),
    {
        let sel = self.selected_copy();
        match sel {
            Some(w) => {
                self.factory.delete_widget(w.as_str());
                self.clear_selection();
            },
            None => {},
        }
    }

    /// Moves the selected widget one place up among its siblings.
    pub fn moveup_widget(&mut self)
        requires
            old(self).wf(),
        ensures
            final(self).wf(),
            app_moved(*old(self), *final(self), -1),
    {
        let sel = self.selected_copy();
        match sel {
            Some(w) => {
                self.factory.move_widget_in_map(w.as_str(), -1);
            },
            None => {},
        }
    }

    /// Moves the selected widget one place down among its siblings.
    pub fn movedown_widget(&mut self)
        requires
            old(self).wf(),
        ensures
            final(self).wf(),
            app_moved(*old(self), *final(self), 1),
    {
        let sel = self.selected_copy();
        match sel {
            Some(w) => {
                self.factory.move_widget_in_map(w.as_str(), 1);
            },
            None => {},
        }
    }

    /// Switches design mode.
    pub fn toggle_design_mode(&mut self)
        requires
            old(self).wf(),
        ensures
            final(self).wf(),
            app_design_toggled(*old(self), *final(self)),
    {
        self.factory.toggle_design_mode();
    }

    /// Switches between the dark and the light theme.
    pub fn toggle_view_theme(&mut self)
        ensures
            old(self).wf() ==> final(self).wf(),
            app_theme_toggled(*old(self), *final(self)),
    {
        self.state.ui_style.is_dark_theme = !self.is_dark_theme();
    }

    /// Whether design mode is on.
    pub fn is_design_mode(&self) -> (r: bool)
        ensures
            r == self.factory.design_mode(),
    {
        self.get_factory().is_design_mode()
    }

    /// Whether the theme is dark.
    pub fn is_dark_theme(&self) -> (r: bool)
        ensures
            r == self.state.ui_style.is_dark_theme,
    {
        self.state.ui_style.is_dark_theme
    }

    /// The look of the interface.
    pub fn get_ui_style(&self) -> (r: UIStyle)
        ensures
            r == self.state.ui_style,
    {
        self.state.ui_style
    }

    /// Whether an overlay is shown: anything but `NoOp`.
    pub fn has_active_overlay(&self) -> (r: bool)
        ensures
            r == !(self.overlay_operation is NoOp),
    {
        !matches!(self.overlay_operation, OverlayAction::NoOp)
    }

    /// Closes the overlay on `CloseOverlay`; shows any other action.
    pub fn apply_overlay(&mut self, action: OverlayAction)
        ensures
            old(self).wf() ==> final(self).wf(),
            action is CloseOverlay ==> final(self).overlay_operation == OverlayAction::NoOp
                && final(self).overlay_content_code@ == Seq::<char>::empty(),
            !(action is CloseOverlay) ==> final(self).overlay_operation == action
                && final(self).overlay_content_code == old(self).overlay_content_code,
            final(self).factory == old(self).factory,
            final(self).state == old(self).state,
    {
        match action {
            OverlayAction::CloseOverlay => {
                self.close_overlay();
            },
            _ => {
                self.overlay_operation = action;
            },
        }
    }

    /// Closes the overlay and drops the code it showed.
    pub fn close_overlay(&mut self)
        ensures
            old(self).wf() ==> final(self).wf(),
            final(self).overlay_operation == OverlayAction::NoOp,
            final(self).overlay_content_code@ == Seq::<char>::empty(),
            final(self).factory == old(self).factory,
            final(self).state == old(self).state,
    {
        self.overlay_operation = OverlayAction::NoOp;
        self.overlay_content_code = String::new();
    }
}

} // verus!
