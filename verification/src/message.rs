use vstd::prelude::*;

use crate::align::{Alignment, Horizontal, Vertical};
use crate::property::{ColorBits, LengthValue, PaddingBits, PropertyKey, RadiusBits};

verus! {

/// The actions of the main menu, the toolbars and the widget tree.
/// A file chosen in a dialog is named by its path.
#[derive(Clone, Debug, PartialEq, Eq)]
pub enum MenuAction {
    NewProject,
    NewProjectConfirmed(bool),
    OpenProject,
    OpenProjectConfirmed(Option<String>),
    SaveProject,
    SaveProjectConfirmed(Option<String>),
    ExportProject,
    ExportProjectConfirmed(Option<String>),
    ShowAbout,
    ExitApplication,
    ExitApplicationConfirmed(bool),
    ClearCanvas,
    ClearCanvasConfirmed(bool),
    OpenSettingsPanel,
    /// Adds a widget of the given type name.
    AddWidget(String),
    /// Deletes the selected widget.
    DeleteWidget,
    /// Selects a widget by id.
    SelectWidget(String),
    /// Selects a property of the selected widget.
    SelectProperty(PropertyKey),
    MoveUpWidget,
    MoveDownWidget,
    ToggleDesignMode,
    ToggleViewTheme,
    ClearSelection,
    NoOp,
}

/// A new value for a widget property, as the inspector sends it. Each
/// `f32` is held by its bit pattern.
#[derive(Clone, Debug, PartialEq, Eq)]
pub enum PropertyValue {
    /// A new parent for the widget.
    Parent(String),
    Text(String),
    USize(usize),
    Float(u32),
    Integer(i32),
    Boolean(bool),
    Color(ColorBits),
    Quad(u32, usize),
    /// A length, with the pixel size the editor last showed for it.
    Length(LengthValue, u32),
    Size(u32),
    Pixels(u32),
    Padding(PaddingBits),
    Radius(RadiusBits),
    AlignItems(Alignment),
    AlignX(Horizontal),
    AlignY(Vertical),
}

/// The dialogs an overlay can show.
#[derive(Clone, Copy, Debug, PartialEq, Eq, Structural)]
pub enum DialogType {
    NewProject,
    ClearProject,
    Exit,
    Info,
    About,
    Settings,
    TreeCode,
    WidgetCode,
}

/// What the overlay above the workspace shows or does.
#[derive(Clone, Debug, PartialEq, Eq)]
pub enum OverlayAction {
    /// Opens the editor of the widget with this id.
    OpenWidgetEditor(String),
    /// Opens a dialog.
    OpenDialog(DialogType),
    /// Closes the overlay.
    CloseOverlay,
    /// No overlay.
    NoOp,
}

impl Default for OverlayAction {
    fn default() -> (r: OverlayAction)
        ensures
            r == OverlayAction::NoOp,
    {
        OverlayAction::NoOp
    }
}

} // verus!
