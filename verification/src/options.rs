use vstd::prelude::*;

use crate::text::{owned, string_views};

verus! {

/// The horizontal text alignments offered in the inspector.
pub fn text_alignment_options() -> (r: Vec<String>)
    ensures
        string_views(r@) == seq!["Left"@, "Center"@, "Right"@],
{
    let mut v: Vec<String> = Vec::new();
    v.push(owned("Left"));
    v.push(owned("Center"));
    v.push(owned("Right"));
    proof {
        assert(string_views(v@) =~= seq!["Left"@, "Center"@, "Right"@]);
    }
    v
}

/// The vertical alignments offered for the items of a row (`align_y`).
pub fn row_align_items_options() -> (r: Vec<String>)
    ensures
        string_views(r@) == seq!["Top"@, "Center"@, "Bottom"@],
{
    let mut v: Vec<String> = Vec::new();
    v.push(owned("Top"));
    v.push(owned("Center"));
    v.push(owned("Bottom"));
    proof {
        assert(string_views(v@) =~= seq!["Top"@, "Center"@, "Bottom"@]);
    }
    v
}

/// The alignments offered for `align_items`.
pub fn align_items_options() -> (r: Vec<String>)
    ensures
        string_views(r@) == seq!["Start"@, "Center"@, "End"@],
{
    let mut v: Vec<String> = Vec::new();
    v.push(owned("Start"));
    v.push(owned("Center"));
    v.push(owned("End"));
    proof {
        assert(string_views(v@) =~= seq!["Start"@, "Center"@, "End"@]);
    }
    v
}

/// The horizontal alignments offered for the items of a column (`align_x`).
pub fn col_align_items_options() -> (r: Vec<String>)
    ensures
        string_views(r@) == seq!["Left"@, "Center"@, "Right"@],
{
    let mut v: Vec<String> = Vec::new();
    v.push(owned("Left"));
    v.push(owned("Center"));
    v.push(owned("Right"));
    proof {
        assert(string_views(v@) =~= seq!["Left"@, "Center"@, "Right"@]);
    }
    v
}

/// The font families offered.
pub fn font_family_options() -> (r: Vec<String>)
    ensures
        string_views(r@) == seq!["System"@, "Monospace"@, "Serif"@],
{
    let mut v: Vec<String> = Vec::new();
    v.push(owned("System"));
    v.push(owned("Monospace"));
    v.push(owned("Serif"));
    proof {
        assert(string_views(v@) =~= seq!["System"@, "Monospace"@, "Serif"@]);
    }
    v
}

/// The mouse cursor shapes offered for a mouse area.
pub fn mouse_area_cursor_options() -> (r: Vec<String>)
    ensures
        string_views(r@) == seq![
            "None"@,
            "Hidden"@,
            "Idle"@,
            "ContextMenu"@,
            "Help"@,
            "Pointer"@,
            "Progress"@,
            "Wait"@,
            "Cell"@,
            "Crosshair"@,
            "Text"@,
            "Alias"@,
            "Copy"@,
            "Move"@,
            "NoDrop"@,
            "NotAllowed"@,
            "Grab"@,
            "Grabbing"@,
            "ResizingHorizontally"@,
            "ResizingVertically"@,
            "ResizingDiagonallyUp"@,
            "ResizingDiagonallyDown"@,
            "ResizingColumn"@,
            "ResizingRow"@,
            "AllScroll"@,
            "ZoomIn"@,
            "ZoomOut"@,
        ],
{
    let mut v: Vec<String> = Vec::new();
    v.push(owned("None"));
    v.push(owned("Hidden"));
    v.push(owned("Idle"));
    v.push(owned("ContextMenu"));
    v.push(owned("Help"));
    v.push(owned("Pointer"));
    v.push(owned("Progress"));
    v.push(owned("Wait"));
    v.push(owned("Cell"));
    v.push(owned("Crosshair"));
    v.push(owned("Text"));
    v.push(owned("Alias"));
    v.push(owned("Copy"));
    v.push(owned("Move"));
    v.push(owned("NoDrop"));
    v.push(owned("NotAllowed"));
    v.push(owned("Grab"));
    v.push(owned("Grabbing"));
    v.push(owned("ResizingHorizontally"));
    v.push(owned("ResizingVertically"));
    v.push(owned("ResizingDiagonallyUp"));
    v.push(owned("ResizingDiagonallyDown"));
    v.push(owned("ResizingColumn"));
    v.push(owned("ResizingRow"));
    v.push(owned("AllScroll"));
    v.push(owned("ZoomIn"));
    v.push(owned("ZoomOut"));
    proof {
        assert(string_views(v@) =~= seq![
            "None"@,
            "Hidden"@,
            "Idle"@,
            "ContextMenu"@,
            "Help"@,
            "Pointer"@,
            "Progress"@,
            "Wait"@,
            "Cell"@,
            "Crosshair"@,
            "Text"@,
            "Alias"@,
            "Copy"@,
            "Move"@,
            "NoDrop"@,
            "NotAllowed"@,
            "Grab"@,
            "Grabbing"@,
            "ResizingHorizontally"@,
            "ResizingVertically"@,
            "ResizingDiagonallyUp"@,
            "ResizingDiagonallyDown"@,
            "ResizingColumn"@,
            "ResizingRow"@,
            "AllScroll"@,
            "ZoomIn"@,
            "ZoomOut"@,
        ]);
    }
    v
}

/// The scroll directions offered.
pub fn scroll_options() -> (r: Vec<String>)
    ensures
        string_views(r@) == seq!["vertical"@, "horizontal"@, "both"@],
{
    let mut v: Vec<String> = Vec::new();
    v.push(owned("vertical"));
    v.push(owned("horizontal"));
    v.push(owned("both"));
    proof {
        assert(string_views(v@) =~= seq!["vertical"@, "horizontal"@, "both"@]);
    }
    v
}

/// The font weights offered.
pub fn font_weight_options() -> (r: Vec<String>)
    ensures
        string_views(r@) == seq!["Normal"@, "Bold"@],
{
    let mut v: Vec<String> = Vec::new();
    v.push(owned("Normal"));
    v.push(owned("Bold"));
    proof {
        assert(string_views(v@) =~= seq!["Normal"@, "Bold"@]);
    }
    v
}

/// The font styles offered.
pub fn font_style_options() -> (r: Vec<String>)
    ensures
        string_views(r@) == seq!["Normal"@, "Italic"@],
{
    let mut v: Vec<String> = Vec::new();
    v.push(owned("Normal"));
    v.push(owned("Italic"));
    proof {
        assert(string_views(v@) =~= seq!["Normal"@, "Italic"@]);
    }
    v
}

/// The ways an SVG image may fit its bounds.
pub fn svg_content_fit_options() -> (r: Vec<String>)
    ensures
        string_views(r@) == seq!["Contain"@, "Cover"@, "Fill"@, "None"@],
{
    let mut v: Vec<String> = Vec::new();
    v.push(owned("Contain"));
    v.push(owned("Cover"));
    v.push(owned("Fill"));
    v.push(owned("None"));
    proof {
        assert(string_views(v@) =~= seq!["Contain"@, "Cover"@, "Fill"@, "None"@]);
    }
    v
}

} // verus!
