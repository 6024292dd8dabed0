use vstd::prelude::*;

use crate::text::{all_ascii, ascii_lower, normalize_key, option_key, owned, str_eq, trim_chars};

verus! {

/// Alignment of items along the cross axis.
#[derive(Clone, Copy, Debug, PartialEq, Eq, Structural)]
pub enum Alignment {
    Start,
    Center,
    End,
}

/// Horizontal alignment.
#[derive(Clone, Copy, Debug, PartialEq, Eq, Structural)]
pub enum Horizontal {
    Left,
    Center,
    Right,
}

/// Vertical alignment.
#[derive(Clone, Copy, Debug, PartialEq, Eq, Structural)]
pub enum Vertical {
    Top,
    Center,
    Bottom,
}

/// Display name of an `Alignment`.
pub open spec fn alignment_name(a: Alignment) -> Seq<char> {
    match a {
        Alignment::Start => "Start"@,
        Alignment::Center => "Center"@,
        Alignment::End => "End"@,
    }
}

/// Display name of a `Horizontal`.
pub open spec fn horizontal_name(a: Horizontal) -> Seq<char> {
    match a {
        Horizontal::Left => "Left"@,
        Horizontal::Center => "Center"@,
        Horizontal::Right => "Right"@,
    }
}

/// Display name of a `Vertical`.
pub open spec fn vertical_name(a: Vertical) -> Seq<char> {
    match a {
        Vertical::Top => "Top"@,
        Vertical::Center => "Center"@,
        Vertical::Bottom => "Bottom"@,
    }
}

/// The `Alignment` a normalized key names.
pub open spec fn alignment_from_key(k: Seq<char>) -> Option<Alignment> {
    if k == "start"@ {
        Some(Alignment::Start)
    } else if k == "center"@ {
        Some(Alignment::Center)
    } else if k == "end"@ {
        Some(Alignment::End)
    } else {
        None
    }
}

/// The `Horizontal` a normalized key names.
pub open spec fn horizontal_from_key(k: Seq<char>) -> Option<Horizontal> {
    if k == "left"@ {
        Some(Horizontal::Left)
    } else if k == "center"@ {
        Some(Horizontal::Center)
    } else if k == "right"@ {
        Some(Horizontal::Right)
    } else {
        None
    }
}

/// The `Vertical` a normalized key names.
pub open spec fn vertical_from_key(k: Seq<char>) -> Option<Vertical> {
    if k == "top"@ {
        Some(Vertical::Top)
    } else if k == "center"@ {
        Some(Vertical::Center)
    } else if k == "bottom"@ {
        Some(Vertical::Bottom)
    } else {
        None
    }
}

/// Name of an `Alignment` ("Start", "Center", "End").
pub fn cast_align_items_2_string(value: Alignment) -> (r: String)
    ensures
        r@ == alignment_name(value),
{
    match value {
        Alignment::Start => owned("Start"),
        Alignment::Center => owned("Center"),
        Alignment::End => owned("End"),
    }
}

/// The `Alignment` a normalized (trimmed, lower-cased) key names.
pub fn align_items_key(key: &str) -> (r: Option<Alignment>)
    ensures
        r == alignment_from_key(key@),
{
    if str_eq(key, "start") {
        Some(Alignment::Start)
    } else if str_eq(key, "center") {
        Some(Alignment::Center)
    } else if str_eq(key, "end") {
        Some(Alignment::End)
    } else {
        None
    }
}

/// Parses an `Alignment` by name, ignoring surrounding white space and case.
pub fn cast_string_2_align_items(value: &str) -> (r: Option<Alignment>)
    ensures
        r == alignment_from_key(option_key(value@)),
        all_ascii(trim_chars(value@)) ==> r == alignment_from_key(ascii_lower(trim_chars(value@))),
{
    let key = normalize_key(value);
    align_items_key(key.as_str())
}

/// Name of a `Horizontal` ("Left", "Center", "Right").
pub fn cast_align_x_2_string(value: Horizontal) -> (r: String)
    ensures
        r@ == horizontal_name(value),
{
    match value {
        Horizontal::Left => owned("Left"),
        Horizontal::Center => owned("Center"),
        Horizontal::Right => owned("Right"),
    }
}

/// The `Horizontal` a normalized (trimmed, lower-cased) key names.
pub fn align_x_key(key: &str) -> (r: Option<Horizontal>)
    ensures
        r == horizontal_from_key(key@),
{
    if str_eq(key, "left") {
        Some(Horizontal::Left)
    } else if str_eq(key, "center") {
        Some(Horizontal::Center)
    } else if str_eq(key, "right") {
        Some(Horizontal::Right)
    } else {
        None
    }
}

/// Parses a `Horizontal` by name, ignoring surrounding white space and case.
pub fn cast_string_2_align_x(value: &str) -> (r: Option<Horizontal>)
    ensures
        r == horizontal_from_key(option_key(value@)),
        all_ascii(trim_chars(value@)) ==> r == horizontal_from_key(ascii_lower(trim_chars(value@))),
{
    let key = normalize_key(value);
    align_x_key(key.as_str())
}

/// Name of a `Vertical` ("Top", "Center", "Bottom").
pub fn cast_align_y_2_string(value: Vertical) -> (r: String)
    ensures
        r@ == vertical_name(value),
{
    match value {
        Vertical::Top => owned("Top"),
        Vertical::Center => owned("Center"),
        Vertical::Bottom => owned("Bottom"),
    }
}

/// The `Vertical` a normalized (trimmed, lower-cased) key names.
pub fn align_y_key(key: &str) -> (r: Option<Vertical>)
    ensures
        r == vertical_from_key(key@),
{
    if str_eq(key, "top") {
        Some(Vertical::Top)
    } else if str_eq(key, "center") {
        Some(Vertical::Center)
    } else if str_eq(key, "bottom") {
        Some(Vertical::Bottom)
    } else {
        None
    }
}

/// Parses a `Vertical` by name, ignoring surrounding white space and case.
pub fn cast_string_2_align_y(value: &str) -> (r: Option<Vertical>)
    ensures
        r == vertical_from_key(option_key(value@)),
        all_ascii(trim_chars(value@)) ==> r == vertical_from_key(ascii_lower(trim_chars(value@))),
{
    let key = normalize_key(value);
    align_y_key(key.as_str())
}

/// Printing an alignment and parsing the printed name gives the same
/// alignment back (the name is ASCII, so the lower-casing is the ASCII one).
pub proof fn lemma_alignment_name_roundtrip(a: Alignment)
    ensures
        all_ascii(trim_chars(alignment_name(a))),
        alignment_from_key(ascii_lower(trim_chars(alignment_name(a)))) == Some(a),
{
    reveal_strlit("Start");
    reveal_strlit("Center");
    reveal_strlit("End");
    reveal_strlit("start");
    reveal_strlit("center");
    reveal_strlit("end");
    let n = alignment_name(a);
    lemma_trim_no_edge_space(n);
    assert(ascii_lower("Start"@) =~= "start"@);
    assert(ascii_lower("Center"@) =~= "center"@);
    assert(ascii_lower("End"@) =~= "end"@);
}

/// Printing a horizontal alignment and parsing the name gives it back.
pub proof fn lemma_horizontal_name_roundtrip(a: Horizontal)
    ensures
        all_ascii(trim_chars(horizontal_name(a))),
        horizontal_from_key(ascii_lower(trim_chars(horizontal_name(a)))) == Some(a),
{
    reveal_strlit("Left");
    reveal_strlit("Center");
    reveal_strlit("Right");
    reveal_strlit("left");
    reveal_strlit("center");
    reveal_strlit("right");
    let n = horizontal_name(a);
    lemma_trim_no_edge_space(n);
    assert(ascii_lower("Left"@) =~= "left"@);
    assert(ascii_lower("Center"@) =~= "center"@);
    assert(ascii_lower("Right"@) =~= "right"@);
}

/// Printing a vertical alignment and parsing the name gives it back.
pub proof fn lemma_vertical_name_roundtrip(a: Vertical)
    ensures
        all_ascii(trim_chars(vertical_name(a))),
        vertical_from_key(ascii_lower(trim_chars(vertical_name(a)))) == Some(a),
{
    reveal_strlit("Top");
    reveal_strlit("Center");
    reveal_strlit("Bottom");
    reveal_strlit("top");
    reveal_strlit("center");
    reveal_strlit("bottom");
    let n = vertical_name(a);
    lemma_trim_no_edge_space(n);
    assert(ascii_lower("Top"@) =~= "top"@);
    assert(ascii_lower("Center"@) =~= "center"@);
    assert(ascii_lower("Bottom"@) =~= "bottom"@);
    assert("bottom"@ != "top"@);
    assert("bottom"@[0] != "center"@[0]);
    assert("center"@ != "top"@);
}

/// An ASCII letter.
spec fn is_ascii_letter(c: char) -> bool {
    ('A' <= c && c <= 'Z') || ('a' <= c && c <= 'z')
}

/// A string of ASCII letters is its own trim and is all ASCII.
proof fn lemma_trim_no_edge_space(s: Seq<char>)
    requires
        s.len() > 0,
        forall|i: int| 0 <= i < s.len() ==> is_ascii_letter(#[trigger] s[i]),
    ensures
        trim_chars(s) == s,
        all_ascii(s),
{
    assert(!crate::text::is_white_space(s[0]));
    assert(crate::text::trim_start_chars(s) == s);
    assert(!crate::text::is_white_space(s.last()));
    assert(crate::text::trim_end_chars(s) == s);
}

} // verus!
