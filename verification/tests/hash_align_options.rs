use iced_forms::align::{
    cast_align_items_2_string, cast_align_x_2_string, cast_align_y_2_string, cast_string_2_align_items,
    cast_string_2_align_x, cast_string_2_align_y, Alignment, Horizontal, Vertical,
};
use iced_forms::hash::{fnv1a_hash_64, runtime_hash_64};
use iced_forms::options::{
    align_items_options, col_align_items_options, font_family_options, font_style_options, font_weight_options,
    mouse_area_cursor_options, row_align_items_options, scroll_options, svg_content_fit_options,
    text_alignment_options,
};
use iced_forms::text::normalize_key;

#[test]
fn fnv_of_empty_is_offset_basis() {
    assert_eq!(fnv1a_hash_64(""), 0xcbf29ce484222325);
}

#[test]
fn fnv_known_values() {
    assert_eq!(fnv1a_hash_64("a"), 0xaf63dc4c8601ec8c);
    assert_eq!(fnv1a_hash_64("foobar"), 0x85944171f73967e8);
}

#[test]
fn fnv_hashes_utf8_bytes() {
    // "é" is two UTF-8 bytes: 0xC3 0xA9
    let mut h: u64 = 0xcbf29ce484222325;
    for b in [0xC3u8, 0xA9u8] {
        h = (h ^ b as u64).wrapping_mul(0x100000001b3);
    }
    assert_eq!(fnv1a_hash_64("é"), h);
}

#[test]
fn runtime_hash_blank_is_zero() {
    assert_eq!(runtime_hash_64(""), 0);
    assert_eq!(runtime_hash_64("   \t\n"), 0);
}

#[test]
fn runtime_hash_matches_fnv_for_text() {
    assert_eq!(runtime_hash_64("widget_1"), fnv1a_hash_64("widget_1"));
    assert_eq!(runtime_hash_64(" x "), fnv1a_hash_64(" x "));
}

#[test]
fn normalize_key_trims_and_lowercases() {
    assert_eq!(normalize_key("  CeNtEr \n"), "center");
}

#[test]
fn alignment_names_roundtrip() {
    for a in [Alignment::Start, Alignment::Center, Alignment::End] {
        assert_eq!(cast_string_2_align_items(&cast_align_items_2_string(a)), Some(a));
    }
    for h in [Horizontal::Left, Horizontal::Center, Horizontal::Right] {
        assert_eq!(cast_string_2_align_x(&cast_align_x_2_string(h)), Some(h));
    }
    for v in [Vertical::Top, Vertical::Center, Vertical::Bottom] {
        assert_eq!(cast_string_2_align_y(&cast_align_y_2_string(v)), Some(v));
    }
}

#[test]
fn alignment_names_exact() {
    assert_eq!(cast_align_items_2_string(Alignment::End), "End");
    assert_eq!(cast_align_x_2_string(Horizontal::Right), "Right");
    assert_eq!(cast_align_y_2_string(Vertical::Bottom), "Bottom");
}

#[test]
fn alignment_parse_ignores_case_and_space() {
    assert_eq!(cast_string_2_align_x("  LEFT "), Some(Horizontal::Left));
    assert_eq!(cast_string_2_align_y("bottom"), Some(Vertical::Bottom));
    assert_eq!(cast_string_2_align_items("Start"), Some(Alignment::Start));
}

#[test]
fn alignment_parse_rejects_unknown() {
    assert_eq!(cast_string_2_align_x("middle"), None);
    assert_eq!(cast_string_2_align_y(""), None);
    assert_eq!(cast_string_2_align_items("left"), None);
}

#[test]
fn option_lists() {
    assert_eq!(text_alignment_options(), vec!["Left", "Center", "Right"]);
    assert_eq!(row_align_items_options(), vec!["Top", "Center", "Bottom"]);
    assert_eq!(align_items_options(), vec!["Start", "Center", "End"]);
    assert_eq!(col_align_items_options(), vec!["Left", "Center", "Right"]);
    assert_eq!(font_family_options(), vec!["System", "Monospace", "Serif"]);
    assert_eq!(scroll_options(), vec!["vertical", "horizontal", "both"]);
    assert_eq!(font_weight_options(), vec!["Normal", "Bold"]);
    assert_eq!(font_style_options(), vec!["Normal", "Italic"]);
    assert_eq!(svg_content_fit_options(), vec!["Contain", "Cover", "Fill", "None"]);
}

#[test]
fn cursor_options() {
    let c = mouse_area_cursor_options();
    assert_eq!(c.len(), 27);
    assert_eq!(c[0], "None");
    assert_eq!(c[5], "Pointer");
    assert_eq!(c[26], "ZoomOut");
}
