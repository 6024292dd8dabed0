use iced_forms::align::{align_items_key, align_x_key, align_y_key, Alignment, Horizontal, Vertical};
use iced_forms::app::{render_style_for, RenderStyle};
use iced_forms::property::{LengthValue, PaddingBits};
use iced_forms::utils::{classify_length_key, length_for_mode_key, pixel_number_of_key, uniform_radius_of_key};
use iced_forms::utils::{
    cast_hex_2_color, cast_text_f32_2_length, classify_length, padding_from_values, parse_u16,
    pixel_number, radius_text, rgb_hex, split_words, HexColor, LengthText, RadiusText,
};

fn chars(s: &str) -> Vec<char> {
    s.chars().collect()
}

#[test]
fn hex_colors() {
    assert_eq!(cast_hex_2_color(" transparent "), Some(HexColor::Transparent));
    assert_eq!(cast_hex_2_color("#FF8000"), Some(HexColor::Rgb(255, 128, 0)));
    assert_eq!(cast_hex_2_color("ff8000"), Some(HexColor::Rgb(255, 128, 0)));
    assert_eq!(cast_hex_2_color("##0a0B0c"), Some(HexColor::Rgb(10, 11, 12)));
    assert_eq!(cast_hex_2_color("#+f+f+f"), None);
    assert_eq!(cast_hex_2_color("+1+2+3"), None);
    assert_eq!(cast_hex_2_color("#FFF"), None);
    assert_eq!(cast_hex_2_color("#GG0000"), None);
    assert_eq!(cast_hex_2_color("Transparent"), None);
}

#[test]
fn hex_colors_refuse_non_ascii_without_panicking() {
    assert_eq!(cast_hex_2_color("éaéa0"), None);
    assert_eq!(cast_hex_2_color("aéxyz"), None);
    assert_eq!(cast_hex_2_color("ffaéx"), None);
    assert_eq!(cast_hex_2_color("#éé"), None);
    assert_eq!(cast_hex_2_color("ﬀ8000"), None);
}

#[test]
fn hex_text_of_bytes() {
    assert_eq!(rgb_hex(255, 128, 0), "#FF8000");
    assert_eq!(rgb_hex(0, 10, 171), "#000AAB");
}

#[test]
fn hex_roundtrip() {
    for (r, g, b) in [(0u8, 0u8, 0u8), (1, 2, 3), (254, 127, 16), (255, 255, 255)] {
        assert_eq!(cast_hex_2_color(&rgb_hex(r, g, b)), Some(HexColor::Rgb(r, g, b)));
    }
}

#[test]
fn length_modes() {
    assert_eq!(cast_text_f32_2_length(" FILL ", 7), LengthValue::Fill);
    assert_eq!(cast_text_f32_2_length("shrink", 7), LengthValue::Shrink);
    assert_eq!(cast_text_f32_2_length("fixed", 7), LengthValue::Fixed(7));
    assert_eq!(cast_text_f32_2_length("anything", 9), LengthValue::Fixed(9));
}

#[test]
fn length_texts() {
    assert_eq!(classify_length(" Fill "), LengthText::Fill);
    assert_eq!(classify_length("SHRINK"), LengthText::Shrink);
    assert_eq!(classify_length("FillPortion:3"), LengthText::FillPortion(3));
    assert_eq!(classify_length("fillportion: +12 :9"), LengthText::FillPortion(12));
    assert_eq!(classify_length("fillportion:70000"), LengthText::Number("fillportion:70000".to_string()));
    assert_eq!(classify_length("Fixed: 120.5"), LengthText::Number("120.5".to_string()));
    assert_eq!(classify_length("fixed:"), LengthText::Number("".to_string()));
    assert_eq!(classify_length(" 42 "), LengthText::Number("42".to_string()));
}

#[test]
fn u16_reading() {
    assert_eq!(parse_u16(&chars("0")), Some(0));
    assert_eq!(parse_u16(&chars("+65535")), Some(65535));
    assert_eq!(parse_u16(&chars("65536")), None);
    assert_eq!(parse_u16(&chars("007")), Some(7));
    assert_eq!(parse_u16(&chars("+")), None);
    assert_eq!(parse_u16(&chars("")), None);
    assert_eq!(parse_u16(&chars("-1")), None);
    assert_eq!(parse_u16(&chars("12a")), None);
    assert_eq!(parse_u16(&chars("999999a")), None);
}

#[test]
fn pixel_numbers() {
    assert_eq!(pixel_number(" 16PX "), "16");
    assert_eq!(pixel_number("24.5 px"), "24.5");
    assert_eq!(pixel_number("3pxpx"), "3");
    assert_eq!(pixel_number("12"), "12");
}

#[test]
fn paddings() {
    let one = PaddingBits { top: 1, right: 1, bottom: 1, left: 1 };
    assert_eq!(padding_from_values(&vec![1]), Some(one));
    assert_eq!(padding_from_values(&vec![1, 2]), Some(PaddingBits { top: 1, right: 2, bottom: 1, left: 2 }));
    assert_eq!(padding_from_values(&vec![1, 2, 3, 4]), Some(PaddingBits { top: 1, right: 2, bottom: 3, left: 4 }));
    assert_eq!(padding_from_values(&vec![1, 2, 3]), None);
    assert_eq!(padding_from_values(&vec![]), None);
}

#[test]
fn words() {
    assert_eq!(split_words("  a bb\tccc \n"), vec!["a", "bb", "ccc"]);
    assert_eq!(split_words(""), Vec::<String>::new());
    assert_eq!(split_words("one"), vec!["one"]);
    assert_eq!(split_words("x\u{3000}y"), vec!["x", "y"]);
}

#[test]
fn radius_texts() {
    assert_eq!(
        radius_text(" 8 8 0 0 "),
        RadiusText::Corners(vec!["8".to_string(), "8".to_string(), "0".to_string(), "0".to_string()])
    );
    assert_eq!(radius_text(" 4PX "), RadiusText::Uniform("4".to_string()));
    assert_eq!(radius_text("4 5"), RadiusText::Uniform("4 5".to_string()));
}

#[test]
fn normalized_key_readers() {
    assert_eq!(align_items_key("end"), Some(Alignment::End));
    assert_eq!(align_items_key("End"), None);
    assert_eq!(align_x_key("center"), Some(Horizontal::Center));
    assert_eq!(align_y_key(" top"), None);
    assert_eq!(align_y_key("top"), Some(Vertical::Top));
    assert_eq!(render_style_for("vscode"), RenderStyle::VSCode);
    assert_eq!(render_style_for("VSCode"), RenderStyle::Blender);
    assert_eq!(length_for_mode_key("fill", 1), LengthValue::Fill);
    assert_eq!(length_for_mode_key(" fill", 1), LengthValue::Fixed(1));
    assert_eq!(classify_length_key("fillportion:2"), LengthText::FillPortion(2));
    assert_eq!(classify_length_key("Fill"), LengthText::Number("Fill".to_string()));
    assert_eq!(pixel_number_of_key("10px"), "10");
    assert_eq!(pixel_number_of_key("10"), "10");
    assert_eq!(uniform_radius_of_key("6 px"), "6");
}
