use vstd::prelude::*;

use crate::property::{LengthValue, PaddingBits};
use crate::text::{
    is_whitespace_char, string_views, chars_of, is_white_space, lowercase_chars, normalize_key, option_key, owned, str_eq, str_to_lowercase, str_trim,
    string_from_chars, trim_chars,
};

verus! {

/// The length a mode name and a pixel size give: "fill" and "shrink" by
/// the lower-cased, trimmed name, and a fixed size for any other name.
pub open spec fn length_for_mode(lowered_trimmed: Seq<char>, pixels: u32) -> LengthValue {
    if lowered_trimmed == "fill"@ {
        LengthValue::Fill
    } else if lowered_trimmed == "shrink"@ {
        LengthValue::Shrink
    } else {
        LengthValue::Fixed(pixels)
    }
}

/// The length named by a mode ("fill", "shrink", anything else meaning
/// fixed) with a pixel size, held by the bit pattern of its `f32`. The name
/// is lower-cased, then trimmed.
pub fn cast_text_f32_2_length(mode: &str, pixels: u32) -> (r: LengthValue)
    ensures
        r == length_for_mode(trim_chars(lowercase_chars(mode@)), pixels),
{
    let lowered = str_to_lowercase(mode);
    length_for_mode_key(str_trim(lowered.as_str()), pixels)
}

/// The length a lower-cased, trimmed mode name and a pixel size give, as
/// `length_for_mode` says.
pub fn length_for_mode_key(key: &str, pixels: u32) -> (r: LengthValue)
    ensures
        r == length_for_mode(key@, pixels),
{
    if str_eq(key, "fill") {
        LengthValue::Fill
    } else if str_eq(key, "shrink") {
        LengthValue::Shrink
    } else {
        LengthValue::Fixed(pixels)
    }
}

/// The padding CSS-style side values give: one value for every side, two
/// for top and bottom then left and right, four clockwise from the top;
/// any other count gives none.
pub open spec fn padding_of_values(v: Seq<u32>) -> Option<PaddingBits> {
    if v.len() == 1 {
        Some(PaddingBits { top: v[0], right: v[0], bottom: v[0], left: v[0] })
    } else if v.len() == 2 {
        Some(PaddingBits { top: v[0], right: v[1], bottom: v[0], left: v[1] })
    } else if v.len() == 4 {
        Some(PaddingBits { top: v[0], right: v[1], bottom: v[2], left: v[3] })
    } else {
        None
    }
}

/// Spreads CSS-style side values (bit patterns of `f32`s) over the four
/// sides of a padding, as `padding_of_values` says.
pub fn padding_from_values(values: &Vec<u32>) -> (r: Option<PaddingBits>)
    ensures
        r == padding_of_values(values@),
{
    if values.len() == 1 {
        Some(PaddingBits { top: values[0], right: values[0], bottom: values[0], left: values[0] })
    } else if values.len() == 2 {
        Some(PaddingBits { top: values[0], right: values[1], bottom: values[0], left: values[1] })
    } else if values.len() == 4 {
        Some(PaddingBits { top: values[0], right: values[1], bottom: values[2], left: values[3] })
    } else {
        None
    }
}

/// `s` without every trailing "px".
pub open spec fn strip_px(s: Seq<char>) -> Seq<char>
    decreases s.len(),
{
    if s.len() >= 2 && s[s.len() - 2] == 'p' && s[s.len() - 1] == 'x' {
        strip_px(s.take(s.len() - 2))
    } else {
        s
    }
}

/// The number part of a pixel size text: trimmed, lower-cased, with every
/// trailing "px" cut off and trimmed again.
pub open spec fn pixel_number_text(s: Seq<char>) -> Seq<char> {
    let clean = option_key(s);
    if clean.len() >= 2 && clean[clean.len() - 2] == 'p' && clean[clean.len() - 1] == 'x' {
        trim_chars(strip_px(clean))
    } else {
        clean
    }
}

/// The characters of `v` with every trailing "px" cut off.
fn strip_px_chars(v: &Vec<char>) -> (r: Vec<char>)
    ensures
        r@ == strip_px(v@),
{
    let mut n: usize = v.len();
    assert(v@.take(n as int) =~= v@);
    while n >= 2 && v[n - 2] == 'p' && v[n - 1] == 'x'
        invariant
            n <= v@.len(),
            strip_px(v@.take(n as int)) == strip_px(v@),
        decreases n,
    {
        assert(v@.take(n as int).take(n - 2) =~= v@.take(n - 2));
        n = n - 2;
    }
    let mut out: Vec<char> = Vec::new();
    let mut i: usize = 0;
    while i < n
        invariant
            i <= n <= v@.len(),
            out@ == v@.take(i as int),
        decreases n - i,
    {
        out.push(v[i]);
        assert(out@ =~= v@.take(i + 1));
        i += 1;
    }
    assert(!(v@.take(n as int).len() >= 2 && v@.take(n as int)[n - 2] == 'p' && v@.take(n as int)[n - 1] == 'x'));
    out
}

/// The number part of a pixel size text, as `pixel_number_text` says.
pub fn pixel_number(s: &str) -> (r: String)
    ensures
        r@ == pixel_number_text(s@),
{
    let clean = normalize_key(s);
    pixel_number_of_key(clean.as_str())
}

/// The number part of a trimmed, lower-cased pixel size text: every
/// trailing "px" cut off and trimmed again, or the text as it is when it
/// does not end in "px".
pub fn pixel_number_of_key(clean_text: &str) -> (r: String)
    ensures
        r@ == (if clean_text@.len() >= 2 && clean_text@[clean_text@.len() - 2] == 'p' && clean_text@[clean_text@.len() - 1] == 'x' {
            trim_chars(strip_px(clean_text@))
        } else {
            clean_text@
        }),
{
    let clean = owned(clean_text);
    let cv = chars_of(clean.as_str());
    let n = cv.len();
    if n >= 2 && cv[n - 2] == 'p' && cv[n - 1] == 'x' {
        let stripped = strip_px_chars(&cv);
        let st = string_from_chars(&stripped);
        owned(str_trim(st.as_str()))
    } else {
        clean
    }
}

/// The value of a run of ASCII decimal digits.
pub open spec fn dec_value(t: Seq<char>) -> nat
    decreases t.len(),
{
    if t.len() == 0 {
        0
    } else {
        dec_value(t.drop_last()) * 10 + ((t.last() as u32) - ('0' as u32)) as nat
    }
}

/// Every character is an ASCII decimal digit.
pub open spec fn all_digits(t: Seq<char>) -> bool {
    forall|i: int| 0 <= i < t.len() ==> '0' <= #[trigger] t[i] && t[i] <= '9'
}

/// What `u16::from_str` reads: an optional '+', then one or more ASCII
/// digits whose value fits in 16 bits.
pub open spec fn parse_u16_text(t: Seq<char>) -> Option<u16> {
    let d = if t.len() > 0 && t[0] == '+' { t.drop_first() } else { t };
    if d.len() > 0 && all_digits(d) && dec_value(d) <= 65535 {
        Some(dec_value(d) as u16)
    } else {
        None
    }
}

/// A prefix of digits never has a larger value than the whole run.
pub(crate) proof fn lemma_dec_value_prefix(t: Seq<char>, i: int)
    requires
        0 <= i <= t.len(),
        all_digits(t),
    ensures
        dec_value(t.take(i)) <= dec_value(t),
    decreases t.len() - i,
{
    if i < t.len() {
        lemma_dec_value_prefix(t, i + 1);
        assert(t.take(i + 1).drop_last() =~= t.take(i));
        assert('0' <= t[i]);
    } else {
        assert(t.take(i) =~= t);
    }
}

/// Reads a `u16` as `u16::from_str` does.
pub fn parse_u16(t: &Vec<char>) -> (r: Option<u16>)
    ensures
        r == parse_u16_text(t@),
{
    let start: usize = if t.len() > 0 && t[0] == '+' { 1 } else { 0 };
    let ghost d = if t@.len() > 0 && t@[0] == '+' { t@.drop_first() } else { t@ };
    assert(d =~= t@.skip(start as int));
    if start >= t.len() {
        return None;
    }
    let mut v: u32 = 0;
    let mut i: usize = start;
    while i < t.len()
        invariant
            start <= i <= t@.len(),
            d == (if t@.len() > 0 && t@[0] == '+' { t@.drop_first() } else { t@ }),
            d =~= t@.skip(start as int),
            d.len() > 0,
            forall|j: int| 0 <= j < i - start ==> '0' <= #[trigger] d[j] && d[j] <= '9',
            v == dec_value(d.take(i - start)),
            v <= 65535,
        decreases t@.len() - i,
    {
        let c = t[i];
        assert(d[i - start] == c);
        if !('0' <= c && c <= '9') {
            assert(!all_digits(d));
            return None;
        }
        let dig: u32 = (c as u32) - ('0' as u32);
        assert(d.take(i - start + 1).drop_last() =~= d.take(i - start));
        if v > 6553 || (v == 6553 && dig > 5) {
            proof {
                let k = i - start;
                assert(d.take(k + 1).last() == c);
                assert(dec_value(d.take(k + 1)) == v * 10 + dig);
                if all_digits(d) {
                    lemma_dec_value_prefix(d, k + 1);
                }
            }
            return None;
        }
        v = v * 10 + dig;
        i += 1;
    }
    assert(d.take(i - start) =~= d);
    Some(v as u16)
}

/// Whether `c` begins with `p`.
pub open spec fn starts_with(c: Seq<char>, p: Seq<char>) -> bool {
    c.len() >= p.len() && c.take(p.len() as int) == p
}

/// The number of characters before the first ':' (all of them when there
/// is none).
pub open spec fn first_colon(c: Seq<char>) -> nat
    decreases c.len(),
{
    if c.len() == 0 {
        0
    } else if c[0] == ':' {
        0
    } else {
        1 + first_colon(c.drop_first())
    }
}

/// The characters after the first `n`, up to the next ':'.
pub open spec fn field_after(c: Seq<char>, n: int) -> Seq<char> {
    let rest = c.skip(n);
    rest.take(first_colon(rest) as int)
}

/// Whether `v` begins with `p`.
fn vec_starts_with(v: &Vec<char>, p: &Vec<char>) -> (r: bool)
    ensures
        r == starts_with(v@, p@),
{
    if v.len() < p.len() {
        return false;
    }
    let mut i: usize = 0;
    while i < p.len()
        invariant
            i <= p@.len() <= v@.len(),
            forall|j: int| 0 <= j < i ==> v@[j] == p@[j],
        decreases p@.len() - i,
    {
        if v[i] != p[i] {
            assert(v@.take(p@.len() as int)[i as int] != p@[i as int]);
            return false;
        }
        i += 1;
    }
    assert(v@.take(p@.len() as int) =~= p@);
    true
}

/// The characters after the first `n`, up to the next ':'.
fn chars_field_after(v: &Vec<char>, n: usize) -> (r: Vec<char>)
    requires
        n <= v@.len(),
    ensures
        r@ == field_after(v@, n as int),
{
    let ghost rest = v@.skip(n as int);
    let mut out: Vec<char> = Vec::new();
    let mut i: usize = n;
    while i < v.len() && v[i] != ':'
        invariant
            n <= i <= v@.len(),
            rest == v@.skip(n as int),
            out@ == rest.take(i - n),
            forall|j: int| 0 <= j < i - n ==> rest[j] != ':',
        decreases v@.len() - i,
    {
        out.push(v[i]);
        assert(out@ =~= rest.take(i - n + 1));
        i += 1;
    }
    proof {
        let k = i - n;
        assert forall|m: int| 0 <= m <= k implies #[trigger] first_colon(rest.skip(m)) == k - m + first_colon(rest.skip(k)) by {
            lemma_first_colon_skip(rest, m, k);
        }
        if i < v@.len() {
            assert(rest.skip(k)[0] == ':');
        } else {
            assert(rest.skip(k).len() == 0);
        }
        assert(rest.skip(0) =~= rest);
    }
    out
}

/// Walking past characters other than ':' counts them.
proof fn lemma_first_colon_skip(s: Seq<char>, m: int, k: int)
    requires
        0 <= m <= k <= s.len(),
        forall|j: int| 0 <= j < k ==> s[j] != ':',
    ensures
        first_colon(s.skip(m)) == k - m + first_colon(s.skip(k)),
    decreases k - m,
{
    if m < k {
        lemma_first_colon_skip(s, m + 1, k);
        assert(s.skip(m).drop_first() =~= s.skip(m + 1));
        assert(s.skip(m)[0] == s[m]);
    }
}

/// A length as a saved text names it, before its number is read: fill,
/// shrink, a share of the fill, or a number text (of pixels).
#[derive(Clone, Debug, PartialEq, Eq)]
pub enum LengthText {
    Fill,
    Shrink,
    FillPortion(u16),
    Number(String),
}

/// The share a "fillportion:N" text names, if it reads.
pub open spec fn portion_of(c: Seq<char>) -> Option<u16> {
    if starts_with(c, "fillportion:"@) {
        parse_u16_text(trim_chars(field_after(c, "fillportion:"@.len() as int)))
    } else {
        None
    }
}

/// The number text of a fixed length: after "fixed:" up to the next ':',
/// trimmed, or the whole text.
pub open spec fn number_text_of(c: Seq<char>) -> Seq<char> {
    if starts_with(c, "fixed:"@) {
        trim_chars(field_after(c, "fixed:"@.len() as int))
    } else {
        c
    }
}

/// Whether `r` is what the trimmed, lower-cased text `c` names: "fill",
/// "shrink", "fillportion:N" with a readable `u16` share, or else the
/// number text of a fixed length.
pub open spec fn length_text_matches(c: Seq<char>, r: LengthText) -> bool {
    if c == "fill"@ {
        r == LengthText::Fill
    } else if c == "shrink"@ {
        r == LengthText::Shrink
    } else if portion_of(c) is Some {
        r == LengthText::FillPortion(portion_of(c)->0)
    } else {
        r matches LengthText::Number(t) && t@ == number_text_of(c)
    }
}

/// Reads a saved length text as far as no number is parsed: the text is
/// trimmed and lower-cased, then read as `length_text_matches` says.
pub fn classify_length(s: &str) -> (r: LengthText)
    ensures
        length_text_matches(option_key(s@), r),
{
    let clean = normalize_key(s);
    classify_length_key(clean.as_str())
}

/// Reads a trimmed, lower-cased length text as `length_text_matches`
/// says.
pub fn classify_length_key(clean_text: &str) -> (r: LengthText)
    ensures
        length_text_matches(clean_text@, r),
{
    let clean = owned(clean_text);
    if str_eq(clean.as_str(), "fill") {
        return LengthText::Fill;
    }
    if str_eq(clean.as_str(), "shrink") {
        return LengthText::Shrink;
    }
    let cv = chars_of(clean.as_str());
    let fp = chars_of("fillportion:");
    if vec_starts_with(&cv, &fp) {
        let field = chars_field_after(&cv, fp.len());
        let fs = string_from_chars(&field);
        let ft = chars_of(str_trim(fs.as_str()));
        match parse_u16(&ft) {
            Some(n) => {
                return LengthText::FillPortion(n);
            },
            None => {},
        }
    }
    let fx = chars_of("fixed:");
    if vec_starts_with(&cv, &fx) {
        let field = chars_field_after(&cv, fx.len());
        let fs = string_from_chars(&field);
        LengthText::Number(owned(str_trim(fs.as_str())))
    } else {
        LengthText::Number(clean)
    }
}

/// A colour as a hex text names it: transparent, or its red, green and
/// blue bytes (fully opaque).
#[derive(Clone, Copy, Debug, PartialEq, Eq, Structural)]
pub enum HexColor {
    Transparent,
    Rgb(u8, u8, u8),
}

/// `b` without its leading '#' bytes.
pub open spec fn strip_hashes(b: Seq<u8>) -> Seq<u8>
    decreases b.len(),
{
    if b.len() > 0 && b[0] == 0x23 {
        strip_hashes(b.drop_first())
    } else {
        b
    }
}

/// The value of an ASCII hex digit.
pub open spec fn hex_digit(b: u8) -> Option<u8> {
    if 0x30 <= b && b <= 0x39 {
        Some((b - 0x30) as u8)
    } else if 0x61 <= b && b <= 0x66 {
        Some((b - 0x61 + 10) as u8)
    } else if 0x41 <= b && b <= 0x46 {
        Some((b - 0x41 + 10) as u8)
    } else {
        None
    }
}

/// The byte two hex digits name, high digit first; `None` unless both
/// bytes are hex digits.
pub open spec fn hex_pair(a: u8, b: u8) -> Option<u8> {
    match (hex_digit(a), hex_digit(b)) {
        (Some(x), Some(y)) => Some((x * 16 + y) as u8),
        _ => None,
    }
}

/// The digits of a hex colour text: the UTF-8 bytes of the trimmed text
/// without its leading '#'s.
pub open spec fn hex_digits_of(s: Seq<char>) -> Seq<u8> {
    strip_hashes(vstd::utf8::encode_utf8(trim_chars(s)))
}

/// The colour a hex text names: "transparent" after trimming, or exactly
/// six hex digits (after trimming and dropping leading '#'s) read in pairs
/// as red, green and blue; `None` for anything else.
pub open spec fn hex_color_of(s: Seq<char>) -> Option<HexColor> {
    let d = hex_digits_of(s);
    if trim_chars(s) == "transparent"@ {
        Some(HexColor::Transparent)
    } else if d.len() != 6 {
        None
    } else {
        match (hex_pair(d[0], d[1]), hex_pair(d[2], d[3]), hex_pair(d[4], d[5])) {
            (Some(r), Some(g), Some(b)) => Some(HexColor::Rgb(r, g, b)),
            _ => None,
        }
    }
}

/// The value of an ASCII hex digit byte.
fn hex_digit_of(b: u8) -> (r: Option<u8>)
    ensures
        r == hex_digit(b),
{
    if 0x30 <= b && b <= 0x39 {
        Some(b - 0x30)
    } else if 0x61 <= b && b <= 0x66 {
        Some(b - 0x61 + 10)
    } else if 0x41 <= b && b <= 0x46 {
        Some(b - 0x41 + 10)
    } else {
        None
    }
}

/// The byte two hex digits name, as `hex_pair` says.
fn hex_pair_of(a: u8, b: u8) -> (r: Option<u8>)
    ensures
        r == hex_pair(a, b),
{
    match (hex_digit_of(a), hex_digit_of(b)) {
        (Some(x), Some(y)) => Some(x * 16 + y),
        _ => None,
    }
}

/// The number of leading '#' bytes, and the rest is `strip_hashes`.
fn count_hashes(b: &[u8]) -> (k: usize)
    ensures
        k <= b@.len(),
        strip_hashes(b@) == b@.skip(k as int),
{
    let mut k: usize = 0;
    assert(b@.skip(0) =~= b@);
    while k < b.len() && b[k] == 0x23
        invariant
            k <= b@.len(),
            strip_hashes(b@) == strip_hashes(b@.skip(k as int)),
        decreases b@.len() - k,
    {
        assert(b@.skip(k as int).drop_first() =~= b@.skip(k + 1));
        k += 1;
    }
    k
}

/// Reads a colour from a hex text as `hex_color_of` says ("transparent",
/// or "#RRGGBB" with or without the '#').
pub fn cast_hex_2_color(hex: &str) -> (r: Option<HexColor>)
    ensures
        r == hex_color_of(hex@),
{
    let t = str_trim(hex);
    if str_eq(t, "transparent") {
        return Some(HexColor::Transparent);
    }
    let b = t.as_bytes();
    assert(b@ == vstd::utf8::encode_utf8(t@));
    let k = count_hashes(b);
    if b.len() - k != 6 {
        return None;
    }
    let r = hex_pair_of(b[k], b[k + 1]);
    let g = hex_pair_of(b[k + 2], b[k + 3]);
    let bl = hex_pair_of(b[k + 4], b[k + 5]);
    match (r, g, bl) {
        (Some(r), Some(g), Some(bl)) => Some(HexColor::Rgb(r, g, bl)),
        _ => None,
    }
}

/// The hex digit character of a value below 16, upper case.
pub open spec fn hex_char(v: u8) -> char {
    if v < 10 {
        ((v + 0x30) as u8) as char
    } else {
        ((v - 10 + 0x41) as u8) as char
    }
}

/// "#RRGGBB" for the bytes, with upper-case digits.
pub open spec fn rgb_hex_text(r: u8, g: u8, b: u8) -> Seq<char> {
    seq!['#', hex_char(r / 16), hex_char(r % 16), hex_char(g / 16), hex_char(g % 16), hex_char(b / 16), hex_char(b % 16)]
}

/// The hex digit character of a value below 16, upper case.
fn hex_char_of(v: u8) -> (c: char)
    requires
        v < 16,
    ensures
        c == hex_char(v),
{
    if v < 10 {
        (v + 0x30) as char
    } else {
        (v - 10 + 0x41) as char
    }
}

/// "#RRGGBB" for the bytes, as `rgb_hex_text` says.
pub fn rgb_hex(r: u8, g: u8, b: u8) -> (s: String)
    ensures
        s@ == rgb_hex_text(r, g, b),
{
    let mut v: Vec<char> = Vec::new();
    v.push('#');
    v.push(hex_char_of(r / 16));
    v.push(hex_char_of(r % 16));
    v.push(hex_char_of(g / 16));
    v.push(hex_char_of(g % 16));
    v.push(hex_char_of(b / 16));
    v.push(hex_char_of(b % 16));
    assert(v@ =~= rgb_hex_text(r, g, b));
    string_from_chars(&v)
}

/// The words of `s`: its maximal runs of characters without the
/// `White_Space` property, in order (what `str::split_whitespace` yields).
pub open spec fn words_of(s: Seq<char>) -> Seq<Seq<char>>
    decreases s.len(),
{
    if s.len() == 0 {
        Seq::empty()
    } else {
        let prev = words_of(s.drop_last());
        let c = s.last();
        if is_white_space(c) {
            prev
        } else if s.len() >= 2 && !is_white_space(s[s.len() - 2]) {
            prev.update(prev.len() - 1, prev.last().push(c))
        } else {
            prev.push(seq![c])
        }
    }
}

/// The words of a string, as `words_of` says.
pub fn split_words(s: &str) -> (r: Vec<String>)
    ensures
        string_views(r@) == words_of(s@),
{
    let cv = chars_of(s);
    let mut words: Vec<String> = Vec::new();
    let mut cur: Vec<char> = Vec::new();
    let mut i: usize = 0;
    while i < cv.len()
        invariant
            i <= cv@.len(),
            cv@ == s@,
            (cur@.len() > 0) == (i > 0 && !is_white_space(cv@[i - 1])),
            words_of(cv@.take(i as int)) == if cur@.len() > 0 {
                string_views(words@).push(cur@)
            } else {
                string_views(words@)
            },
        decreases cv@.len() - i,
    {
        let c = cv[i];
        let ghost before = cv@.take(i as int);
        assert(cv@.take(i + 1).drop_last() =~= before);
        assert(cv@.take(i + 1).last() == c);
        if is_whitespace_char(c) {
            if cur.len() > 0 {
                let w = string_from_chars(&cur);
                words.push(w);
                assert(string_views(words@) =~= string_views(words@.drop_last()).push(cur@));
                cur = Vec::new();
            }
        } else {
            let ghost wv = string_views(words@);
            if cur.len() > 0 {
                proof {
                    assert(cv@.take(i + 1)[i - 1] == cv@[i - 1]);
                }
                let ghost oc = cur@;
                cur.push(c);
                assert(wv.push(oc).update(wv.len() as int, oc.push(c)) =~= wv.push(cur@));
            } else {
                proof {
                    if i > 0 {
                        assert(cv@.take(i + 1)[i - 1] == cv@[i - 1]);
                    }
                }
                cur.push(c);
                assert(cur@ =~= seq![c]);
            }
        }
        i += 1;
    }
    assert(cv@.take(i as int) =~= s@);
    if cur.len() > 0 {
        let w = string_from_chars(&cur);
        let ghost wv = string_views(words@);
        words.push(w);
        assert(string_views(words@) =~= wv.push(cur@));
    }
    words
}

/// A corner radius as a saved text gives it, before its numbers are
/// read: four words, one per corner, or one number text for all corners.
#[derive(Clone, Debug, PartialEq, Eq)]
pub enum RadiusText {
    Corners(Vec<String>),
    Uniform(String),
}

/// Whether `r` is how a radius text `s` reads: the four words of the
/// trimmed text when it has four, else the trimmed, lower-cased text with
/// every trailing "px" cut off, trimmed again.
pub open spec fn radius_text_matches(s: Seq<char>, r: RadiusText) -> bool {
    let w = words_of(trim_chars(s));
    if w.len() == 4 {
        r matches RadiusText::Corners(v) && string_views(v@) == w
    } else {
        r matches RadiusText::Uniform(t) && t@ == trim_chars(strip_px(option_key(s)))
    }
}

/// Reads a saved radius text as `radius_text_matches` says.
pub fn radius_text(s: &str) -> (r: RadiusText)
    ensures
        radius_text_matches(s@, r),
{
    let clean = str_trim(s);
    let tokens = split_words(clean);
    if tokens.len() == 4 {
        RadiusText::Corners(tokens)
    } else {
        let lowered = normalize_key(s);
        RadiusText::Uniform(uniform_radius_of_key(lowered.as_str()))
    }
}

/// The number text of a uniform radius from its trimmed, lower-cased text:
/// every trailing "px" cut off, trimmed again.
pub fn uniform_radius_of_key(clean_text: &str) -> (r: String)
    ensures
        r@ == trim_chars(strip_px(clean_text@)),
{
    let stripped = strip_px_chars(&chars_of(clean_text));
    let st = string_from_chars(&stripped);
    owned(str_trim(st.as_str()))
}

/// The bytes of ASCII characters, one each.
pub open spec fn ascii_bytes(s: Seq<char>) -> Seq<u8> {
    s.map_values(|c: char| (c as u32) as u8)
}

/// UTF-8 encodes ASCII characters as one byte each.
proof fn lemma_encode_ascii(s: Seq<char>)
    requires
        forall|i: int| 0 <= i < s.len() ==> (s[i] as u32) < 0x80,
    ensures
        vstd::utf8::encode_utf8(s) == ascii_bytes(s),
    decreases s.len(),
{
    if s.len() > 0 {
        lemma_encode_ascii(s.drop_first());
        let x = s[0] as u32;
        assert(x < 0x80);
        assert(x & 0x7F == x) by (bit_vector)
            requires
                x < 0x80,
        ;
        assert(ascii_bytes(s) =~= seq![x as u8] + ascii_bytes(s.drop_first()));
    }
}

/// A hex digit character is ASCII, no white space, and reads back.
proof fn lemma_hex_char(v: u8)
    requires
        v < 16,
    ensures
        (hex_char(v) as u32) < 0x80,
        !is_white_space(hex_char(v)),
        ((hex_char(v) as u32) as u8) != 0x23,
        hex_digit((hex_char(v) as u32) as u8) == Some(v),
{
}

/// Writing bytes as "#RRGGBB" and reading the text gives the bytes back.
pub proof fn law_hex_roundtrip(r: u8, g: u8, b: u8)
    ensures
        hex_color_of(rgb_hex_text(r, g, b)) == Some(HexColor::Rgb(r, g, b)),
{
    let t = rgb_hex_text(r, g, b);
    lemma_hex_char(r / 16);
    lemma_hex_char(r % 16);
    lemma_hex_char(g / 16);
    lemma_hex_char(g % 16);
    lemma_hex_char(b / 16);
    lemma_hex_char(b % 16);
    assert(t.len() == 7);
    assert(!is_white_space(t[0]));
    assert(!is_white_space(t.last()));
    assert(crate::text::trim_start_chars(t) == t);
    assert(crate::text::trim_end_chars(t) == t);
    assert(trim_chars(t) == t);
    reveal_strlit("transparent");
    assert(t != "transparent"@);
    assert forall|i: int| 0 <= i < t.len() implies (t[i] as u32) < 0x80 by {}
    lemma_encode_ascii(t);
    let e = ascii_bytes(t);
    assert(e[0] == 0x23);
    assert(e.drop_first()[0] != 0x23);
    assert(strip_hashes(e.drop_first()) == e.drop_first());
    assert(strip_hashes(e) == e.drop_first());
    let d = e.drop_first();
    assert(d.len() == 6);
    assert(d[0] == (hex_char(r / 16) as u32) as u8);
    assert(d[1] == (hex_char(r % 16) as u32) as u8);
    assert(d[2] == (hex_char(g / 16) as u32) as u8);
    assert(d[3] == (hex_char(g % 16) as u32) as u8);
    assert(d[4] == (hex_char(b / 16) as u32) as u8);
    assert(d[5] == (hex_char(b % 16) as u32) as u8);
    assert(hex_pair(d[0], d[1]) == Some(r));
    assert(hex_pair(d[2], d[3]) == Some(g));
    assert(hex_pair(d[4], d[5]) == Some(b));
}

} // verus!
