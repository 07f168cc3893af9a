//! The terminal's background colour: whether it is light, and reading it
//! from the terminal's answer to an OSC 11 query.
use vstd::prelude::*;

use crate::text::chars_find;
use crate::text::chars_start_with;
use crate::text::find;
use crate::text::split_chars_on;
use crate::text::split_on;
use crate::text::starts_with;
use crate::text::to_chars;
use crate::text::trim;
use crate::text::trim_chars;
use crate::text::trim_end_char;
use crate::text::trim_end_matching;
use crate::text::views;

verus! {

/// A colour is light when its luminance `0.299 r + 0.587 g + 0.114 b` is above
/// 128, computed here in thousandths so that no rounding enters.
pub open spec fn light(rgb: (u8, u8, u8)) -> bool {
    299 * rgb.0 + 587 * rgb.1 + 114 * rgb.2 > 128000
}

pub fn is_light(rgb: (u8, u8, u8)) -> (b: bool)
    ensures
        b == light(rgb),
{
    let (r, g, b) = rgb;
    299 * (r as u32) + 587 * (g as u32) + 114 * (b as u32) > 128000
}

/// Whether the theme should assume a dark background: it does unless a
/// light background was detected.
pub fn is_dark_bg(detected: Option<(u8, u8, u8)>) -> (dark: bool)
    ensures
        dark == match detected {
            Some(bg) => !light(bg),
            None => true,
        },
{
    match detected {
        Some(bg) => !is_light(bg),
        None => true,
    }
}

pub open spec fn hex_digit_value(c: char) -> int {
    if '0' <= c && c <= '9' {
        (c as int) - ('0' as int)
    } else if 'a' <= c && c <= 'f' {
        (c as int) - ('a' as int) + 10
    } else if 'A' <= c && c <= 'F' {
        (c as int) - ('A' as int) + 10
    } else {
        -1
    }
}

pub open spec fn is_hex_digit(c: char) -> bool {
    hex_digit_value(c) >= 0
}

/// The value of a run of hexadecimal digits.
pub open spec fn hex_value(s: Seq<char>) -> nat
    decreases s.len(),
{
    if s.len() == 0 {
        0
    } else {
        hex_value(s.drop_last()) * 16 + hex_digit_value(s.last()) as nat
    }
}

/// What `u32::from_str_radix(s, 16)` accepts: an optional `+`, then at least
/// one hexadecimal digit and nothing else, of value at most `u32::MAX`.
pub open spec fn parse_hex_u32(s: Seq<char>) -> Option<u32> {
    let d = strip_plus(s);
    if d.len() > 0 && all_hex(d) && hex_value(d) <= u32::MAX {
        Some(hex_value(d) as u32)
    } else {
        None
    }
}

/// `s` without one leading `+`.
pub open spec fn strip_plus(s: Seq<char>) -> Seq<char> {
    if s.len() > 0 && s[0] == '+' {
        s.drop_first()
    } else {
        s
    }
}

pub open spec fn all_hex(d: Seq<char>) -> bool {
    forall|i: int| 0 <= i < d.len() ==> is_hex_digit(#[trigger] d[i])
}

proof fn lemma_hex_value_grows(s: Seq<char>, i: int)
    requires
        0 <= i <= s.len(),
        all_hex(s),
    ensures
        hex_value(s.take(i)) <= hex_value(s),
    decreases s.len() - i,
{
    if i < s.len() {
        lemma_hex_value_grows(s, i + 1);
        assert(s.take(i + 1).drop_last() =~= s.take(i));
    } else {
        assert(s.take(i) =~= s);
    }
}

fn hex_digit(c: char) -> (v: Option<u32>)
    ensures
        match v {
            Some(x) => is_hex_digit(c) && x == hex_digit_value(c),
            None => !is_hex_digit(c),
        },
{
    if '0' <= c && c <= '9' {
        Some((c as u32) - ('0' as u32))
    } else if 'a' <= c && c <= 'f' {
        Some((c as u32) - ('a' as u32) + 10)
    } else if 'A' <= c && c <= 'F' {
        Some((c as u32) - ('A' as u32) + 10)
    } else {
        None
    }
}

/// `u32::from_str_radix(s, 16)`.
pub fn parse_hex(s: &[char]) -> (r: Option<u32>)
    ensures
        r == parse_hex_u32(s@),
{
    let start: usize = if s.len() > 0 && s[0] == '+' {
        1
    } else {
        0
    };
    let ghost d = strip_plus(s@);
    assert(d =~= s@.skip(start as int));
    if start >= s.len() {
        return None;
    }
    let mut acc: u64 = 0;
    let mut i: usize = start;
    while i < s.len()
        invariant
            start <= i <= s@.len(),
            start < s@.len(),
            d == s@.skip(start as int),
            d == strip_plus(s@),
            all_hex(d.take(i - start)),
            acc == hex_value(d.take(i - start)),
            acc <= u32::MAX,
        decreases s.len() - i,
    {
        let ghost pre = d.take(i - start + 1);
        assert(pre.drop_last() =~= d.take(i - start));
        assert(pre.last() == s@[i as int]);
        match hex_digit(s[i]) {
            None => {
                assert(!all_hex(d)) by {
                    assert(!is_hex_digit(d[i - start]));
                }
                return None;
            },
            Some(v) => {
                assert(all_hex(pre)) by {
                    assert forall|k: int| 0 <= k < pre.len() implies is_hex_digit(#[trigger] pre[k]) by {
                        if k < pre.len() - 1 {
                            assert(pre[k] == d.take(i - start)[k]);
                        }
                    }
                }
                acc = acc * 16 + v as u64;
                if acc > 0xffff_ffff {
                    proof {
                        if all_hex(d) {
                            lemma_hex_value_grows(d, i - start + 1);
                        }
                    }
                    return None;
                }
            },
        }
        i = i + 1;
    }
    assert(d.take(i - start) =~= d);
    Some(acc as u32)
}

/// The byte a colour channel of `digits` hexadecimal digits of value `raw`
/// stands for, before clamping: one digit is repeated, two are a byte, four
/// are 16 bits and six are 24 bits; any other width is read as 16 bits after
/// repeating a short channel to four digits (`None` when that text is no
/// number).
pub open spec fn channel_byte(hex: Seq<char>, raw: u32) -> Option<nat> {
    let digits = hex.len();
    if digits == 1 {
        Some((raw * 17) as nat)
    } else if digits == 2 {
        Some(raw as nat)
    } else if digits == 4 {
        Some((raw / 257) as nat)
    } else if digits == 6 {
        Some((raw * 255 / 16777215) as nat)
    } else {
        let rep = if digits < 4 {
            (hex + hex).take(4)
        } else {
            hex
        };
        match parse_hex_u32(rep) {
            Some(v) => Some((v / 257) as nat),
            None => None,
        }
    }
}

/// What a colour channel of an OSC 11 answer reads as: trimmed, without
/// trailing `m`s and an optional leading `#`, parsed as hexadecimal, scaled
/// to a byte and clamped to 255.
pub open spec fn channel_of(value: Seq<char>) -> Option<u8> {
    let v = trim_end_char(trim(value), 'm');
    let hex = if v.len() > 0 && v[0] == '#' {
        v.drop_first()
    } else {
        v
    };
    match parse_hex_u32(hex) {
        None => None,
        Some(raw) => match channel_byte(hex, raw) {
            None => None,
            Some(b) => Some(
                if b > 255 {
                    255u8
                } else {
                    b as u8
                },
            ),
        },
    }
}

pub fn parse_color_channel(value: &str) -> (c: Option<u8>)
    ensures
        c == channel_of(value@),
{
    let chars = to_chars(value);
    let trimmed = trim_chars(&chars);
    let v = trim_end_matching(&trimmed, 'm');
    let hex: Vec<char> = if v.len() > 0 && v[0] == '#' {
        crate::text::sub_chars(&v, 1, v.len())
    } else {
        v
    };
    assert(v@.len() > 0 && v@[0] == '#' ==> hex@ =~= v@.drop_first());
    let raw = match parse_hex(&hex) {
        Some(raw) => raw,
        None => {
            return None;
        },
    };
    let digits = hex.len();
    let byte: u32 = if digits == 1 {
        proof {
            lemma_one_hex_digit(hex@);
        }
        raw * 17
    } else if digits == 2 {
        raw
    } else if digits == 4 {
        raw / 257
    } else if digits == 6 {
        assert(raw <= 16777215) by {
            assert(hex@.len() == 6);
            lemma_six_hex_digits(hex@);
        }
        assert(raw * 255 <= 16777215 * 255) by (nonlinear_arith)
            requires
                raw <= 16777215,
        ;
        raw * 255 / 16777215
    } else {
        let rep: Vec<char> = if digits < 4 {
            let doubled = crate::text::chars_concat(&hex, &hex);
            crate::text::sub_chars(&doubled, 0, 4)
        } else {
            hex
        };
        match parse_hex(&rep) {
            Some(v) => v / 257,
            None => {
                return None;
            },
        }
    };
    if byte > 255 {
        Some(255u8)
    } else {
        Some(byte as u8)
    }
}

proof fn lemma_one_hex_digit(hex: Seq<char>)
    requires
        hex.len() == 1,
        parse_hex_u32(hex) is Some,
    ensures
        parse_hex_u32(hex)->0 <= 15,
{
    if hex[0] != '+' {
        assert(strip_plus(hex) == hex);
        assert(hex.drop_last() =~= Seq::<char>::empty());
        assert(hex_value(hex.drop_last()) == 0);
        assert(is_hex_digit(hex[0]));
        assert(hex.last() == hex[0]);
        assert(hex_value(hex) == hex_digit_value(hex[0]));
    } else {
        assert(strip_plus(hex).len() == 0);
    }
}

proof fn lemma_hex_value_bound(s: Seq<char>)
    requires
        all_hex(s),
    ensures
        hex_value(s) < vstd::arithmetic::power::pow(16, s.len()),
    decreases s.len(),
{
    if s.len() > 0 {
        let p = s.drop_last();
        assert(all_hex(p)) by {
            assert forall|k: int| 0 <= k < p.len() implies is_hex_digit(#[trigger] p[k]) by {
                assert(p[k] == s[k]);
            }
        }
        lemma_hex_value_bound(p);
        assert(is_hex_digit(s[s.len() - 1]));
        vstd::arithmetic::power::lemma_pow_adds(16, p.len(), 1);
        vstd::arithmetic::power::lemma_pow1(16);
        let a = hex_value(p) as int;
        let b = vstd::arithmetic::power::pow(16, p.len());
        assert(a * 16 + 15 < b * 16) by (nonlinear_arith)
            requires
                a < b,
        ;
    } else {
        vstd::arithmetic::power::lemma_pow0(16);
    }
}

proof fn lemma_six_hex_digits(hex: Seq<char>)
    requires
        hex.len() == 6,
        parse_hex_u32(hex) is Some,
    ensures
        parse_hex_u32(hex)->0 <= 16777215,
{
    let d = strip_plus(hex);
    lemma_hex_value_bound(d);
    vstd::arithmetic::power::lemma_pow_increases(16, d.len(), 6);
    assert(vstd::arithmetic::power::pow(16, 6) == 16777216) by {
        reveal_with_fuel(vstd::arithmetic::power::pow, 7);
    }
}

/// The (red, green, blue) an OSC 11 answer `text` reports: after the first
/// `ESC ] 11 ;`, up to the first `ESC \` (or else the first `ESC`), a body
/// `rgb:` followed by at least three `/`-separated channels.
pub open spec fn osc11_of(text: Seq<char>) -> Option<(u8, u8, u8)> {
    match find(text, seq!['\x1b', ']', '1', '1', ';']) {
        None => None,
        Some(start) => {
            let rest = text.skip(start + 5);
            let end = match find(rest, seq!['\x1b', '\\']) {
                Some(e) => Some(e),
                None => find(rest, seq!['\x1b']),
            };
            match end {
                None => None,
                Some(e) => {
                    let body = rest.take(e);
                    if !starts_with(body, seq!['r', 'g', 'b', ':']) {
                        None
                    } else {
                        let parts = split_on(body.skip(4), '/');
                        if parts.len() < 3 {
                            None
                        } else {
                            match (channel_of(parts[0]), channel_of(parts[1]), channel_of(parts[2])) {
                                (Some(r), Some(g), Some(b)) => Some((r, g, b)),
                                _ => None,
                            }
                        }
                    }
                },
            }
        },
    }
}

/// Reads the background colour from the text of a terminal's OSC 11 answer.
pub fn parse_osc11_text(text: &str) -> (rgb: Option<(u8, u8, u8)>)
    ensures
        rgb == osc11_of(text@),
{
    let t = to_chars(text);
    let intro = vec!['\x1b', ']', '1', '1', ';'];
    assert(intro@ =~= seq!['\x1b', ']', '1', '1', ';']);
    let start = match chars_find(&t, &intro) {
        Some(i) => i,
        None => {
            return None;
        },
    };
    proof {
        lemma_find_occurs(t@, intro@, 0, start as int);
        assert(intro@.len() == 5);
        assert(start + 5 <= t@.len());
    }
    let tlen = t.len();
    assert(tlen == t@.len());
    let rest = crate::text::sub_chars(&t, start + 5, tlen);
    assert(rest@ =~= t@.skip(start + 5));
    let st = vec!['\x1b', '\\'];
    assert(st@ =~= seq!['\x1b', '\\']);
    let esc = vec!['\x1b'];
    assert(esc@ =~= seq!['\x1b']);
    let end = match chars_find(&rest, &st) {
        Some(e) => e,
        None => match chars_find(&rest, &esc) {
            Some(e) => e,
            None => {
                return None;
            },
        },
    };
    proof {
        if find(rest@, st@) is Some {
            lemma_find_occurs(rest@, st@, 0, end as int);
        } else {
            lemma_find_occurs(rest@, esc@, 0, end as int);
        }
    }
    let body = crate::text::sub_chars(&rest, 0, end);
    assert(body@ =~= rest@.take(end as int));
    let rgb_prefix = vec!['r', 'g', 'b', ':'];
    assert(rgb_prefix@ =~= seq!['r', 'g', 'b', ':']);
    if !chars_start_with(&body, &rgb_prefix) {
        return None;
    }
    let channels = crate::text::sub_chars(&body, 4, body.len());
    assert(channels@ =~= body@.skip(4));
    let parts = split_chars_on(&channels, '/');
    if parts.len() < 3 {
        return None;
    }
    assert(views(parts@)[0] == parts@[0]@);
    assert(views(parts@)[1] == parts@[1]@);
    assert(views(parts@)[2] == parts@[2]@);
    let r = parse_color_channel(crate::text::from_chars(parts[0].as_slice()).as_str());
    let g = parse_color_channel(crate::text::from_chars(parts[1].as_slice()).as_str());
    let b = parse_color_channel(crate::text::from_chars(parts[2].as_slice()).as_str());
    match (r, g, b) {
        (Some(r), Some(g), Some(b)) => Some((r, g, b)),
        _ => None,
    }
}

proof fn lemma_find_occurs(s: Seq<char>, p: Seq<char>, from: int, i: int)
    requires
        crate::text::find_from(s, p, from) == Some(i),
    ensures
        crate::text::occurs_at(s, p, i),
        0 <= i,
        i + p.len() <= s.len(),
    decreases s.len() + 1 - from,
{
    if from >= 0 && from + p.len() <= s.len() && !crate::text::occurs_at(s, p, from) {
        lemma_find_occurs(s, p, from + 1, i);
    }
}

/// The text `String::from_utf8_lossy` makes of a byte sequence.
pub uninterp spec fn utf8_lossy(bytes: Seq<u8>) -> Seq<char>;

/// Decodes bytes as `String::from_utf8_lossy` does: the result is the named
/// decoding of the bytes, which for valid UTF-8 is the decoded text (std's
/// documentation); how invalid sequences are replaced is left unsaid.
#[verifier::external_body]
fn decode_utf8_lossy(bytes: &[u8]) -> (s: String)
    ensures
        s@ == utf8_lossy(bytes@),
        vstd::utf8::valid_utf8(bytes@) ==> s@ == vstd::utf8::decode_utf8(bytes@),
{
    String::from_utf8_lossy(bytes).into_owned()
}

/// Reads the background colour from the raw bytes a terminal answered to an
/// OSC 11 query.
pub fn parse_osc11(bytes: &[u8]) -> (rgb: Option<(u8, u8, u8)>)
    ensures
        rgb == osc11_of(utf8_lossy(bytes@)),
        vstd::utf8::valid_utf8(bytes@) ==> rgb == osc11_of(vstd::utf8::decode_utf8(bytes@)),
{
    let text = decode_utf8_lossy(bytes);
    parse_osc11_text(text.as_str())
}

} // verus!
