//! The color filters offered to templates: `hex_hash` prefixes a color
//! string with `#`, and `rgb` converts a 6-digit hex color to `rgb(...)` or
//! `rgba(...)` form.  The renderer adapter extracts plain values from the
//! template engine's dynamic arguments and hands them here; every decision
//! and every produced string is verified.
//!
//! Alpha values reach the adapter as floating point; the adapter reduces
//! them to the three plain facts this module needs (in range, exactly one,
//! and their printed forms).

use vstd::prelude::*;
use vstd::string::*;

use crate::strutil::{dec_of, spec_dec};

verus! {

/// Error from a color filter, with exactly the data its message shows.
#[derive(Debug, Clone, PartialEq, Eq)]
pub enum ColorFilterError {
    /// The filter input was not a string.
    Type { expected: &'static str },
    /// The hex body (after an optional `#`) is not exactly 6 characters.
    HexLength { actual: usize },
    /// A 2-character component is not valid base-16.
    HexDigit { component: &'static str, value: String },
    /// The alpha argument lies outside `[0.0, 1.0]`.
    AlphaRange { value: String },
}

/// The message shown for a `ColorFilterError`.
pub open spec fn spec_color_error_msg(e: ColorFilterError) -> Seq<char> {
    match e {
        ColorFilterError::Type { expected } => "Invalid type, expected "@ + expected@,
        ColorFilterError::HexLength { actual } => "Invalid hex code length: expected 6 characters, got "@
            + spec_dec(actual as int),
        ColorFilterError::HexDigit { component, value } => "Invalid hex value for "@ + component@
            + " component: '"@ + value@ + "'"@,
        ColorFilterError::AlphaRange { value } => "Alpha value "@ + value@
            + " must be between 0.0 and 1.0"@,
    }
}

impl ColorFilterError {
    /// The user-facing description of the error.
    pub fn message(&self) -> (r: String)
        ensures
            r@ == spec_color_error_msg(*self),
    {
        match self {
            ColorFilterError::Type { expected } => {
                let mut r = String::new();
                r.append("Invalid type, expected ");
                r.append(expected);
                assert(r@ =~= spec_color_error_msg(*self));
                r
            },
            ColorFilterError::HexLength { actual } => {
                let mut r = String::new();
                r.append("Invalid hex code length: expected 6 characters, got ");
                let n = dec_of(*actual);
                r.append(n.as_str());
                assert(r@ =~= spec_color_error_msg(*self));
                r
            },
            ColorFilterError::HexDigit { component, value } => {
                let mut r = String::new();
                r.append("Invalid hex value for ");
                r.append(component);
                r.append(" component: '");
                r.append(value.as_str());
                r.append("'");
                assert(r@ =~= spec_color_error_msg(*self));
                r
            },
            ColorFilterError::AlphaRange { value } => {
                let mut r = String::new();
                r.append("Alpha value ");
                r.append(value.as_str());
                r.append(" must be between 0.0 and 1.0");
                assert(r@ =~= spec_color_error_msg(*self));
                r
            },
        }
    }
}

/// The value of a base-16 digit character, or -1 for any other character.
pub open spec fn hex_digit_value(c: char) -> int {
    let u = c as int;
    if 48 <= u <= 57 {
        u - 48
    } else if 97 <= u <= 102 {
        u - 87
    } else if 65 <= u <= 70 {
        u - 55
    } else {
        -1
    }
}

/// Whether `c` is a base-16 digit.
pub open spec fn is_hex_digit(c: char) -> bool {
    hex_digit_value(c) >= 0
}

fn hex_val(c: char) -> (r: Option<u8>)
    ensures
        (match r {
            Some(v) => hex_digit_value(c) == v as int,
            None => !is_hex_digit(c),
        }),
{
    let u = c as u32;
    if 48 <= u && u <= 57 {
        Some((u - 48) as u8)
    } else if 97 <= u && u <= 102 {
        Some((u - 87) as u8)
    } else if 65 <= u && u <= 70 {
        Some((u - 55) as u8)
    } else {
        None
    }
}

/// The value of the 2-digit component of `s` starting at `i`.
pub open spec fn spec_hex_pair(s: Seq<char>, i: int) -> int {
    16 * hex_digit_value(s[i]) + hex_digit_value(s[i + 1])
}

/// Both characters of the component of `s` starting at `i` are base-16
/// digits.
pub open spec fn spec_hex_pair_ok(s: Seq<char>, i: int) -> bool {
    is_hex_digit(s[i]) && is_hex_digit(s[i + 1])
}

/// Parses the 2-character component of `hex_code` starting at `start`; a
/// non-digit yields the `HexDigit` error naming `component_name` and the
/// offending 2-character slice.
pub fn parse_hex_component(hex_code: &str, start: usize, component_name: &'static str) -> (r: Result<
    u8,
    ColorFilterError,
>)
    requires
        start + 2 <= hex_code@.len() <= usize::MAX,
    ensures
        (match r {
            Ok(v) => spec_hex_pair_ok(hex_code@, start as int) && v as int == spec_hex_pair(
                hex_code@,
                start as int,
            ),
            Err(ColorFilterError::HexDigit { component, value }) => !spec_hex_pair_ok(
                hex_code@,
                start as int,
            ) && component@ == component_name@ && value@ == hex_code@.subrange(
                start as int,
                start + 2,
            ),
            Err(_) => false,
        }),
{
    let c0 = hex_code.get_char(start);
    let c1 = hex_code.get_char(start + 1);
    let v0 = hex_val(c0);
    let v1 = hex_val(c1);
    match (v0, v1) {
        (Some(a), Some(b)) => Ok(16 * a + b),
        _ => {
            let slice = hex_code.substring_char(start, start + 2);
            let mut value = String::new();
            value.append(slice);
            assert(value@ =~= hex_code@.subrange(start as int, start + 2));
            Err(ColorFilterError::HexDigit { component: component_name, value })
        },
    }
}

/// The hex body of a color string: a single leading `#` is stripped.
pub open spec fn spec_strip_hash(s: Seq<char>) -> Seq<char> {
    if s.len() > 0 && s[0] == '#' {
        s.skip(1)
    } else {
        s
    }
}

/// The stripped body is exactly 6 base-16 digits.
pub open spec fn spec_hex_body_ok(code: Seq<char>) -> bool {
    code.len() == 6 && spec_hex_pair_ok(code, 0) && spec_hex_pair_ok(code, 2) && spec_hex_pair_ok(
        code,
        4,
    )
}

/// Parses a hex color string, with or without a leading `#`, into its red,
/// green and blue components.  Checked in order: length first, then the
/// red, green and blue components.
pub fn hex_to_rgb(hex_str: &str) -> (r: Result<(u8, u8, u8), ColorFilterError>)
    ensures
        (({
            let code = spec_strip_hash(hex_str@);
            match r {
                Ok((rr, gg, bb)) => spec_hex_body_ok(code) && rr as int == spec_hex_pair(code, 0)
                    && gg as int == spec_hex_pair(code, 2) && bb as int == spec_hex_pair(code, 4),
                Err(ColorFilterError::HexLength { actual }) => code.len() != 6 && actual as int
                    == code.len() as int,
                Err(ColorFilterError::HexDigit { component, value }) => code.len() == 6 && ({
                    ||| (!spec_hex_pair_ok(code, 0) && component@ == "Red"@ && value@
                        == code.subrange(0, 2))
                    ||| (spec_hex_pair_ok(code, 0) && !spec_hex_pair_ok(code, 2) && component@
                        == "Green"@ && value@ == code.subrange(2, 4))
                    ||| (spec_hex_pair_ok(code, 0) && spec_hex_pair_ok(code, 2)
                        && !spec_hex_pair_ok(code, 4) && component@ == "Blue"@ && value@
                        == code.subrange(4, 6))
                }),
                Err(_) => false,
            }
        })),
{
    let len = hex_str.unicode_len();
    let hex_code: &str = if len > 0 && hex_str.get_char(0) == '#' {
        hex_str.substring_char(1, len)
    } else {
        hex_str
    };
    assert(hex_code@ == spec_strip_hash(hex_str@));
    let code_len = hex_code.unicode_len();
    if code_len != 6 {
        return Err(ColorFilterError::HexLength { actual: code_len });
    }
    let rr = match parse_hex_component(hex_code, 0, "Red") {
        Ok(v) => v,
        Err(e) => {
            return Err(e);
        },
    };
    let gg = match parse_hex_component(hex_code, 2, "Green") {
        Ok(v) => v,
        Err(e) => {
            return Err(e);
        },
    };
    let bb = match parse_hex_component(hex_code, 4, "Blue") {
        Ok(v) => v,
        Err(e) => {
            return Err(e);
        },
    };
    Ok((rr, gg, bb))
}

/// The `rgb(R, G, B)` form with decimal components.
pub open spec fn spec_rgb_string(r: int, g: int, b: int) -> Seq<char> {
    "rgb("@ + spec_dec(r) + ", "@ + spec_dec(g) + ", "@ + spec_dec(b) + ")"@
}

/// The `rgba(R, G, B, A)` form; `alpha` is the alpha's printed form.
pub open spec fn spec_rgba_string(r: int, g: int, b: int, alpha: Seq<char>) -> Seq<char> {
    "rgba("@ + spec_dec(r) + ", "@ + spec_dec(g) + ", "@ + spec_dec(b) + ", "@ + alpha + ")"@
}

/// Formats `rgb(R, G, B)`.
pub fn format_rgb(r: u8, g: u8, b: u8) -> (out: String)
    ensures
        out@ == spec_rgb_string(r as int, g as int, b as int),
{
    let mut out = String::new();
    out.append("rgb(");
    let rs = dec_of(r as usize);
    out.append(rs.as_str());
    out.append(", ");
    let gs = dec_of(g as usize);
    out.append(gs.as_str());
    out.append(", ");
    let bs = dec_of(b as usize);
    out.append(bs.as_str());
    out.append(")");
    assert(out@ =~= spec_rgb_string(r as int, g as int, b as int));
    out
}

/// Formats `rgba(R, G, B, A)` with the alpha's printed form.
pub fn format_rgba(r: u8, g: u8, b: u8, alpha_text: &str) -> (out: String)
    ensures
        out@ == spec_rgba_string(r as int, g as int, b as int, alpha_text@),
{
    let mut out = String::new();
    out.append("rgba(");
    let rs = dec_of(r as usize);
    out.append(rs.as_str());
    out.append(", ");
    let gs = dec_of(g as usize);
    out.append(gs.as_str());
    out.append(", ");
    let bs = dec_of(b as usize);
    out.append(bs.as_str());
    out.append(", ");
    out.append(alpha_text);
    out.append(")");
    assert(out@ =~= spec_rgba_string(r as int, g as int, b as int, alpha_text@));
    out
}

/// What the adapter learned about the filter's alpha argument (1.0 when the
/// template passed none): whether it lies in `[0.0, 1.0]`, whether it is
/// exactly 1.0 up to a small numeric tolerance, its 2-decimal printed form,
/// and its plain printed form for the range error.
pub struct AlphaInfo {
    pub in_range: bool,
    pub is_one: bool,
    pub text: String,
    pub shown: String,
}

/// The `hex_hash` filter on its extracted input: a non-string input (`None`)
/// is a type error; a string comes back with a `#` prefix.
pub fn hex_hash_filter(input: Option<&str>) -> (r: Result<String, ColorFilterError>)
    ensures
        (match r {
            Ok(s) => input matches Some(v) && s@ == seq!['#'] + v@,
            Err(ColorFilterError::Type { expected }) => input is None && expected@ == "string"@,
            Err(_) => false,
        }),
{
    match input {
        Some(v) => {
            proof {
                reveal_strlit("#");
            }
            let mut s = String::new();
            s.append("#");
            s.append(v);
            assert(s@ =~= seq!['#'] + v@);
            Ok(s)
        },
        None => Err(ColorFilterError::Type { expected: "string" }),
    }
}

/// The `rgb` filter on its extracted inputs.  Checked in the filter's
/// order: the alpha range first, then the input's type, then the hex body.
/// An alpha of exactly 1.0 yields the `rgb(...)` form; any other in-range
/// alpha yields `rgba(...)` with the alpha's 2-decimal printed form.
pub fn rgb_filter(input: Option<&str>, alpha: &AlphaInfo) -> (r: Result<String, ColorFilterError>)
    ensures
        !alpha.in_range ==> (r matches Err(e) && e matches ColorFilterError::AlphaRange { value }
            && value@ == alpha.shown@),
        alpha.in_range && input is None ==> (r matches Err(e) && e matches ColorFilterError::Type {
            expected,
        } && expected@ == "string"@),
        input matches Some(s) ==> (alpha.in_range ==> {
            let code = spec_strip_hash(s@);
            match r {
                Ok(out) => spec_hex_body_ok(code) && (alpha.is_one ==> out@ == spec_rgb_string(
                    spec_hex_pair(code, 0),
                    spec_hex_pair(code, 2),
                    spec_hex_pair(code, 4),
                )) && (!alpha.is_one ==> out@ == spec_rgba_string(
                    spec_hex_pair(code, 0),
                    spec_hex_pair(code, 2),
                    spec_hex_pair(code, 4),
                    alpha.text@,
                )),
                Err(ColorFilterError::HexLength { actual }) => code.len() != 6 && actual as int
                    == code.len() as int,
                Err(ColorFilterError::HexDigit { component, value }) => code.len() == 6 && ({
                    ||| (!spec_hex_pair_ok(code, 0) && component@ == "Red"@ && value@
                        == code.subrange(0, 2))
                    ||| (spec_hex_pair_ok(code, 0) && !spec_hex_pair_ok(code, 2) && component@
                        == "Green"@ && value@ == code.subrange(2, 4))
                    ||| (spec_hex_pair_ok(code, 0) && spec_hex_pair_ok(code, 2)
                        && !spec_hex_pair_ok(code, 4) && component@ == "Blue"@ && value@
                        == code.subrange(4, 6))
                }),
                Err(_) => false,
            }
        }),
{
    if !alpha.in_range {
        return Err(ColorFilterError::AlphaRange { value: alpha.shown.clone() });
    }
    let s = match input {
        Some(s) => s,
        None => {
            return Err(ColorFilterError::Type { expected: "string" });
        },
    };
    let (rr, gg, bb) = match hex_to_rgb(s) {
        Ok(t) => t,
        Err(e) => {
            return Err(e);
        },
    };
    if alpha.is_one {
        Ok(format_rgb(rr, gg, bb))
    } else {
        Ok(format_rgba(rr, gg, bb, alpha.text.as_str()))
    }
}

} // verus!
