//! Palette data: a named 16-slot base color set, an optional extended
//! ("base 30") color set, and the errors raised when a palette lacks one of
//! them.

use vstd::prelude::*;
use vstd::string::*;

verus! {

/// Error for a malformed color value.
#[derive(Debug, Clone)]
pub enum ColorError {
    InvalidFormat(String),
}

impl ColorError {
    /// The user-facing description of the error.
    pub fn message(&self) -> (r: String)
        ensures
            (match self {
                ColorError::InvalidFormat(s) => r@ == "Invalid hex color format: "@ + s@,
            }),
    {
        match self {
            ColorError::InvalidFormat(s) => {
                let mut r = String::new();
                r.append("Invalid hex color format: ");
                r.append(s.as_str());
                assert(r@ =~= "Invalid hex color format: "@ + s@);
                r
            },
        }
    }
}

/// The 16-slot base color set: each slot holds a 6-hex-digit string without
/// a `#` prefix.
#[derive(Debug, Clone)]
pub struct Base16 {
    pub base00: String,
    pub base01: String,
    pub base02: String,
    pub base03: String,
    pub base04: String,
    pub base05: String,
    pub base06: String,
    pub base07: String,
    pub base08: String,
    pub base09: String,
    pub base0a: String,
    pub base0b: String,
    pub base0c: String,
    pub base0d: String,
    pub base0e: String,
    pub base0f: String,
}

impl Base16 {
    /// The 16 colors in slot order.
    pub fn colors(&self) -> (r: Vec<&str>)
        ensures
            r@.len() == 16,
            r@[0]@ == self.base00@,
            r@[1]@ == self.base01@,
            r@[2]@ == self.base02@,
            r@[3]@ == self.base03@,
            r@[4]@ == self.base04@,
            r@[5]@ == self.base05@,
            r@[6]@ == self.base06@,
            r@[7]@ == self.base07@,
            r@[8]@ == self.base08@,
            r@[9]@ == self.base09@,
            r@[10]@ == self.base0a@,
            r@[11]@ == self.base0b@,
            r@[12]@ == self.base0c@,
            r@[13]@ == self.base0d@,
            r@[14]@ == self.base0e@,
            r@[15]@ == self.base0f@,
    {
        let mut r: Vec<&str> = Vec::new();
        r.push(self.base00.as_str());
        r.push(self.base01.as_str());
        r.push(self.base02.as_str());
        r.push(self.base03.as_str());
        r.push(self.base04.as_str());
        r.push(self.base05.as_str());
        r.push(self.base06.as_str());
        r.push(self.base07.as_str());
        r.push(self.base08.as_str());
        r.push(self.base09.as_str());
        r.push(self.base0a.as_str());
        r.push(self.base0b.as_str());
        r.push(self.base0c.as_str());
        r.push(self.base0d.as_str());
        r.push(self.base0e.as_str());
        r.push(self.base0f.as_str());
        r
    }
}

/// The extended color set of about 27 semantic names.
#[derive(Debug, Clone)]
pub struct Base30 {
    pub white: String,
    pub darker_black: String,
    pub black: String,
    pub black2: String,
    pub one_bg: String,
    pub one_bg2: String,
    pub one_bg3: String,
    pub grey: String,
    pub grey_fg: String,
    pub grey_fg2: String,
    pub light_grey: String,
    pub red: String,
    pub baby_pink: String,
    pub pink: String,
    pub line: String,
    pub green: String,
    pub vibrant_green: String,
    pub nord_blue: String,
    pub blue: String,
    pub yellow: String,
    pub sun: String,
    pub purple: String,
    pub dark_purple: String,
    pub teal: String,
    pub orange: String,
    pub cyan: String,
    pub lightbg: String,
}

/// A palette that lacks a color set it was asked for.
#[derive(Debug, Clone, Copy, PartialEq, Eq, Structural)]
pub enum PaletteError {
    MissingBase16,
    MissingBase30,
}

impl PaletteError {
    /// The user-facing description of the error.
    pub fn message(&self) -> (r: String)
        ensures
            *self == PaletteError::MissingBase16 ==> r@ == "Palette is missing base_16 colors"@,
            *self == PaletteError::MissingBase30 ==> r@ == "Palette is missing base_30 colors"@,
    {
        match self {
            PaletteError::MissingBase16 => String::from_str("Palette is missing base_16 colors"),
            PaletteError::MissingBase30 => String::from_str("Palette is missing base_30 colors"),
        }
    }
}

/// A named color palette; either color set may be absent.
#[derive(Debug, Clone)]
pub struct Palette {
    pub name: String,
    pub base_30: Option<Base30>,
    pub base_16: Option<Base16>,
}

impl Palette {
    /// The base color set, required for rendering.
    pub fn base16(&self) -> (r: Result<&Base16, PaletteError>)
        ensures
            r is Ok <==> self.base_16 is Some,
            (match r {
                Ok(b) => self.base_16 matches Some(b16) && *b == b16,
                Err(e) => e == PaletteError::MissingBase16,
            }),
    {
        match &self.base_16 {
            Some(b) => Ok(b),
            None => Err(PaletteError::MissingBase16),
        }
    }

    /// The extended color set, optional.
    pub fn base30(&self) -> (r: Result<&Base30, PaletteError>)
        ensures
            r is Ok <==> self.base_30 is Some,
            (match r {
                Ok(b) => self.base_30 matches Some(b30) && *b == b30,
                Err(e) => e == PaletteError::MissingBase30,
            }),
    {
        match &self.base_30 {
            Some(b) => Ok(b),
            None => Err(PaletteError::MissingBase30),
        }
    }
}

} // verus!
