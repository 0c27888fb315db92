//! Locating palette files: the palettes directory, the file name a palette
//! name maps to, and the summaries shown when listing palettes.  Reading
//! the directory and parsing the JSON are I/O and stay outside the
//! library.

use vstd::prelude::*;
use vstd::string::*;

use crate::strutil::{
    path_join, spec_after_last, spec_ends_with, spec_extension, spec_file_name, spec_path_join,
    str_ends_with, extension_of, str_eq,
};

verus! {

/// Locates palette files under the configuration directory.
pub struct PaletteLoader {
    pub palettes_dir: String,
}

impl PaletteLoader {
    /// Palettes live under `palettes` in the configuration directory.
    pub fn new(config_dir: &str) -> (r: Self)
        ensures
            r.palettes_dir@ == spec_path_join(config_dir@, "palettes"@),
    {
        PaletteLoader { palettes_dir: path_join(config_dir, "palettes") }
    }

    /// The palettes directory.
    pub fn palettes_dir(&self) -> (r: &str)
        ensures
            r@ == self.palettes_dir@,
    {
        self.palettes_dir.as_str()
    }

    /// The file name a palette name maps to: a `.json` suffix is appended
    /// unless the name already carries one.
    pub fn palette_file_name(palette_name: &str) -> (r: String)
        ensures
            spec_ends_with(palette_name@, ".json"@) ==> r@ == palette_name@,
            !spec_ends_with(palette_name@, ".json"@) ==> r@ == palette_name@ + ".json"@,
    {
        let mut r = String::new();
        r.append(palette_name);
        if !str_ends_with(palette_name, ".json") {
            r.append(".json");
        }
        assert(r@ =~= (if spec_ends_with(palette_name@, ".json"@) {
            palette_name@
        } else {
            palette_name@ + ".json"@
        }));
        r
    }

    /// The path of the named palette's file.
    pub fn palette_path(&self, palette_name: &str) -> (r: String)
        ensures
            spec_ends_with(palette_name@, ".json"@) ==> r@ == spec_path_join(
                self.palettes_dir@,
                palette_name@,
            ),
            !spec_ends_with(palette_name@, ".json"@) ==> r@ == spec_path_join(
                self.palettes_dir@,
                palette_name@ + ".json"@,
            ),
    {
        let file = Self::palette_file_name(palette_name);
        path_join(self.palettes_dir.as_str(), file.as_str())
    }
}

/// Whether a directory entry's file name is a palette file: its extension
/// is `json`.
pub fn is_json_filename(file_name: &str) -> (r: bool)
    ensures
        r == (spec_extension(file_name@) == "json"@),
{
    let ext = extension_of(file_name);
    str_eq(ext.as_str(), "json")
}

/// The stem of a file name: the name with its extension and the `.` before
/// it removed, as `Path::file_stem` has it.
pub open spec fn spec_file_stem(p: Seq<char>) -> Seq<char> {
    let f = spec_file_name(p);
    let d = spec_after_last(f, '.');
    if d <= 1 {
        f
    } else {
        f.subrange(0, d - 1)
    }
}

/// The stem of a file name.
pub fn file_stem_of(file_name: &str) -> (r: String)
    ensures
        r@ == spec_file_stem(file_name@),
{
    let len = file_name.unicode_len();
    let slash = crate::strutil::after_last_index(file_name, '/');
    let f = file_name.substring_char(slash, len);
    let dot = crate::strutil::after_last_index(f, '.');
    if dot <= 1 {
        let mut r = String::new();
        r.append(f);
        assert(r@ =~= spec_file_stem(file_name@));
        r
    } else {
        let stem = f.substring_char(0, dot - 1);
        let mut r = String::new();
        r.append(stem);
        assert(r@ =~= spec_file_stem(file_name@));
        r
    }
}

/// A palette as the listing shows it: the file's stem, and the palette's
/// name when its file parsed.
#[derive(Debug, Clone, PartialEq, Eq)]
pub struct PaletteInfo {
    pub filename: String,
    pub name: Option<String>,
}

impl PaletteInfo {
    /// The listing line for this palette: `name (filename)`, or
    /// `filename (invalid)` when the file did not parse.
    pub fn display_string(&self) -> (r: String)
        ensures
            self.name matches Some(n) ==> r@ == n@ + " ("@ + self.filename@ + ")"@,
            self.name is None ==> r@ == self.filename@ + " (invalid)"@,
    {
        match &self.name {
            Some(n) => {
                let mut r = String::new();
                r.append(n.as_str());
                r.append(" (");
                r.append(self.filename.as_str());
                r.append(")");
                assert(r@ =~= n@ + " ("@ + self.filename@ + ")"@);
                r
            },
            None => {
                let mut r = String::new();
                r.append(self.filename.as_str());
                r.append(" (invalid)");
                assert(r@ =~= self.filename@ + " (invalid)"@);
                r
            },
        }
    }
}

} // verus!
