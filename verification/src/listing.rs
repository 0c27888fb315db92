//! The output-format choice shared by the palette and target listings: a
//! known format name selects it; an unknown one falls back to the default
//! with a warning.

use vstd::prelude::*;
use vstd::string::*;

use crate::strutil::str_eq;

verus! {

/// How a listing is printed.
#[derive(Debug, Clone, Copy, PartialEq, Eq, Structural)]
pub enum OutputFormat {
    /// One bare name per line.
    Plain,
    /// A JSON document.
    Json,
    /// The decorated human-readable form.
    Default,
}

/// Chooses the listing's output format: `plain` and `json` select their
/// formats; no format, or an unknown one, selects the default, the latter
/// with a warning naming what was given.
pub fn parse_output_format(format: Option<&str>) -> (r: (OutputFormat, Option<String>))
    ensures
        format is None ==> r.0 == OutputFormat::Default && r.1 is None,
        format matches Some(f) ==> {
            if f@ == "plain"@ {
                r.0 == OutputFormat::Plain && r.1 is None
            } else if f@ == "json"@ {
                r.0 == OutputFormat::Json && r.1 is None
            } else {
                r.0 == OutputFormat::Default && (r.1 matches Some(w) && w@ == "Unknown format '"@
                    + f@ + "', using default"@)
            }
        },
{
    match format {
        None => (OutputFormat::Default, None),
        Some(f) => {
            if str_eq(f, "plain") {
                (OutputFormat::Plain, None)
            } else if str_eq(f, "json") {
                (OutputFormat::Json, None)
            } else {
                let mut w = String::new();
                w.append("Unknown format '");
                w.append(f);
                w.append("', using default");
                assert(w@ =~= "Unknown format '"@ + f@ + "', using default"@);
                (OutputFormat::Default, Some(w))
            }
        },
    }
}

} // verus!
