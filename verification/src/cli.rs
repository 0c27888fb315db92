//! The command-line surface as plain data: the command that was asked for
//! and its arguments.  Argument parsing itself happens outside the
//! library; what is parsed converts into these types.

use vstd::prelude::*;

verus! {

/// Arguments of the palette listing.
#[derive(Debug, Clone)]
pub struct List {
    pub format: Option<String>,
}

/// Arguments of the target listing.
#[derive(Debug, Clone)]
pub struct ListTargets {
    pub format: Option<String>,
}

/// Arguments of template validation: one target's name, or all targets.
#[derive(Debug, Clone)]
pub struct Validate {
    pub target: Option<String>,
}

/// The commands this tool offers.
#[derive(Debug, Clone)]
pub enum Commands {
    List(List),
    ListTargets(ListTargets),
    Apply { palette: String },
    Validate(Validate),
}

/// A parsed invocation.
#[derive(Debug, Clone)]
pub struct Cli {
    pub command: Commands,
}

} // verus!
