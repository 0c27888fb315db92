//! Applies a named color palette to a set of configuration-file templates
//! ("targets"): each target's template is rendered against a palette-derived
//! variable context, written to a resolved output location, and optionally
//! followed by a reload command.  The decision logic — variable-context
//! construction, output-path resolution, reload-command preparation, and the
//! per-target processing steps with failure isolation — is verified here;
//! file and process I/O is driven by a thin unverified shell around this
//! library.

pub mod apply;
pub mod cli;
pub mod config;
pub mod engine;
pub mod errors;
pub mod filters;
pub mod listing;
pub mod palette;
pub mod palette_store;
pub mod processor;
pub mod strutil;
pub mod sysdirs;
pub mod validate;
