//! The errors a target's processing pipeline can raise, and the fatal error
//! of the configuration store.  Each carries exactly the data its
//! user-facing message needs, and `message` is pinned to a spec function.

use vstd::prelude::*;
use vstd::string::*;

verus! {

/// Failure of one target's pipeline; it never aborts the targets that
/// follow.
#[derive(Debug, Clone, PartialEq, Eq)]
pub enum TargetError {
    /// The template file does not exist in the templates directory.
    TemplateMissing { template: String },
    /// The template file exists but could not be read.
    TemplateRead { path: String },
    /// The renderer rejected the template or a variable it references.
    Render { target: String, detail: String },
    /// The platform names no per-user cache directory.
    CacheDirUnavailable,
    /// A `Replace`-mode target with an empty `output` field.
    EmptyOutput { target: String },
    /// The destination's parent directory could not be created.
    DirCreate { path: String },
    /// The rendered content could not be written.
    FileWrite { path: String },
    /// A background reload command could not be spawned.
    ReloadSpawn { command: String },
}

/// The message shown for a `TargetError`.
pub open spec fn spec_target_error_msg(e: TargetError) -> Seq<char> {
    match e {
        TargetError::TemplateMissing { template } => "Template file not found: "@ + template@,
        TargetError::TemplateRead { path } => "Failed to read template: "@ + path@,
        TargetError::Render { target, detail } => "Failed to render template for "@ + target@
            + ": "@ + detail@,
        TargetError::CacheDirUnavailable => "Could not find cache directory"@,
        TargetError::EmptyOutput { target } => "Target '"@ + target@
            + "' with mode 'Replace' requires an 'output' field"@,
        TargetError::DirCreate { path } => "Failed to create directory: "@ + path@,
        TargetError::FileWrite { path } => "Failed to write file: "@ + path@,
        TargetError::ReloadSpawn { command } => "Failed to spawn background command: "@ + command@,
    }
}

impl TargetError {
    /// The user-facing description of the error.
    pub fn message(&self) -> (r: String)
        ensures
            r@ == spec_target_error_msg(*self),
    {
        match self {
            TargetError::TemplateMissing { template } => {
                let mut r = String::new();
                r.append("Template file not found: ");
                r.append(template.as_str());
                assert(r@ =~= spec_target_error_msg(*self));
                r
            },
            TargetError::TemplateRead { path } => {
                let mut r = String::new();
                r.append("Failed to read template: ");
                r.append(path.as_str());
                assert(r@ =~= spec_target_error_msg(*self));
                r
            },
            TargetError::Render { target, detail } => {
                let mut r = String::new();
                r.append("Failed to render template for ");
                r.append(target.as_str());
                r.append(": ");
                r.append(detail.as_str());
                assert(r@ =~= spec_target_error_msg(*self));
                r
            },
            TargetError::CacheDirUnavailable => {
                String::from_str("Could not find cache directory")
            },
            TargetError::EmptyOutput { target } => {
                let mut r = String::new();
                r.append("Target '");
                r.append(target.as_str());
                r.append("' with mode 'Replace' requires an 'output' field");
                assert(r@ =~= spec_target_error_msg(*self));
                r
            },
            TargetError::DirCreate { path } => {
                let mut r = String::new();
                r.append("Failed to create directory: ");
                r.append(path.as_str());
                assert(r@ =~= spec_target_error_msg(*self));
                r
            },
            TargetError::FileWrite { path } => {
                let mut r = String::new();
                r.append("Failed to write file: ");
                r.append(path.as_str());
                assert(r@ =~= spec_target_error_msg(*self));
                r
            },
            TargetError::ReloadSpawn { command } => {
                let mut r = String::new();
                r.append("Failed to spawn background command: ");
                r.append(command.as_str());
                assert(r@ =~= spec_target_error_msg(*self));
                r
            },
        }
    }
}

/// Fatal failure of the configuration store: nothing can proceed without a
/// configuration directory.
#[derive(Debug, Clone, Copy, PartialEq, Eq, Structural)]
pub enum ConfigError {
    NoConfigDir,
}

impl ConfigError {
    /// The user-facing description of the error.
    pub fn message(&self) -> (r: String)
        ensures
            r@ == "Could not find config directory"@,
    {
        String::from_str("Could not find config directory")
    }
}

} // verus!
