//! Trusted access to the platform's standard per-user directories through
//! the `dirs` crate.  Each value depends on the running environment, so the
//! wrappers promise nothing about what comes back.

use vstd::prelude::*;

verus! {

/// Relies on dirs::config_dir: the per-user configuration directory, if the
/// platform can name one.
#[verifier::external_body]
pub(crate) fn sys_config_dir() -> Option<String> {
    dirs::config_dir().map(|p| p.to_string_lossy().into_owned())
}

/// Relies on dirs::cache_dir: the per-user cache directory, if the platform
/// can name one.
#[verifier::external_body]
pub(crate) fn sys_cache_dir() -> Option<String> {
    dirs::cache_dir().map(|p| p.to_string_lossy().into_owned())
}

/// Relies on dirs::home_dir: the invoking user's home directory, if the
/// platform can name one.
#[verifier::external_body]
pub(crate) fn sys_home_dir() -> Option<String> {
    dirs::home_dir().map(|p| p.to_string_lossy().into_owned())
}

} // verus!
