//! The configuration model: the active palette name and the ordered list of
//! targets, plus the store that locates the per-user configuration
//! directory.  Reading and writing the configuration file itself is I/O and
//! stays outside the library.

use vstd::prelude::*;
use vstd::string::*;

use crate::errors::ConfigError;
use crate::strutil::{path_join, spec_ends_with, spec_path_join, str_eq};
use crate::sysdirs::sys_config_dir;

verus! {

/// How a target's output location is chosen.
#[derive(Debug, Clone, Copy, PartialEq, Eq, PartialOrd, Ord, Structural)]
pub enum Mode {
    /// Write to a cache file managed by this tool, for the target
    /// application to include.
    Include,
    /// Overwrite the path the target names in its `output` field.
    Replace,
}

/// One destination configuration file to render, with its template, output
/// location, mode and optional reload command.
#[derive(Debug, Clone)]
pub struct Target {
    pub name: String,
    pub template: String,
    pub output: String,
    pub mode: Mode,
    pub reload_cmd: String,
}

/// The persisted configuration: the active palette and the targets in
/// processing order.
#[derive(Debug, Clone)]
pub struct Config {
    pub active_palette: String,
    pub targets: Vec<Target>,
}

/// The index of the first target whose name is `name`.
pub fn find_target_index(targets: &Vec<Target>, name: &str) -> (r: Option<usize>)
    ensures
        (match r {
            Some(i) => i < targets@.len() && targets@[i as int].name@ == name@ && (forall|j: int|
                0 <= j < i ==> targets@[j].name@ != name@),
            None => forall|j: int| 0 <= j < targets@.len() ==> targets@[j].name@ != name@,
        }),
{
    let mut i: usize = 0;
    while i < targets.len()
        invariant
            i <= targets@.len(),
            forall|j: int| 0 <= j < i ==> targets@[j].name@ != name@,
        decreases targets@.len() - i,
    {
        if str_eq(targets[i].name.as_str(), name) {
            return Some(i);
        }
        i = i + 1;
    }
    None
}

/// Locates the per-user configuration directory for this tool.
pub struct ConfigLoader {
    pub config_dir: String,
}

impl ConfigLoader {
    /// The configuration directory is the platform's per-user configuration
    /// location with `themer` appended; without such a location nothing can
    /// proceed.
    pub fn new() -> (r: Result<ConfigLoader, ConfigError>)
        ensures
            (match r {
                Ok(l) => spec_ends_with(l.config_dir@, "themer"@),
                Err(e) => e == ConfigError::NoConfigDir,
            }),
    {
        match sys_config_dir() {
            Some(base) => {
                let config_dir = path_join(base.as_str(), "themer");
                proof {
                    reveal_strlit("themer");
                    reveal_strlit("/");
                    let j = spec_path_join(base@, "themer"@);
                    assert(j.skip(j.len() - 6) =~= "themer"@);
                }
                Ok(ConfigLoader { config_dir })
            },
            None => Err(ConfigError::NoConfigDir),
        }
    }

    /// The configuration directory.
    pub fn config_dir(&self) -> (r: &str)
        ensures
            r@ == self.config_dir@,
    {
        self.config_dir.as_str()
    }

    /// The path of the configuration file inside the configuration
    /// directory.
    pub fn config_file_path(&self) -> (r: String)
        ensures
            r@ == spec_path_join(self.config_dir@, "config.toml"@),
    {
        path_join(self.config_dir.as_str(), "config.toml")
    }

    /// The directory that holds the targets' template files.
    pub fn templates_dir(&self) -> (r: String)
        ensures
            r@ == spec_path_join(self.config_dir@, "templates"@),
    {
        path_join(self.config_dir.as_str(), "templates")
    }
}

} // verus!
