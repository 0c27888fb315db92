//! The per-target processing pipeline: read the template, render it,
//! resolve the output path, write the result, and optionally run a reload
//! command.  The reads, writes and process spawns are performed by the
//! unverified shell around the library; every decision between them — which
//! path, which command, which error, and what each outside outcome means
//! for the target — is made and verified here.

use vstd::prelude::*;
use vstd::string::*;

use crate::config::{Mode, Target};
use crate::engine::{add_raw_template, render_template, tera_error_message};
use crate::errors::TargetError;
use crate::strutil::{
    extension_of, path_join, replace_all, spec_extension, spec_path_join, spec_replace,
    spec_starts_with, spec_trimmed_ends_with, str_eq, str_starts_with, trimmed_ends_with,
};
use crate::sysdirs::{sys_cache_dir, sys_home_dir};

verus! {

/// The environment-provided standard directories a target's processing may
/// need.  Injected rather than read ambiently, so that path resolution is a
/// pure function of target and environment.
#[derive(Debug, Clone)]
pub struct Env {
    pub cache_dir: Option<String>,
    pub home_dir: Option<String>,
}

impl Env {
    /// The running system's directories.
    pub fn from_system() -> Env {
        Env { cache_dir: sys_cache_dir(), home_dir: sys_home_dir() }
    }
}

/// `s` with a leading home-directory shorthand expanded against home
/// directory `h`: a lone `~`, or a `~/` prefix, stands for the home
/// directory; anything else is untouched.
pub open spec fn spec_expand_tilde(s: Seq<char>, h: Seq<char>) -> Seq<char> {
    if s == "~"@ {
        h
    } else if spec_starts_with(s, "~/"@) {
        h + s.skip(1)
    } else {
        s
    }
}

/// Expands a leading `~` against the home directory, when one is known.
pub fn expand_tilde(s: &str, home: &Option<String>) -> (r: String)
    ensures
        home is None ==> r@ == s@,
        home matches Some(h) ==> r@ == spec_expand_tilde(s@, h@),
{
    proof {
        reveal_strlit("~");
        reveal_strlit("~/");
    }
    let h = match home {
        Some(h) => h,
        None => {
            return copy_str(s);
        },
    };
    if str_eq(s, "~") {
        return h.clone();
    }
    if str_starts_with(s, "~/") {
        let len = s.unicode_len();
        let mut r = String::new();
        r.append(h.as_str());
        let rest = s.substring_char(1, len);
        r.append(rest);
        assert(r@ =~= h@ + s@.skip(1));
        r
    } else {
        assert(s@ != "~"@ && !spec_starts_with(s@, "~/"@));
        copy_str(s)
    }
}

fn copy_str(s: &str) -> (r: String)
    ensures
        r@ == s@,
{
    let mut r = String::new();
    r.append(s);
    assert(r@ =~= s@);
    r
}

/// The cache file name of an `Include`-mode target: the target's name, with
/// the template's extension appended when the template has one.
pub open spec fn spec_include_filename(t: Target) -> Seq<char> {
    let ext = spec_extension(t.template@);
    if ext.len() == 0 {
        t.name@
    } else {
        t.name@ + seq!['.'] + ext
    }
}

/// The destination of an `Include`-mode target under the cache directory.
pub open spec fn spec_include_path(cache_dir: Seq<char>, t: Target) -> Seq<char> {
    spec_path_join(spec_path_join(cache_dir, "themer"@), spec_include_filename(t))
}

/// Where a target's output lands given the environment, or nothing when
/// resolution must fail: an `Include` target needs a cache directory; a
/// `Replace` target needs a non-empty `output`, tilde-expanded against the
/// home directory when one is known.
pub open spec fn spec_resolved_path(t: Target, env: Env) -> Option<Seq<char>> {
    if t.mode == Mode::Include {
        match env.cache_dir {
            Some(c) => Some(spec_include_path(c@, t)),
            None => None,
        }
    } else {
        if t.output@.len() == 0 {
            None
        } else {
            match env.home_dir {
                Some(h) => Some(spec_expand_tilde(t.output@, h@)),
                None => Some(t.output@),
            }
        }
    }
}

/// Computes the absolute destination path of a target, per its mode.
pub fn resolve_output_path(target: &Target, env: &Env) -> (r: Result<String, TargetError>)
    ensures
        (match r {
            Ok(p) => spec_resolved_path(*target, *env) == Some(p@),
            Err(e) => spec_resolved_path(*target, *env) is None && (match e {
                TargetError::CacheDirUnavailable => target.mode == Mode::Include
                    && env.cache_dir is None,
                TargetError::EmptyOutput { target: n } => target.mode == Mode::Replace
                    && target.output@.len() == 0 && n@ == target.name@,
                _ => false,
            }),
        }),
{
    match target.mode {
        Mode::Include => {
            let cache = match &env.cache_dir {
                Some(c) => c,
                None => {
                    return Err(TargetError::CacheDirUnavailable);
                },
            };
            let cache_themer = path_join(cache.as_str(), "themer");
            let extension = extension_of(target.template.as_str());
            let filename = if extension.as_str().is_empty() {
                target.name.clone()
            } else {
                proof {
                    reveal_strlit(".");
                }
                let mut f = String::new();
                f.append(target.name.as_str());
                f.append(".");
                f.append(extension.as_str());
                assert(f@ =~= spec_include_filename(*target));
                f
            };
            Ok(path_join(cache_themer.as_str(), filename.as_str()))
        },
        Mode::Replace => {
            if target.output.as_str().is_empty() {
                return Err(TargetError::EmptyOutput { target: target.name.clone() });
            }
            Ok(expand_tilde(target.output.as_str(), &env.home_dir))
        },
    }
}

/// The reload command with every `{theme}` placeholder substituted.
pub open spec fn spec_substituted(cmd: Seq<char>, theme: Seq<char>) -> Seq<char> {
    spec_replace(cmd, "{theme}"@, theme)
}

/// How a target's reload command is to be run.
#[derive(Debug, Clone, PartialEq, Eq)]
pub enum ReloadPlan {
    /// The substituted command is empty: nothing to run.
    NoOp,
    /// Run through a shell and wait for it to exit.
    Foreground { command: String },
    /// Spawn through a shell, detached, without waiting.
    Background { command: String },
}

/// Prepares a reload command: substitutes the `{theme}` placeholder with
/// the theme name, then chooses background execution when the trimmed
/// command ends in `&`, foreground otherwise; an empty result runs nothing.
pub fn prepare_reload(reload_cmd: &str, theme: &str) -> (r: ReloadPlan)
    ensures
        ({
            let c = spec_substituted(reload_cmd@, theme@);
            if c.len() == 0 {
                r == ReloadPlan::NoOp
            } else if spec_trimmed_ends_with(c, '&') {
                r matches ReloadPlan::Background { command } && command@ == c
            } else {
                r matches ReloadPlan::Foreground { command } && command@ == c
            }
        }),
{
    proof {
        reveal_strlit("{theme}");
    }
    let command = replace_all(reload_cmd, "{theme}", theme);
    if command.as_str().is_empty() {
        ReloadPlan::NoOp
    } else if trimmed_ends_with(command.as_str(), '&') {
        ReloadPlan::Background { command }
    } else {
        ReloadPlan::Foreground { command }
    }
}

/// What reading the template file produced, as the I/O shell reports it.
#[derive(Debug, Clone)]
pub enum ReadOutcome {
    /// The file does not exist.
    NotFound,
    /// The file exists but could not be read.
    ReadError,
    /// The file's text.
    Content(String),
}

/// What writing the rendered output produced.
#[derive(Debug, Clone)]
pub enum WriteOutcome {
    Written,
    /// The destination's parent directory could not be created.
    DirCreateFailed { parent: String },
    WriteFailed,
}

/// What running a reload command produced.
#[derive(Debug, Clone)]
pub enum ReloadEvent {
    /// A background command was spawned.
    Spawned,
    /// A background command could not be spawned.
    SpawnFailed,
    /// A foreground command ran and exited successfully.
    Completed,
    /// A foreground command ran and exited non-zero; its captured standard
    /// error.
    NonZeroExit { stderr: String },
    /// A foreground command's shell could not be launched at all.
    LaunchFailed { detail: String },
}

/// The write the shell must perform for a target.
#[derive(Debug, Clone)]
pub struct WriteRequest {
    pub path: String,
    pub content: String,
}

/// Processes targets against a templates directory.
pub struct TargetProcessor {
    pub templates_dir: String,
}

impl TargetProcessor {
    /// The templates live under `templates` in the configuration directory.
    pub fn new(config_dir: &str) -> (r: Self)
        ensures
            r.templates_dir@ == spec_path_join(config_dir@, "templates"@),
    {
        TargetProcessor { templates_dir: path_join(config_dir, "templates") }
    }

    /// The path of a target's template file: the first step of the
    /// pipeline is reading it.
    pub fn template_path(&self, target: &Target) -> (r: String)
        ensures
            r@ == spec_path_join(self.templates_dir@, target.template@),
    {
        path_join(self.templates_dir.as_str(), target.template.as_str())
    }

    /// Steps two and three of a target's pipeline, once the template file
    /// was read: render it against the shared variable context, then
    /// resolve the output path.  A missing or unreadable template, a
    /// rendering failure, or an unresolvable output aborts this target
    /// only; otherwise the shell is handed the write to perform.
    pub fn render_and_resolve(
        &self,
        engine: &mut tera::Tera,
        context: &tera::Context,
        target: &Target,
        env: &Env,
        read: &ReadOutcome,
    ) -> (r: Result<WriteRequest, TargetError>)
        ensures
            read is NotFound ==> (r matches Err(e) && e matches TargetError::TemplateMissing {
                template,
            } && template@ == target.template@),
            read is ReadError ==> (r matches Err(e) && e matches TargetError::TemplateRead { path }
                && path@ == spec_path_join(self.templates_dir@, target.template@)),
            read is Content ==> (match r {
                Ok(w) => spec_resolved_path(*target, *env) == Some(w.path@),
                Err(e) => match e {
                    TargetError::Render { target: n, .. } => n@ == target.name@,
                    TargetError::CacheDirUnavailable => target.mode == Mode::Include
                        && env.cache_dir is None,
                    TargetError::EmptyOutput { target: n } => target.mode == Mode::Replace
                        && target.output@.len() == 0 && n@ == target.name@,
                    _ => false,
                },
            }),
    {
        let content = match read {
            ReadOutcome::NotFound => {
                return Err(
                    TargetError::TemplateMissing { template: target.template.clone() },
                );
            },
            ReadOutcome::ReadError => {
                return Err(TargetError::TemplateRead { path: self.template_path(target) });
            },
            ReadOutcome::Content(text) => text,
        };
        let rendered = match render_text(
            engine,
            target.template.as_str(),
            content.as_str(),
            context,
        ) {
            Ok(s) => s,
            Err(detail) => {
                return Err(TargetError::Render { target: target.name.clone(), detail });
            },
        };
        let path = match resolve_output_path(target, env) {
            Ok(p) => p,
            Err(e) => {
                return Err(e);
            },
        };
        Ok(WriteRequest { path, content: rendered })
    }

    /// Step four of a target's pipeline, once the shell attempted the
    /// write: a failure aborts this target; after a successful write, a
    /// non-empty reload command yields the plan for running it.
    pub fn after_write(&self, target: &Target, theme: &str, path: &str, outcome: &WriteOutcome) -> (r:
        Result<Option<ReloadPlan>, TargetError>)
        ensures
            outcome matches WriteOutcome::DirCreateFailed { parent } ==> (r matches Err(e) && e
                matches TargetError::DirCreate { path: p } && p@ == parent@),
            outcome is WriteFailed ==> (r matches Err(e) && e matches TargetError::FileWrite {
                path: p,
            } && p@ == path@),
            outcome is Written ==> (r matches Ok(d) && ({
                if target.reload_cmd@.len() == 0 {
                    d is None
                } else {
                    let c = spec_substituted(target.reload_cmd@, theme@);
                    if c.len() == 0 {
                        d == Some(ReloadPlan::NoOp)
                    } else if spec_trimmed_ends_with(c, '&') {
                        d matches Some(ReloadPlan::Background { command }) && command@ == c
                    } else {
                        d matches Some(ReloadPlan::Foreground { command }) && command@ == c
                    }
                }
            })),
    {
        match outcome {
            WriteOutcome::DirCreateFailed { parent } => {
                Err(TargetError::DirCreate { path: parent.clone() })
            },
            WriteOutcome::WriteFailed => {
                let mut p = String::new();
                p.append(path);
                assert(p@ =~= path@);
                Err(TargetError::FileWrite { path: p })
            },
            WriteOutcome::Written => {
                if target.reload_cmd.as_str().is_empty() {
                    Ok(None)
                } else {
                    Ok(Some(prepare_reload(target.reload_cmd.as_str(), theme)))
                }
            },
        }
    }
}

/// Renders one template text under its name: registers it, then renders
/// it.  What comes back is the renderer's to decide; a failure is reported
/// with the renderer's message.
fn render_text(engine: &mut tera::Tera, name: &str, content: &str, context: &tera::Context) -> Result<
    String,
    String,
> {
    match add_raw_template(engine, name, content) {
        Ok(_) => {},
        Err(e) => {
            return Err(tera_error_message(&e));
        },
    }
    match render_template(engine, name, context) {
        Ok(s) => Ok(s),
        Err(e) => Err(tera_error_message(&e)),
    }
}

/// How a finished reload attempt is reported: the target's result, an
/// optional warning, and an optional swallowed-error note.
pub struct ReloadResolution {
    pub result: Result<(), TargetError>,
    pub warning: Option<String>,
    pub error_note: Option<String>,
}

/// The final step of a target's pipeline: what the reload attempt means
/// for the target.  A background command that could not be spawned fails
/// the target; a foreground command never does — a non-zero exit is
/// reported as a warning, and a failure to even launch the shell is
/// reported but swallowed, by design.
pub fn after_reload(plan: &ReloadPlan, event: &ReloadEvent) -> (r: ReloadResolution)
    requires
        plan is Background ==> (event is Spawned || event is SpawnFailed),
        plan is Foreground ==> (event is Completed || event is NonZeroExit || event is LaunchFailed),
        !(plan is NoOp),
    ensures
        plan matches ReloadPlan::Background { command } ==> (match event {
            ReloadEvent::Spawned => r.result is Ok && r.warning is None && r.error_note is None,
            ReloadEvent::SpawnFailed => r.result matches Err(e) && e
                matches TargetError::ReloadSpawn { command: c } && c@ == command@,
            _ => true,
        }),
        plan is Foreground ==> r.result is Ok,
        plan is Foreground ==> (match event {
            ReloadEvent::Completed => r.warning is None && r.error_note is None,
            ReloadEvent::NonZeroExit { stderr } => r.warning matches Some(w) && w@
                == "Warning executing command: "@ + stderr@ && r.error_note is None,
            ReloadEvent::LaunchFailed { detail } => r.error_note matches Some(m) && m@
                == "Could not execute command: "@ + detail@ && r.warning is None,
            _ => true,
        }),
{
    match plan {
        ReloadPlan::Background { command } => {
            match event {
                ReloadEvent::SpawnFailed => ReloadResolution {
                    result: Err(TargetError::ReloadSpawn { command: command.clone() }),
                    warning: None,
                    error_note: None,
                },
                _ => ReloadResolution { result: Ok(()), warning: None, error_note: None },
            }
        },
        _ => {
            match event {
                ReloadEvent::NonZeroExit { stderr } => {
                    let mut w = String::new();
                    w.append("Warning executing command: ");
                    w.append(stderr.as_str());
                    assert(w@ =~= "Warning executing command: "@ + stderr@);
                    ReloadResolution { result: Ok(()), warning: Some(w), error_note: None }
                },
                ReloadEvent::LaunchFailed { detail } => {
                    let mut m = String::new();
                    m.append("Could not execute command: ");
                    m.append(detail.as_str());
                    assert(m@ =~= "Could not execute command: "@ + detail@);
                    ReloadResolution { result: Ok(()), warning: None, error_note: Some(m) }
                },
                _ => ReloadResolution { result: Ok(()), warning: None, error_note: None },
            }
        },
    }
}

} // verus!
