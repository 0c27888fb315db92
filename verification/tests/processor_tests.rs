use themer::apply::{updated_config, ApplySession};
use themer::config::{Config, Mode, Target};
use themer::engine::create_context;
use themer::errors::TargetError;
use themer::processor::{
    after_reload, expand_tilde, prepare_reload, resolve_output_path, Env, ReadOutcome,
    ReloadEvent, ReloadPlan, TargetProcessor, WriteOutcome,
};
use themer::validate::create_dummy_palette;

fn make_target(name: &str, template: &str, output: &str, mode: Mode, reload_cmd: &str) -> Target {
    Target {
        name: name.to_string(),
        template: template.to_string(),
        output: output.to_string(),
        mode,
        reload_cmd: reload_cmd.to_string(),
    }
}

fn test_env() -> Env {
    Env { cache_dir: Some("/tmp/cache".to_string()), home_dir: Some("/home/user".to_string()) }
}

#[test]
fn test_resolve_output_path_include_mode() {
    let target = make_target("test", "test.conf", "", Mode::Include, "");
    let result = resolve_output_path(&target, &test_env());
    assert!(result.is_ok());

    let path = result.unwrap();
    assert!(path.contains("test.conf"));
    assert!(path.ends_with("themer/test.conf"));
    assert_eq!(path, "/tmp/cache/themer/test.conf");
}

#[test]
fn test_resolve_output_path_include_mode_no_extension() {
    let target = make_target("zsh", "zshtheme", "", Mode::Include, "");
    let path = resolve_output_path(&target, &test_env()).unwrap();
    assert_eq!(path, "/tmp/cache/themer/zsh");
}

#[test]
fn test_resolve_output_path_include_mode_no_cache_dir() {
    let target = make_target("test", "test.conf", "", Mode::Include, "");
    let env = Env { cache_dir: None, home_dir: None };
    let result = resolve_output_path(&target, &env);
    assert!(matches!(result, Err(TargetError::CacheDirUnavailable)));
    assert_eq!(result.unwrap_err().message(), "Could not find cache directory");
}

#[test]
fn test_resolve_output_path_replace_mode_empty_output() {
    let target = make_target("test", "test.conf", "", Mode::Replace, "");
    let result = resolve_output_path(&target, &test_env());
    assert!(result.is_err());
    assert!(result.unwrap_err().message().contains("requires an 'output' field"));
}

#[test]
fn test_resolve_output_path_replace_mode_names_target() {
    let target = make_target("kitty", "kitty.conf", "", Mode::Replace, "");
    let msg = resolve_output_path(&target, &test_env()).unwrap_err().message();
    assert_eq!(msg, "Target 'kitty' with mode 'Replace' requires an 'output' field");
}

#[test]
fn test_resolve_output_path_replace_mode_tilde() {
    let target =
        make_target("test", "test.conf", "~/.config/app/colors.conf", Mode::Replace, "");
    let path = resolve_output_path(&target, &test_env()).unwrap();
    assert_eq!(path, "/home/user/.config/app/colors.conf");
}

#[test]
fn test_resolve_output_path_replace_mode_absolute() {
    let target = make_target("test", "test.conf", "/etc/app.conf", Mode::Replace, "");
    let path = resolve_output_path(&target, &test_env()).unwrap();
    assert_eq!(path, "/etc/app.conf");
}

#[test]
fn test_expand_tilde_cases() {
    let home = Some("/home/user".to_string());
    assert_eq!(expand_tilde("~", &home), "/home/user");
    assert_eq!(expand_tilde("~/x", &home), "/home/user/x");
    assert_eq!(expand_tilde("~user/x", &home), "~user/x");
    assert_eq!(expand_tilde("plain", &home), "plain");
    assert_eq!(expand_tilde("~/x", &None), "~/x");
}

#[test]
fn test_handle_reload_command_with_theme_placeholder() {
    let plan = prepare_reload("echo {theme}", "my-theme");
    assert_eq!(plan, ReloadPlan::Foreground { command: "echo my-theme".to_string() });
}

#[test]
fn test_prepare_reload_substitutes_every_occurrence() {
    let plan = prepare_reload("notify {theme} && log {theme}", "nord");
    assert_eq!(plan, ReloadPlan::Foreground { command: "notify nord && log nord".to_string() });
}

#[test]
fn test_prepare_reload_background() {
    let plan = prepare_reload("app --reload &", "nord");
    assert_eq!(plan, ReloadPlan::Background { command: "app --reload &".to_string() });

    let plan = prepare_reload("app --reload &  ", "nord");
    assert_eq!(plan, ReloadPlan::Background { command: "app --reload &  ".to_string() });
}

#[test]
fn test_prepare_reload_empty_is_noop() {
    assert_eq!(prepare_reload("{theme}", ""), ReloadPlan::NoOp);
}

#[test]
fn test_after_reload_foreground_nonzero_exit_is_success() {
    let plan = ReloadPlan::Foreground { command: "false".to_string() };
    let resolution =
        after_reload(&plan, &ReloadEvent::NonZeroExit { stderr: "boom".to_string() });
    assert!(resolution.result.is_ok());
    assert_eq!(resolution.warning.unwrap(), "Warning executing command: boom");
}

#[test]
fn test_after_reload_foreground_launch_failure_is_swallowed() {
    let plan = ReloadPlan::Foreground { command: "x".to_string() };
    let resolution =
        after_reload(&plan, &ReloadEvent::LaunchFailed { detail: "no shell".to_string() });
    assert!(resolution.result.is_ok());
    assert_eq!(resolution.error_note.unwrap(), "Could not execute command: no shell");
}

#[test]
fn test_after_reload_background_spawn_failure_fails_target() {
    let plan = ReloadPlan::Background { command: "x &".to_string() };
    let resolution = after_reload(&plan, &ReloadEvent::SpawnFailed);
    assert!(resolution.result.is_err());
    assert!(resolution.result.unwrap_err().message().contains("Failed to spawn"));

    let resolution = after_reload(&plan, &ReloadEvent::Spawned);
    assert!(resolution.result.is_ok());
}

#[test]
fn test_render_and_resolve_template_not_found() {
    let mut engine = tera::Tera::default();
    let palette = create_dummy_palette();
    let context = create_context(&palette).unwrap();
    let processor = TargetProcessor::new("/cfg");
    let target = make_target("test", "missing.conf", "", Mode::Include, "");

    let result = processor.render_and_resolve(
        &mut engine,
        &context,
        &target,
        &test_env(),
        &ReadOutcome::NotFound,
    );
    assert!(result.is_err());
    assert!(result.unwrap_err().message().contains("not found"));
}

#[test]
fn test_render_and_resolve_read_error_names_path() {
    let mut engine = tera::Tera::default();
    let palette = create_dummy_palette();
    let context = create_context(&palette).unwrap();
    let processor = TargetProcessor::new("/cfg");
    let target = make_target("test", "locked.conf", "", Mode::Include, "");

    let result = processor.render_and_resolve(
        &mut engine,
        &context,
        &target,
        &test_env(),
        &ReadOutcome::ReadError,
    );
    assert_eq!(
        result.unwrap_err().message(),
        "Failed to read template: /cfg/templates/locked.conf"
    );
}

#[test]
fn test_render_and_resolve_invalid_template() {
    let mut engine = tera::Tera::default();
    let palette = create_dummy_palette();
    let context = create_context(&palette).unwrap();
    let processor = TargetProcessor::new("/cfg");
    let target = make_target("test", "bad.conf", "", Mode::Include, "");

    let result = processor.render_and_resolve(
        &mut engine,
        &context,
        &target,
        &test_env(),
        &ReadOutcome::Content("{{ unclosed_tag".to_string()),
    );
    assert!(result.is_err());
    let msg = result.unwrap_err().message();
    assert!(msg.contains("Failed to render template for test"), "got: {}", msg);
}

#[test]
fn test_render_and_resolve_success() {
    let mut engine = tera::Tera::default();
    let palette = create_dummy_palette();
    let context = create_context(&palette).unwrap();
    let processor = TargetProcessor::new("/cfg");
    let target = make_target("test", "test.conf", "", Mode::Include, "");

    let result = processor.render_and_resolve(
        &mut engine,
        &context,
        &target,
        &test_env(),
        &ReadOutcome::Content("color: {{ base00 }}".to_string()),
    );
    let write = result.unwrap();
    assert_eq!(write.path, "/tmp/cache/themer/test.conf");
    assert_eq!(write.content, "color: 000000");
}

#[test]
fn test_engine_is_reusable_after_render_error() {
    let mut engine = tera::Tera::default();
    let palette = create_dummy_palette();
    let context = create_context(&palette).unwrap();
    let processor = TargetProcessor::new("/cfg");

    let bad = make_target("bad", "bad.conf", "", Mode::Include, "");
    let result = processor.render_and_resolve(
        &mut engine,
        &context,
        &bad,
        &test_env(),
        &ReadOutcome::Content("{{ unclosed".to_string()),
    );
    assert!(result.is_err());

    let good = make_target("good", "good.conf", "", Mode::Include, "");
    let result = processor.render_and_resolve(
        &mut engine,
        &context,
        &good,
        &test_env(),
        &ReadOutcome::Content("{{ name }}".to_string()),
    );
    assert_eq!(result.unwrap().content, "validation-dummy");
}

#[test]
fn test_template_path_joins_templates_dir() {
    let processor = TargetProcessor::new("/cfg/themer");
    let target = make_target("t", "alacritty.tmpl", "", Mode::Include, "");
    assert_eq!(processor.template_path(&target), "/cfg/themer/templates/alacritty.tmpl");
}

#[test]
fn test_after_write_failures_and_reload_plan() {
    let processor = TargetProcessor::new("/cfg");
    let target = make_target("t", "x.conf", "", Mode::Include, "kill -USR1 app");

    let r = processor.after_write(
        &target,
        "nord",
        "/out/x.conf",
        &WriteOutcome::DirCreateFailed { parent: "/out".to_string() },
    );
    assert_eq!(r.unwrap_err().message(), "Failed to create directory: /out");

    let r = processor.after_write(&target, "nord", "/out/x.conf", &WriteOutcome::WriteFailed);
    assert_eq!(r.unwrap_err().message(), "Failed to write file: /out/x.conf");

    let r = processor.after_write(&target, "nord", "/out/x.conf", &WriteOutcome::Written);
    assert_eq!(
        r.unwrap(),
        Some(ReloadPlan::Foreground { command: "kill -USR1 app".to_string() })
    );

    let quiet = make_target("t", "x.conf", "", Mode::Include, "");
    let r = processor.after_write(&quiet, "nord", "/out/x.conf", &WriteOutcome::Written);
    assert_eq!(r.unwrap(), None);
}

#[test]
fn test_apply_session_failure_does_not_stop_later_targets() {
    let a = make_target("a", "a.conf", "", Mode::Replace, "");
    let b = make_target("b", "b.conf", "", Mode::Include, "");
    let targets = vec![a, b];
    let mut session = ApplySession::new(targets, "nord".to_string());

    let env = test_env();
    let mut engine = tera::Tera::default();
    let palette = create_dummy_palette();
    let context = create_context(&palette).unwrap();
    let processor = TargetProcessor::new("/cfg");

    let mut written = Vec::new();
    while !session.done() {
        let target = session.current().unwrap().clone();
        let outcome = processor.render_and_resolve(
            &mut engine,
            &context,
            &target,
            &env,
            &ReadOutcome::Content("v: {{ base01 }}".to_string()),
        );
        match outcome {
            Ok(write) => {
                written.push(write.path.clone());
                session.record(None);
            }
            Err(e) => session.record(Some(e)),
        }
    }

    // Target a (Replace mode, empty output) fails; target b is still
    // processed and its write request produced.
    assert_eq!(session.outcomes.len(), 2);
    assert_eq!(session.outcomes[0].name, "a");
    assert!(session.outcomes[0].error.is_some());
    assert_eq!(session.outcomes[1].name, "b");
    assert!(session.outcomes[1].error.is_none());
    assert_eq!(written, vec!["/tmp/cache/themer/b.conf".to_string()]);
    assert_eq!(session.failure_count(), 1);
}

#[test]
fn test_updated_config_always_persists_active_palette() {
    let config = Config {
        active_palette: "old".to_string(),
        targets: vec![make_target("a", "a.conf", "", Mode::Include, "")],
    };
    let updated = updated_config(config, "gruvbox");
    assert_eq!(updated.active_palette, "gruvbox");
    assert_eq!(updated.targets.len(), 1);
    assert_eq!(updated.targets[0].name, "a");
}
