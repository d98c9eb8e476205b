use std::collections::HashSet;

use options_window::model::{Command, ExecutionStrategy, ParseError, ParseErrorType};
use options_window::relaunch::{classify_invocation, run_script_invocation, script_path_for_link, LaunchMode};
use options_window::terminal::{
    plan_with_suffix, program_name, shell_invocation, terminal_invocation, terminal_plan, version,
};

fn o(s: &str) -> Vec<u8> {
    s.as_bytes().to_vec()
}

#[test]
fn program_identity() {
    assert_eq!(program_name(), o("options-window-gtk"));
    assert_eq!(version(), o("0.1.0"));
}

#[test]
fn command_new_keeps_text_and_strategy() {
    let c = Command::new(o("ls -l"), ExecutionStrategy::DirectShell);
    assert_eq!(c.command, o("ls -l"));
    assert_eq!(c.strategy, ExecutionStrategy::DirectShell);
}

#[test]
fn parse_error_constructors() {
    let e = ParseError::missing_argument(o("gone"));
    assert_eq!(e.error_type, ParseErrorType::MissingArgument);
    assert_eq!(e.message, o("gone"));
    let e = ParseError::wrong_argument(o("bad"));
    assert_eq!(e.error_type, ParseErrorType::WrongArgument);
    assert_eq!(e.message, o("bad"));
    let e = ParseError::help_requested();
    assert_eq!(e.error_type, ParseErrorType::HelpRequested);
    assert!(e.message.is_empty());
    let e = ParseError::version_requested();
    assert_eq!(e.error_type, ParseErrorType::VersionInfoRequested);
    assert!(e.message.is_empty());
}

#[test]
fn shell_invocation_is_sh_dash_c() {
    let c = Command::new(o("pkill firefox"), ExecutionStrategy::DirectShell);
    let argv = shell_invocation(&c);
    assert_eq!(argv, vec![o("/bin/sh"), o("-c"), o("pkill firefox")]);
}

#[test]
fn plan_names_share_the_suffix() {
    let plan = plan_with_suffix(&o("/run/user/1000"), &o("htop"), &o("SUFFIXsuffix1234567890abcdABCD"));
    assert_eq!(
        plan.script_path,
        o("/run/user/1000/options-window-gtk_SUFFIXsuffix1234567890abcdABCD.sh")
    );
    assert_eq!(
        plan.link_path,
        o("/run/user/1000/options-window-gtk_SUFFIXsuffix1234567890abcdABCD.cmd")
    );
}

#[test]
fn plan_script_content_is_self_deleting() {
    let plan = plan_with_suffix(&o("/tmp"), &o("echo hi"), &o("s"));
    let expected = format!(
        "#!/bin/sh\nrm {}\necho hi\n",
        String::from_utf8(plan.script_path.clone()).unwrap()
    );
    assert_eq!(plan.script_content, expected.into_bytes());
}

#[test]
fn terminal_invocation_runs_the_link() {
    let plan = plan_with_suffix(&o("/tmp"), &o("htop"), &o("abc"));
    let argv = terminal_invocation(&plan);
    assert_eq!(
        argv,
        vec![o("i3-sensible-terminal"), o("-v"), o("-e"), o("/tmp/options-window-gtk_abc.cmd")]
    );
}

#[test]
fn fresh_plans_have_valid_distinct_suffixes() {
    let tmpdir = o("/tmp");
    let command = o("true");
    let mut seen: HashSet<Vec<u8>> = HashSet::new();
    for _ in 0..10_000 {
        let plan = terminal_plan(&tmpdir, &command);
        assert_eq!(plan.suffix.len(), 30);
        assert!(plan.suffix.iter().all(|b| b.is_ascii_alphanumeric()));
        assert!(seen.insert(plan.suffix.clone()), "random suffix repeated");
    }
}

#[test]
fn fresh_plan_is_consistent_with_its_suffix() {
    let plan = terminal_plan(&o("/tmp"), &o("htop"));
    let rebuilt = plan_with_suffix(&o("/tmp"), &o("htop"), &plan.suffix);
    assert_eq!(plan.script_path, rebuilt.script_path);
    assert_eq!(plan.link_path, rebuilt.link_path);
    assert_eq!(plan.script_content, rebuilt.script_content);
}

#[test]
fn classify_by_sentinel_suffix() {
    assert_eq!(
        classify_invocation(&o("/tmp/options-window-gtk_abc.cmd")),
        LaunchMode::ScriptRelaunch
    );
    assert_eq!(
        classify_invocation(&o("/tmp/options-window-gtk_abc.sh")),
        LaunchMode::NormalLaunch
    );
    assert_eq!(classify_invocation(&o("options-window-gtk")), LaunchMode::NormalLaunch);
    assert_eq!(classify_invocation(&o("")), LaunchMode::NormalLaunch);
    assert_eq!(classify_invocation(&o(".cmd")), LaunchMode::ScriptRelaunch);
}

#[test]
fn link_path_pairs_with_script_path() {
    let script = script_path_for_link(&o("/tmp/options-window-gtk_abc.cmd"));
    assert_eq!(script, o("/tmp/options-window-gtk_abc.sh"));
}

#[test]
fn plan_paths_round_trip_through_the_link() {
    // The coupling the relaunch depends on: deriving the script path from
    // the planted link path reproduces the planned script path byte for
    // byte.
    let plan = terminal_plan(&o("/run/user/1000"), &o("htop"));
    assert_eq!(script_path_for_link(&plan.link_path), plan.script_path);
    assert_eq!(classify_invocation(&plan.link_path), LaunchMode::ScriptRelaunch);
    assert_eq!(classify_invocation(&plan.script_path), LaunchMode::NormalLaunch);
}

#[test]
fn run_script_invocation_blocks_on_the_paired_script() {
    let argv = run_script_invocation(&o("/tmp/options-window-gtk_abc.cmd"));
    assert_eq!(argv, vec![o("/bin/sh"), o("/tmp/options-window-gtk_abc.sh")]);
}
