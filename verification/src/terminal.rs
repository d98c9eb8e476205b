//! The two execution strategies.
//!
//! The direct-shell strategy starts `/bin/sh -c <command>`.  The terminal
//! strategy avoids handing the command text to a terminal emulator: it plans
//! a self-deleting script file and a link back to the running executable,
//! both named `<program>_<suffix>` with one fresh random suffix, and has the
//! emulator execute the link.  This module computes those plans; the caller
//! performs the file writes and spawns the processes.

use vstd::prelude::*;

use rand::Rng;

use crate::bytes::{clone_bytes, is_alphanumeric_byte, lit_bytes, lit_vec, push_bytes, views_of};
use crate::model::Command;

verus! {

/// The program's name, the stem of every artifact name.
pub open spec fn spec_program_name() -> Seq<u8> {
    lit_bytes("options-window-gtk"@)
}

/// The program's version string.
pub open spec fn spec_version() -> Seq<u8> {
    lit_bytes("0.1.0"@)
}

/// The terminal emulator the terminal strategy starts.
pub open spec fn spec_default_terminal() -> Seq<u8> {
    lit_bytes("i3-sensible-terminal"@)
}

/// The program name as owned bytes.
pub fn program_name() -> (v: Vec<u8>)
    ensures
        v@ == spec_program_name(),
{
    proof {
        reveal_strlit("options-window-gtk");
        assert("options-window-gtk".is_ascii());
    }
    lit_vec("options-window-gtk")
}

/// The version string as owned bytes.
pub fn version() -> (v: Vec<u8>)
    ensures
        v@ == spec_version(),
{
    proof {
        reveal_strlit("0.1.0");
        assert("0.1.0".is_ascii());
    }
    lit_vec("0.1.0")
}

/// `<program>_<suffix>.sh`: the script file's name.
pub open spec fn script_name(program: Seq<u8>, suffix: Seq<u8>) -> Seq<u8> {
    program + lit_bytes("_"@) + suffix + lit_bytes(".sh"@)
}

/// `<program>_<suffix>.cmd`: the link's name, carrying the sentinel suffix.
pub open spec fn link_name(program: Seq<u8>, suffix: Seq<u8>) -> Seq<u8> {
    program + lit_bytes("_"@) + suffix + lit_bytes(".cmd"@)
}

/// `<dir>/<name>`.
pub open spec fn path_in_dir(dir: Seq<u8>, name: Seq<u8>) -> Seq<u8> {
    dir + lit_bytes("/"@) + name
}

/// The script's text: a shebang, then a line that removes the script's own
/// file, then the literal command text, each on its own line.
pub open spec fn script_content(script_path: Seq<u8>, command: Seq<u8>) -> Seq<u8> {
    lit_bytes("#!/bin/sh\nrm "@) + script_path + lit_bytes("\n"@) + command + lit_bytes("\n"@)
}

/// A well-formed random suffix: 30 ASCII alphanumeric bytes.
pub open spec fn is_valid_suffix(s: Seq<u8>) -> bool {
    s.len() == 30 && forall|i: int| 0 <= i < s.len() ==> is_alphanumeric_byte(#[trigger] s[i])
}

/// Everything one terminal execution writes to disk, derived from the
/// chosen temp directory, the command text, and one shared suffix.
pub ghost struct PlanModel {
    pub suffix: Seq<u8>,
    pub script_path: Seq<u8>,
    pub link_path: Seq<u8>,
    pub script_content: Seq<u8>,
}

/// The plan the terminal strategy owes for `suffix`: both artifact paths
/// share the suffix, and the script text removes the script's own path
/// before the command runs.
pub open spec fn plan_model(tmpdir: Seq<u8>, command: Seq<u8>, suffix: Seq<u8>) -> PlanModel {
    let script_path = path_in_dir(tmpdir, script_name(spec_program_name(), suffix));
    let link_path = path_in_dir(tmpdir, link_name(spec_program_name(), suffix));
    PlanModel { suffix, script_path, link_path, script_content: script_content(script_path, command) }
}

/// The artifacts of one terminal execution, ready to be written to disk.
pub struct TerminalPlan {
    pub suffix: Vec<u8>,
    pub script_path: Vec<u8>,
    pub link_path: Vec<u8>,
    pub script_content: Vec<u8>,
}

impl View for TerminalPlan {
    type V = PlanModel;

    open spec fn view(&self) -> PlanModel {
        PlanModel {
            suffix: self.suffix@,
            script_path: self.script_path@,
            link_path: self.link_path@,
            script_content: self.script_content@,
        }
    }
}

/// Builds the plan for one terminal execution from a given suffix.
pub fn plan_with_suffix(tmpdir: &Vec<u8>, command: &Vec<u8>, suffix: &Vec<u8>) -> (p: TerminalPlan)
    ensures
        p@ == plan_model(tmpdir@, command@, suffix@),
{
    proof {
        reveal_strlit("/");
        reveal_strlit("_");
        reveal_strlit(".sh");
        reveal_strlit(".cmd");
        reveal_strlit("#!/bin/sh\nrm ");
        reveal_strlit("\n");
        assert("/".is_ascii());
        assert("_".is_ascii());
        assert(".sh".is_ascii());
        assert(".cmd".is_ascii());
        assert("#!/bin/sh\nrm ".is_ascii());
        assert("\n".is_ascii());
    }
    let program = program_name();
    let mut base = clone_bytes(tmpdir);
    let sep = lit_vec("/");
    push_bytes(&mut base, &sep);
    push_bytes(&mut base, &program);
    let underscore = lit_vec("_");
    push_bytes(&mut base, &underscore);
    push_bytes(&mut base, suffix);

    let mut script_path = clone_bytes(&base);
    let sh_ext = lit_vec(".sh");
    push_bytes(&mut script_path, &sh_ext);
    proof {
        assert(script_path@ =~= path_in_dir(tmpdir@, script_name(spec_program_name(), suffix@)));
    }

    let mut link_path = base;
    let cmd_ext = lit_vec(".cmd");
    push_bytes(&mut link_path, &cmd_ext);
    proof {
        assert(link_path@ =~= path_in_dir(tmpdir@, link_name(spec_program_name(), suffix@)));
    }

    let mut content = lit_vec("#!/bin/sh\nrm ");
    push_bytes(&mut content, &script_path);
    let newline = lit_vec("\n");
    push_bytes(&mut content, &newline);
    push_bytes(&mut content, command);
    push_bytes(&mut content, &newline);
    proof {
        assert(content@ =~= script_content(script_path@, command@));
    }

    TerminalPlan { suffix: clone_bytes(suffix), script_path, link_path, script_content: content }
}

/// Relies on `rand::distributions::Alphanumeric`, whose `Distribution<u8>`
/// yields only ASCII letters and digits, sampled through `rand::thread_rng`;
/// `take(n)` of the infinite sample iterator yields exactly `n` bytes.
#[verifier::external_body]
fn random_alphanumeric_bytes(n: usize) -> (r: Vec<u8>)
    ensures
        r@.len() == n,
        forall|i: int| 0 <= i < r@.len() ==> is_alphanumeric_byte(#[trigger] r@[i]),
{
    rand::thread_rng().sample_iter(&rand::distributions::Alphanumeric).take(n).collect()
}

/// Plans one terminal execution with a fresh 30-byte random suffix.  Both
/// artifact paths and the script text share that one suffix.
pub fn terminal_plan(tmpdir: &Vec<u8>, command: &Vec<u8>) -> (p: TerminalPlan)
    ensures
        is_valid_suffix(p@.suffix),
        p@ == plan_model(tmpdir@, command@, p@.suffix),
{
    let suffix = random_alphanumeric_bytes(30);
    plan_with_suffix(tmpdir, command, &suffix)
}

/// The argv with which the terminal strategy starts the emulator: verbose,
/// asked to execute the link path.
pub open spec fn terminal_argv_model(link_path: Seq<u8>) -> Seq<Seq<u8>> {
    seq![spec_default_terminal(), lit_bytes("-v"@), lit_bytes("-e"@), link_path]
}

/// The terminal emulator's argv for a plan.
pub fn terminal_invocation(plan: &TerminalPlan) -> (argv: Vec<Vec<u8>>)
    ensures
        views_of(argv@) == terminal_argv_model(plan@.link_path),
{
    proof {
        reveal_strlit("i3-sensible-terminal");
        reveal_strlit("-v");
        reveal_strlit("-e");
        assert("i3-sensible-terminal".is_ascii());
        assert("-v".is_ascii());
        assert("-e".is_ascii());
    }
    let mut argv: Vec<Vec<u8>> = Vec::new();
    argv.push(lit_vec("i3-sensible-terminal"));
    argv.push(lit_vec("-v"));
    argv.push(lit_vec("-e"));
    argv.push(clone_bytes(&plan.link_path));
    proof {
        assert(views_of(argv@) =~= terminal_argv_model(plan@.link_path));
    }
    argv
}

/// The argv of the direct-shell strategy: `/bin/sh -c <command>`.
pub open spec fn shell_argv_model(command: Seq<u8>) -> Seq<Seq<u8>> {
    seq![lit_bytes("/bin/sh"@), lit_bytes("-c"@), command]
}

/// The direct shell's argv for a command.
pub fn shell_invocation(c: &Command) -> (argv: Vec<Vec<u8>>)
    ensures
        views_of(argv@) == shell_argv_model(c@.command),
{
    proof {
        reveal_strlit("/bin/sh");
        reveal_strlit("-c");
        assert("/bin/sh".is_ascii());
        assert("-c".is_ascii());
    }
    let mut argv: Vec<Vec<u8>> = Vec::new();
    argv.push(lit_vec("/bin/sh"));
    argv.push(lit_vec("-c"));
    argv.push(clone_bytes(&c.command));
    proof {
        assert(views_of(argv@) =~= shell_argv_model(c@.command));
    }
    argv
}

} // verus!
