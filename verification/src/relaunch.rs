//! The relaunch protocol.
//!
//! The same binary serves two roles.  Started normally, it shows the dialog.
//! Started through the link that the terminal strategy planted — so with an
//! invocation path ending in the sentinel `.cmd` — it is the script runner:
//! it deletes the link, derives the paired script path by replacing the
//! trailing `cmd` with `sh`, and runs `/bin/sh <script>`.  This module holds
//! the classification and the path derivation; the caller deletes the link
//! and spawns the shell.

use vstd::prelude::*;

use crate::bytes::{lit_bytes, lit_vec, push_bytes, views_of};
use crate::terminal::{link_name, path_in_dir, script_name};

verus! {

/// The two states a process start can be in.
#[derive(Clone, Copy, PartialEq, Eq, Structural, Debug)]
pub enum LaunchMode {
    /// A fresh start: parse the arguments and show the dialog.
    NormalLaunch,
    /// This process is the planted link, run by a terminal emulator.
    ScriptRelaunch,
}

/// Whether an invocation path carries the sentinel suffix `.cmd`.
pub open spec fn is_relaunch_path(p: Seq<u8>) -> bool {
    p.len() >= 4 && p.subrange(p.len() - 4, p.len() as int) == lit_bytes(".cmd"@)
}

/// Classifies the invocation path (the first argument of the process) once
/// at process start.
pub fn classify_invocation(argv0: &Vec<u8>) -> (m: LaunchMode)
    ensures
        m == (if is_relaunch_path(argv0@) {
            LaunchMode::ScriptRelaunch
        } else {
            LaunchMode::NormalLaunch
        }),
{
    proof {
        reveal_strlit(".cmd");
        assert(lit_bytes(".cmd"@).len() == 4);
        assert(lit_bytes(".cmd"@)[0] == 46);
        assert(lit_bytes(".cmd"@)[1] == 99);
        assert(lit_bytes(".cmd"@)[2] == 109);
        assert(lit_bytes(".cmd"@)[3] == 100);
    }
    let n = argv0.len();
    if n < 4 {
        return LaunchMode::NormalLaunch;
    }
    let ends_in_sentinel = argv0[n - 4] == 46 && argv0[n - 3] == 99 && argv0[n - 2] == 109
        && argv0[n - 1] == 100;
    if ends_in_sentinel {
        proof {
            assert(argv0@.subrange(n - 4, n as int) =~= lit_bytes(".cmd"@));
        }
        LaunchMode::ScriptRelaunch
    } else {
        proof {
            if is_relaunch_path(argv0@) {
                assert(argv0@.subrange(n - 4, n as int)[0] == argv0@[n - 4]);
                assert(argv0@.subrange(n - 4, n as int)[1] == argv0@[n - 3]);
                assert(argv0@.subrange(n - 4, n as int)[2] == argv0@[n - 2]);
                assert(argv0@.subrange(n - 4, n as int)[3] == argv0@[n - 1]);
            }
        }
        LaunchMode::NormalLaunch
    }
}

/// The paired script path of a link path: the link's last three bytes
/// (`cmd`) replaced by `sh`.
pub open spec fn script_path_of_link(link: Seq<u8>) -> Seq<u8> {
    link.take(link.len() - 3) + lit_bytes("sh"@)
}

/// Derives the paired script path from the link path this process was
/// started as.
pub fn script_path_for_link(link: &Vec<u8>) -> (s: Vec<u8>)
    requires
        link@.len() >= 3,
    ensures
        s@ == script_path_of_link(link@),
{
    proof {
        reveal_strlit("sh");
        assert("sh".is_ascii());
    }
    let n = link.len();
    let mut s: Vec<u8> = Vec::new();
    let mut i: usize = 0;
    while i < n - 3
        invariant
            i <= n - 3,
            n == link@.len(),
            3 <= n,
            s@ == link@.take(i as int),
        decreases n - 3 - i,
    {
        s.push(link[i]);
        i = i + 1;
        proof {
            assert(s@ =~= link@.take(i as int));
        }
    }
    let tail = lit_vec("sh");
    push_bytes(&mut s, &tail);
    proof {
        assert(s@ =~= script_path_of_link(link@));
    }
    s
}

/// The argv with which the relaunch runs the paired script, blocking until
/// it finishes: `/bin/sh <script>`.
pub open spec fn run_script_argv_model(script_path: Seq<u8>) -> Seq<Seq<u8>> {
    seq![lit_bytes("/bin/sh"@), script_path]
}

/// The shell's argv for the script paired with `link`.
pub fn run_script_invocation(link: &Vec<u8>) -> (argv: Vec<Vec<u8>>)
    requires
        link@.len() >= 3,
    ensures
        views_of(argv@) == run_script_argv_model(script_path_of_link(link@)),
{
    proof {
        reveal_strlit("/bin/sh");
        assert("/bin/sh".is_ascii());
    }
    let script = script_path_for_link(link);
    let mut argv: Vec<Vec<u8>> = Vec::new();
    argv.push(lit_vec("/bin/sh"));
    argv.push(script);
    proof {
        assert(views_of(argv@) =~= run_script_argv_model(script_path_of_link(link@)));
    }
    argv
}

/// Relaunch filename coupling: for any directory, program and suffix, the
/// planted link path carries the sentinel, the paired script path does not,
/// and stripping the link's trailing `cmd` and appending `sh` reproduces
/// the script path byte for byte.
pub proof fn lemma_relaunch_filename_coupling(dir: Seq<u8>, program: Seq<u8>, suffix: Seq<u8>)
    ensures
        is_relaunch_path(path_in_dir(dir, link_name(program, suffix))),
        !is_relaunch_path(path_in_dir(dir, script_name(program, suffix))),
        script_path_of_link(path_in_dir(dir, link_name(program, suffix))) == path_in_dir(
            dir,
            script_name(program, suffix),
        ),
{
    reveal_strlit(".cmd");
    reveal_strlit(".sh");
    reveal_strlit(".");
    reveal_strlit("sh");
    reveal_strlit("/");
    reveal_strlit("_");
    let stem = dir + lit_bytes("/"@) + program + lit_bytes("_"@) + suffix;
    let link = path_in_dir(dir, link_name(program, suffix));
    let script = path_in_dir(dir, script_name(program, suffix));
    assert(lit_bytes(".cmd"@).len() == 4);
    assert(lit_bytes(".sh"@).len() == 3);
    assert(link =~= stem + lit_bytes(".cmd"@));
    assert(script =~= stem + lit_bytes(".sh"@));
    assert(link.subrange(link.len() - 4, link.len() as int) =~= lit_bytes(".cmd"@));
    assert(script.len() >= 4);
    assert(script.subrange(script.len() - 4, script.len() as int)[3] == 104);
    assert(lit_bytes(".cmd"@)[3] == 100);
    assert(link.take(link.len() - 3) =~= stem + lit_bytes("."@));
    assert(script_path_of_link(link) =~= script);
}

} // verus!
