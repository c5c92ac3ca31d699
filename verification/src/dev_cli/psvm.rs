//! The SDK-version-manager pass-through: every option of the wrapper's
//! `version` subcommand maps one-to-one onto a flag of `psvm`.  When
//! probing `psvm` fails to spawn, the tool is installed once through
//! `cargo` before the request is retried.

use vstd::prelude::*;
use crate::runner::LoggedCommand;
use crate::runner::lemma_contains_add;
use crate::runner::lemma_opt_flag_contains;
use crate::runner::lemma_opt_value_contains;
use crate::runner::opt_flag;
use crate::runner::opt_value;

verus! {

/// The parsed options of the `version` subcommand.
pub struct VersionOptions {
    pub list: bool,
    pub path: Option<String>,
    pub version: Option<String>,
    pub overwrite: bool,
    pub check: bool,
    pub orml: bool,
}

/// The argument list handed to `psvm`: in this order, exactly the flags
/// whose option was set, each value-carrying flag followed by its value.
pub open spec fn version_args(opts: VersionOptions) -> Seq<Seq<char>> {
    opt_flag(opts.list, "--list"@) + opt_value(opts.path, "--path"@) + opt_value(
        opts.version,
        "--version"@,
    ) + opt_flag(opts.overwrite, "--overwrite"@) + opt_flag(opts.check, "--check"@) + opt_flag(
        opts.orml,
        "--orml"@,
    )
}

/// The tokens that the version-manager adapter uses as flags.
pub open spec fn version_flag_token(x: Seq<char>) -> bool {
    x == "--list"@ || x == "--path"@ || x == "--version"@ || x == "--overwrite"@ || x == "--check"@
        || x == "--orml"@
}

/// A token occurs in the version manager's argument list exactly when
/// it is a flag whose option was set or the value of an option that was
/// given.
pub proof fn lemma_version_args_contains(opts: VersionOptions, x: Seq<char>)
    ensures
        version_args(opts).contains(x) <==> ((opts.list && x == "--list"@) || (
        opts.path matches Some(v) && (x == "--path"@ || x == v@)) || (opts.version matches Some(v)
            && (x == "--version"@ || x == v@)) || (opts.overwrite && x == "--overwrite"@) || (
        opts.check && x == "--check"@) || (opts.orml && x == "--orml"@)),
{
    let s1 = opt_flag(opts.list, "--list"@);
    let s2 = s1 + opt_value(opts.path, "--path"@);
    let s3 = s2 + opt_value(opts.version, "--version"@);
    let s4 = s3 + opt_flag(opts.overwrite, "--overwrite"@);
    let s5 = s4 + opt_flag(opts.check, "--check"@);
    lemma_opt_flag_contains(opts.list, "--list"@, x);
    lemma_opt_value_contains(opts.path, "--path"@, x);
    lemma_opt_value_contains(opts.version, "--version"@, x);
    lemma_opt_flag_contains(opts.overwrite, "--overwrite"@, x);
    lemma_opt_flag_contains(opts.check, "--check"@, x);
    lemma_opt_flag_contains(opts.orml, "--orml"@, x);
    lemma_contains_add(s1, opt_value(opts.path, "--path"@), x);
    lemma_contains_add(s2, opt_value(opts.version, "--version"@), x);
    lemma_contains_add(s3, opt_flag(opts.overwrite, "--overwrite"@), x);
    lemma_contains_add(s4, opt_flag(opts.check, "--check"@), x);
    lemma_contains_add(s5, opt_flag(opts.orml, "--orml"@), x);
}

/// Law: flag presence is bijective with argument-list membership.  For
/// every combination of options whose values are not themselves flag
/// tokens, the version manager's argument list contains a flag exactly
/// when the corresponding option was set.
pub proof fn lemma_version_flag_bijection(opts: VersionOptions)
    requires
        opts.path matches Some(v) ==> !version_flag_token(v@),
        opts.version matches Some(v) ==> !version_flag_token(v@),
    ensures
        version_args(opts).contains("--list"@) <==> opts.list,
        version_args(opts).contains("--path"@) <==> opts.path is Some,
        version_args(opts).contains("--version"@) <==> opts.version is Some,
        version_args(opts).contains("--overwrite"@) <==> opts.overwrite,
        version_args(opts).contains("--check"@) <==> opts.check,
        version_args(opts).contains("--orml"@) <==> opts.orml,
{
    reveal_strlit("--list");
    reveal_strlit("--path");
    reveal_strlit("--version");
    reveal_strlit("--overwrite");
    reveal_strlit("--check");
    reveal_strlit("--orml");
    assert("--list"@.len() == 6);
    assert("--path"@.len() == 6);
    assert("--version"@.len() == 9);
    assert("--overwrite"@.len() == 11);
    assert("--check"@.len() == 7);
    assert("--orml"@.len() == 6);
    assert("--list"@[2] == 'l' && "--path"@[2] == 'p' && "--orml"@[2] == 'o');
    lemma_version_args_contains(opts, "--list"@);
    lemma_version_args_contains(opts, "--path"@);
    lemma_version_args_contains(opts, "--version"@);
    lemma_version_args_contains(opts, "--overwrite"@);
    lemma_version_args_contains(opts, "--check"@);
    lemma_version_args_contains(opts, "--orml"@);
}

/// Build the `psvm` invocation for the given options.
pub fn handle_version_command(opts: &VersionOptions) -> (r: LoggedCommand)
    ensures
        r.program_view() == "psvm"@,
        r.args_view() == version_args(*opts),
        r.cwd_view() is None,
{
    let mut cmd = LoggedCommand::new("psvm");
    cmd.arg_if("--list", opts.list);
    cmd.arg_opt("--path", &opts.path);
    cmd.arg_opt("--version", &opts.version);
    cmd.arg_if("--overwrite", opts.overwrite);
    cmd.arg_if("--check", opts.check);
    cmd.arg_if("--orml", opts.orml);
    proof {
        assert(cmd.args_view() =~= version_args(*opts));
    }
    cmd
}

/// The probe that decides whether `psvm` is installed.
pub fn psvm_probe_command() -> (r: LoggedCommand)
    ensures
        r.program_view() == "psvm"@,
        r.args_view() == seq!["--help"@],
        r.cwd_view() is None,
{
    let mut cmd = LoggedCommand::new("psvm");
    cmd.arg("--help");
    proof {
        assert(cmd.args_view() =~= seq!["--help"@]);
    }
    cmd
}

/// The one-shot installation of `psvm`, run when the probe failed.
pub fn install_psvm() -> (r: LoggedCommand)
    ensures
        r.program_view() == "cargo"@,
        r.args_view() == seq!["install"@, "psvm"@],
        r.cwd_view() is None,
{
    let mut cmd = LoggedCommand::new("cargo");
    cmd.arg("install");
    cmd.arg("psvm");
    proof {
        assert(cmd.args_view() =~= seq!["install"@, "psvm"@]);
    }
    cmd
}

} // verus!
