//! The PR-documentation pass-through: every option of the wrapper's
//! `prdoc` subcommand tree maps one-to-one onto a flag of `prdoc`.
//! When probing `prdoc` fails to spawn, the tool is installed once
//! through `cargo` before the request is retried.

use vstd::prelude::*;
use crate::runner::LoggedCommand;
use crate::runner::opt_flag;
use crate::runner::opt_value;

verus! {

/// The options common to every `prdoc` invocation.
pub struct PrdocOptions {
    pub config: Option<String>,
    pub prdoc_folders: Option<String>,
    pub version: bool,
    pub json: bool,
}

/// The options of the `generate` subcommand.
pub struct GenerateOptions {
    pub number: String,
    pub dry_run: bool,
    pub output_dir: Option<String>,
}

/// The options of the `check` subcommand.
pub struct CheckOptions {
    pub file: Option<String>,
    pub number: Option<String>,
    pub list: Option<String>,
    pub schema: Option<String>,
}

/// The options of the `scan` subcommand.
pub struct ScanOptions {
    pub all: bool,
    pub sort: bool,
}

/// The options of the `load` subcommand.
pub struct LoadOptions {
    pub file: Option<String>,
    pub number: Option<String>,
    pub list: Option<String>,
}

/// The tokens of the options common to every `prdoc` invocation.
pub open spec fn prdoc_common_args(opts: PrdocOptions) -> Seq<Seq<char>> {
    opt_value(opts.config, "--config"@) + opt_value(opts.prdoc_folders, "--prdoc-folders"@)
        + opt_flag(opts.version, "--version"@) + opt_flag(opts.json, "--json"@)
}

/// The tokens of the `generate` subcommand: the token, the required PR
/// number, then exactly the flags whose option was set.
pub open spec fn generate_args(opts: GenerateOptions) -> Seq<Seq<char>> {
    seq!["generate"@, opts.number@] + opt_flag(opts.dry_run, "--dry-run"@) + opt_value(
        opts.output_dir,
        "--output-dir"@,
    )
}

/// The tokens of the `check` subcommand.
pub open spec fn check_args(opts: CheckOptions) -> Seq<Seq<char>> {
    seq!["check"@] + opt_value(opts.file, "--file"@) + opt_value(opts.number, "--number"@)
        + opt_value(opts.list, "--list"@) + opt_value(opts.schema, "--schema"@)
}

/// The tokens of the `scan` subcommand.
pub open spec fn scan_args(opts: ScanOptions) -> Seq<Seq<char>> {
    seq!["scan"@] + opt_flag(opts.all, "--all"@) + opt_flag(opts.sort, "--sort"@)
}

/// The tokens of the `load` subcommand.
pub open spec fn load_args(opts: LoadOptions) -> Seq<Seq<char>> {
    seq!["load"@] + opt_value(opts.file, "--file"@) + opt_value(opts.number, "--number"@)
        + opt_value(opts.list, "--list"@)
}

/// The `prdoc` base command for the given common options; one
/// subcommand's tokens are appended to this.
pub fn handle_prdoc_command(opts: &PrdocOptions) -> (r: LoggedCommand)
    ensures
        r.program_view() == "prdoc"@,
        r.args_view() == prdoc_common_args(*opts),
        r.cwd_view() is None,
{
    let mut cmd = LoggedCommand::new("prdoc");
    cmd.arg_opt("--config", &opts.config);
    cmd.arg_opt("--prdoc-folders", &opts.prdoc_folders);
    cmd.arg_if("--version", opts.version);
    cmd.arg_if("--json", opts.json);
    proof {
        assert(cmd.args_view() =~= prdoc_common_args(*opts));
    }
    cmd
}

/// Append the tokens of the `generate` subcommand.
pub fn handle_generate(cmd: &mut LoggedCommand, opts: &GenerateOptions)
    ensures
        final(cmd).program_view() == old(cmd).program_view(),
        final(cmd).args_view() == old(cmd).args_view() + generate_args(*opts),
        final(cmd).cwd_view() == old(cmd).cwd_view(),
{
    cmd.arg("generate");
    cmd.arg(opts.number.as_str());
    cmd.arg_if("--dry-run", opts.dry_run);
    cmd.arg_opt("--output-dir", &opts.output_dir);
    proof {
        assert(cmd.args_view() =~= old(cmd).args_view() + generate_args(*opts));
    }
}

/// Append the tokens of the `check` subcommand.
pub fn handle_check(cmd: &mut LoggedCommand, opts: &CheckOptions)
    ensures
        final(cmd).program_view() == old(cmd).program_view(),
        final(cmd).args_view() == old(cmd).args_view() + check_args(*opts),
        final(cmd).cwd_view() == old(cmd).cwd_view(),
{
    cmd.arg("check");
    cmd.arg_opt("--file", &opts.file);
    cmd.arg_opt("--number", &opts.number);
    cmd.arg_opt("--list", &opts.list);
    cmd.arg_opt("--schema", &opts.schema);
    proof {
        assert(cmd.args_view() =~= old(cmd).args_view() + check_args(*opts));
    }
}

/// Append the tokens of the `scan` subcommand.
pub fn handle_scan(cmd: &mut LoggedCommand, opts: &ScanOptions)
    ensures
        final(cmd).program_view() == old(cmd).program_view(),
        final(cmd).args_view() == old(cmd).args_view() + scan_args(*opts),
        final(cmd).cwd_view() == old(cmd).cwd_view(),
{
    cmd.arg("scan");
    cmd.arg_if("--all", opts.all);
    cmd.arg_if("--sort", opts.sort);
    proof {
        assert(cmd.args_view() =~= old(cmd).args_view() + scan_args(*opts));
    }
}

/// Append the tokens of the `load` subcommand.
pub fn handle_load(cmd: &mut LoggedCommand, opts: &LoadOptions)
    ensures
        final(cmd).program_view() == old(cmd).program_view(),
        final(cmd).args_view() == old(cmd).args_view() + load_args(*opts),
        final(cmd).cwd_view() == old(cmd).cwd_view(),
{
    cmd.arg("load");
    cmd.arg_opt("--file", &opts.file);
    cmd.arg_opt("--number", &opts.number);
    cmd.arg_opt("--list", &opts.list);
    proof {
        assert(cmd.args_view() =~= old(cmd).args_view() + load_args(*opts));
    }
}

/// The probe that decides whether `prdoc` is installed.
pub fn prdoc_probe_command() -> (r: LoggedCommand)
    ensures
        r.program_view() == "prdoc"@,
        r.args_view() == seq!["--version"@],
        r.cwd_view() is None,
{
    let mut cmd = LoggedCommand::new("prdoc");
    cmd.arg("--version");
    proof {
        assert(cmd.args_view() =~= seq!["--version"@]);
    }
    cmd
}

/// The one-shot installation of `prdoc`, run when the probe failed.
pub fn install_prdoc() -> (r: LoggedCommand)
    ensures
        r.program_view() == "cargo"@,
        r.args_view() == seq!["install"@, "parity-prdoc"@],
        r.cwd_view() is None,
{
    let mut cmd = LoggedCommand::new("cargo");
    cmd.arg("install");
    cmd.arg("parity-prdoc");
    proof {
        assert(cmd.args_view() =~= seq!["install"@, "parity-prdoc"@]);
    }
    cmd
}

} // verus!
