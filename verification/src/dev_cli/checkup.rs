//! The `checkup` convenience flow: run the wrapper's own `format` and
//! `flint` passes, then, when a version was named, check dependency
//! versions against it.

use vstd::prelude::*;
use crate::runner::LoggedCommand;

verus! {

/// The first checkup step: the wrapper's own `format` pass.
pub fn checkup_format_command() -> (r: LoggedCommand)
    ensures
        r.program_view() == "polkadot-dev"@,
        r.args_view() == seq!["format"@],
        r.cwd_view() is None,
{
    let mut cmd = LoggedCommand::new("polkadot-dev");
    cmd.arg("format");
    proof {
        assert(cmd.args_view() =~= seq!["format"@]);
    }
    cmd
}

/// The second checkup step: the wrapper's own `flint` pass.
pub fn checkup_flint_command() -> (r: LoggedCommand)
    ensures
        r.program_view() == "polkadot-dev"@,
        r.args_view() == seq!["flint"@],
        r.cwd_view() is None,
{
    let mut cmd = LoggedCommand::new("polkadot-dev");
    cmd.arg("flint");
    proof {
        assert(cmd.args_view() =~= seq!["flint"@]);
    }
    cmd
}

/// The third checkup step: check dependency versions against the named
/// SDK version.  It runs only when a version was given.
pub fn checkup_version_command(version: &str) -> (r: LoggedCommand)
    ensures
        r.program_view() == "polkadot-dev"@,
        r.args_view() == seq!["version"@, "-v"@, version@, "--check"@],
        r.cwd_view() is None,
{
    let mut cmd = LoggedCommand::new("polkadot-dev");
    cmd.arg("version");
    cmd.arg("-v");
    cmd.arg(version);
    cmd.arg("--check");
    proof {
        assert(cmd.args_view() =~= seq!["version"@, "-v"@, version@, "--check"@]);
    }
    cmd
}

/// The notice printed when the version check is skipped because no
/// version was given.
pub fn checkup_version_skipped_notice() -> (r: &'static str)
    ensures
        r@ == "Version is required to run `polkadot-dev version --check`, skipping. Format and flint checks passed."@,
{
    "Version is required to run `polkadot-dev version --check`, skipping. Format and flint checks passed."
}

} // verus!
