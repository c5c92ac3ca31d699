//! The SDK source flow: bootstrap the SDK through its getting-started
//! script, clone the SDK repository on request, and run the script from
//! the clone.

use vstd::prelude::*;
use crate::install::install_polkadot_commands;
use crate::runner::LoggedCommand;

verus! {

/// The directory the SDK repository is cloned into.
pub fn sdk_repo_path() -> (r: &'static str)
    ensures
        r@ == "./templates/polkadot-sdk"@,
{
    "./templates/polkadot-sdk"
}

/// The two commands of the bootstrap step: fetch the getting-started
/// script, and the shell its output is piped into.
pub fn install() -> (r: (LoggedCommand, LoggedCommand))
    ensures
        r.0.program_view() == "curl"@,
        r.0.args_view() == seq![
            "--proto"@,
            "=https"@,
            "--tlsv1.2"@,
            "-sSf"@,
            "https://raw.githubusercontent.com/paritytech/polkadot-sdk/refs/heads/master/scripts/getting-started.sh"@,
        ],
        r.1.program_view() == "bash"@,
        r.1.args_view() == Seq::<Seq<char>>::empty(),
{
    install_polkadot_commands()
}

/// The command that clones the SDK repository into its directory, run
/// only after the user confirmed the clone.
pub fn clone_command() -> (r: LoggedCommand)
    ensures
        r.program_view() == "git"@,
        r.args_view() == seq![
            "clone"@,
            "https://github.com/paritytech/polkadot-sdk.git"@,
            "./templates/polkadot-sdk"@,
        ],
        r.cwd_view() is None,
{
    let mut cmd = LoggedCommand::new("git");
    cmd.arg("clone");
    cmd.arg("https://github.com/paritytech/polkadot-sdk.git");
    cmd.arg(sdk_repo_path());
    proof {
        assert(cmd.args_view() =~= seq![
            "clone"@,
            "https://github.com/paritytech/polkadot-sdk.git"@,
            "./templates/polkadot-sdk"@,
        ]);
    }
    cmd
}

/// The command that runs the getting-started script from the clone.
pub fn run() -> (r: LoggedCommand)
    ensures
        r.program_view() == "bash"@,
        r.args_view() == seq!["./templates/polkadot-sdk/scripts/getting-started.sh"@],
        r.cwd_view() is None,
{
    let mut cmd = LoggedCommand::new("bash");
    cmd.arg("./templates/polkadot-sdk/scripts/getting-started.sh");
    proof {
        assert(cmd.args_view() =~= seq!["./templates/polkadot-sdk/scripts/getting-started.sh"@]);
    }
    cmd
}

} // verus!
