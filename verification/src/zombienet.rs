//! The zombienet flow: clone the zombienet repository, build it in
//! release mode, and run the built node.

use vstd::prelude::*;
use crate::runner::LoggedCommand;

verus! {

/// The directory zombienet is cloned into.
pub fn zombienet_repo_path() -> (r: &'static str)
    ensures
        r@ == "./dependencies/zombienet"@,
{
    "./dependencies/zombienet"
}

/// The two commands of the installation: clone the zombienet
/// repository, then build it in release mode inside its own directory.
pub fn add() -> (r: (LoggedCommand, LoggedCommand))
    ensures
        r.0.program_view() == "git"@,
        r.0.args_view() == seq![
            "clone"@,
            "https://github.com/paritytech/zombienet.git"@,
            "./dependencies/zombienet"@,
        ],
        r.0.cwd_view() is None,
        r.1.program_view() == "cargo"@,
        r.1.args_view() == seq!["build"@, "--release"@],
        r.1.cwd_view() == Some("./dependencies/zombienet"@),
{
    let mut clone_cmd = LoggedCommand::new("git");
    clone_cmd.arg("clone");
    clone_cmd.arg("https://github.com/paritytech/zombienet.git");
    clone_cmd.arg(zombienet_repo_path());
    let mut build_cmd = LoggedCommand::new("cargo");
    build_cmd.arg("build");
    build_cmd.arg("--release");
    build_cmd.current_dir(zombienet_repo_path());
    proof {
        assert(clone_cmd.args_view() =~= seq![
            "clone"@,
            "https://github.com/paritytech/zombienet.git"@,
            "./dependencies/zombienet"@,
        ]);
        assert(build_cmd.args_view() =~= seq!["build"@, "--release"@]);
    }
    (clone_cmd, build_cmd)
}

/// The command that runs the built zombienet node with the caller's
/// arguments, verbatim and in order.
pub fn run(args: &[String]) -> (r: LoggedCommand)
    ensures
        r.program_view() == "./dependencies/zombienet/target/release/zombienet-template-node"@,
        r.args_view() == args.deep_view(),
        r.cwd_view() is None,
{
    let mut cmd = LoggedCommand::new(
        "./dependencies/zombienet/target/release/zombienet-template-node",
    );
    cmd.args_from(args);
    proof {
        assert(Seq::<Seq<char>>::empty() + args.deep_view() =~= args.deep_view());
    }
    cmd
}

} // verus!
