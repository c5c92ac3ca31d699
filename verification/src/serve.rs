//! Serving a node: run the downloaded `polkadot-omni-node` binary with
//! the caller's arguments, defaulting to the generated chain
//! specification when no arguments were given.

use vstd::prelude::*;
use crate::runner::LoggedCommand;

verus! {

/// The arguments the node is served with: the caller's own when any
/// were given, and otherwise the generated chain specification.
pub fn serve_args(args: Vec<String>) -> (r: Vec<String>)
    ensures
        args@.len() == 0 ==> r.deep_view() == seq!["--chain"@, "./chain-specs/chain_spec.json"@],
        args@.len() > 0 ==> r == args,
{
    if args.len() == 0 {
        let mut r: Vec<String> = Vec::new();
        r.push("--chain".to_owned());
        r.push("./chain-specs/chain_spec.json".to_owned());
        proof {
            assert(r.deep_view() =~= seq!["--chain"@, "./chain-specs/chain_spec.json"@]);
        }
        r
    } else {
        args
    }
}

/// The command that serves the node: the downloaded binary with the
/// given arguments, verbatim and in order.
pub fn run(args: &[String]) -> (r: LoggedCommand)
    ensures
        r.program_view() == "./binaries/polkadot-omni-node"@,
        r.args_view() == args.deep_view(),
        r.cwd_view() is None,
{
    let mut cmd = LoggedCommand::new("./binaries/polkadot-omni-node");
    cmd.args_from(args);
    proof {
        assert(Seq::<Seq<char>>::empty() + args.deep_view() =~= args.deep_view());
    }
    cmd
}

} // verus!
