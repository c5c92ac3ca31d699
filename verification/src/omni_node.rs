//! The omni-node source flow: install the node and the chain-spec
//! builder from the SDK repository, generate a chain specification from
//! the built runtime, and run the node through its launch script.

use vstd::prelude::*;
use crate::install::chmod_command;
use crate::runner::LoggedCommand;

verus! {

/// Where the freshly built node binary is found after installation.
pub fn built_omni_node_path() -> (r: &'static str)
    ensures
        r@ == "./templates/target/release/polkadot-omni-node"@,
{
    "./templates/target/release/polkadot-omni-node"
}

/// Where the node binary is moved to.
pub fn omni_node_binary_path() -> (r: &'static str)
    ensures
        r@ == "./nodes/polkadot-omni-node"@,
{
    "./nodes/polkadot-omni-node"
}

/// The runtime blob that the SDK build leaves behind.
pub fn built_wasm_path() -> (r: &'static str)
    ensures
        r@ == "./templates/polkadot-sdk/target/release/wbuild/asset-hub-westend-runtime/asset_hub_westend_runtime.compact.compressed.wasm"@,
{
    "./templates/polkadot-sdk/target/release/wbuild/asset-hub-westend-runtime/asset_hub_westend_runtime.compact.compressed.wasm"
}

/// The launch script of the node.
pub fn omni_node_script_path() -> (r: &'static str)
    ensures
        r@ == "./script/omni-node.sh"@,
{
    "./script/omni-node.sh"
}

/// The command that installs the node binary from the SDK repository,
/// run inside the templates directory.
pub fn add() -> (r: LoggedCommand)
    ensures
        r.program_view() == "cargo"@,
        r.args_view() == seq![
            "install"@,
            "--git"@,
            "https://github.com/paritytech/polkadot-sdk"@,
            "--force"@,
            "polkadot-omni-node"@,
        ],
        r.cwd_view() == Some("./templates"@),
{
    let mut cmd = LoggedCommand::new("cargo");
    cmd.arg("install");
    cmd.arg("--git");
    cmd.arg("https://github.com/paritytech/polkadot-sdk");
    cmd.arg("--force");
    cmd.arg("polkadot-omni-node");
    cmd.current_dir("./templates");
    proof {
        assert(cmd.args_view() =~= seq![
            "install"@,
            "--git"@,
            "https://github.com/paritytech/polkadot-sdk"@,
            "--force"@,
            "polkadot-omni-node"@,
        ]);
    }
    cmd
}

/// The two commands that run the node: mark the launch script
/// executable, then run it through the shell with the caller's
/// arguments.
pub fn run(args: &[String]) -> (r: (LoggedCommand, LoggedCommand))
    ensures
        r.0.program_view() == "chmod"@,
        r.0.args_view() == seq!["+x"@, "./script/omni-node.sh"@],
        r.1.program_view() == "bash"@,
        r.1.args_view() == seq!["./script/omni-node.sh"@] + args.deep_view(),
        r.1.cwd_view() is None,
{
    let chmod = chmod_command("+x", omni_node_script_path());
    let mut script = LoggedCommand::new("bash");
    script.arg(omni_node_script_path());
    proof {
        assert(script.args_view() =~= seq!["./script/omni-node.sh"@]);
    }
    script.args_from(args);
    (chmod, script)
}

/// The command that installs the chain-spec builder from the SDK
/// repository, run inside the SDK clone.
pub fn install_chain_spec_builder() -> (r: LoggedCommand)
    ensures
        r.program_view() == "cargo"@,
        r.args_view() == seq![
            "install"@,
            "--git"@,
            "https://github.com/paritytech/polkadot-sdk"@,
            "--force"@,
            "staging-chain-spec-builder"@,
        ],
        r.cwd_view() == Some("./templates/polkadot-sdk"@),
{
    let mut cmd = LoggedCommand::new("cargo");
    cmd.arg("install");
    cmd.arg("--git");
    cmd.arg("https://github.com/paritytech/polkadot-sdk");
    cmd.arg("--force");
    cmd.arg("staging-chain-spec-builder");
    cmd.current_dir("./templates/polkadot-sdk");
    proof {
        assert(cmd.args_view() =~= seq![
            "install"@,
            "--git"@,
            "https://github.com/paritytech/polkadot-sdk"@,
            "--force"@,
            "staging-chain-spec-builder"@,
        ]);
    }
    cmd
}

/// The two commands of the chain-specification generation step: make
/// the built runtime blob readable, then generate a development chain
/// specification for the Paseo relay chain from it.
pub fn gen_chain_spec() -> (r: (LoggedCommand, LoggedCommand))
    ensures
        r.0.program_view() == "chmod"@,
        r.0.args_view() == seq![
            "+r"@,
            "./templates/polkadot-sdk/target/release/wbuild/asset-hub-westend-runtime/asset_hub_westend_runtime.compact.compressed.wasm"@,
        ],
        r.1.program_view() == "chain-spec-builder"@,
        r.1.args_view() == seq![
            "create"@,
            "-t"@,
            "development"@,
            "--relay-chain"@,
            "paseo"@,
            "--para-id"@,
            "1000"@,
            "--runtime"@,
            "./templates/polkadot-sdk/target/release/wbuild/asset-hub-westend-runtime/asset_hub_westend_runtime.compact.compressed.wasm"@,
            "named-preset"@,
            "development"@,
        ],
        r.1.cwd_view() is None,
{
    let chmod = chmod_command("+r", built_wasm_path());
    let mut cmd = LoggedCommand::new("chain-spec-builder");
    cmd.arg("create");
    cmd.arg("-t");
    cmd.arg("development");
    cmd.arg("--relay-chain");
    cmd.arg("paseo");
    cmd.arg("--para-id");
    cmd.arg("1000");
    cmd.arg("--runtime");
    cmd.arg(built_wasm_path());
    cmd.arg("named-preset");
    cmd.arg("development");
    proof {
        assert(cmd.args_view() =~= seq![
            "create"@,
            "-t"@,
            "development"@,
            "--relay-chain"@,
            "paseo"@,
            "--para-id"@,
            "1000"@,
            "--runtime"@,
            "./templates/polkadot-sdk/target/release/wbuild/asset-hub-westend-runtime/asset_hub_westend_runtime.compact.compressed.wasm"@,
            "named-preset"@,
            "development"@,
        ]);
    }
    (chmod, cmd)
}

} // verus!
