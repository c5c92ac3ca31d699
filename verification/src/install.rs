//! The default installation flow: fetch the SDK bootstrap script, the
//! prebuilt `chain-spec-builder` and `polkadot-omni-node` binaries and a
//! runtime blob, and generate a chain specification from them.
//!
//! Every step is an external command; the exact commands are built here
//! and the host spawns them and probes the filesystem.

use vstd::prelude::*;
use vstd::string::StringExecFns;
use crate::runner::LoggedCommand;
use crate::text::eq_str;

verus! {

/// The bootstrap script that installs the SDK when piped into a shell.
pub fn getting_started_url() -> (r: &'static str)
    ensures
        r@ == "https://raw.githubusercontent.com/paritytech/polkadot-sdk/refs/heads/master/scripts/getting-started.sh"@,
{
    "https://raw.githubusercontent.com/paritytech/polkadot-sdk/refs/heads/master/scripts/getting-started.sh"
}

/// The directory that downloaded binaries are placed in.
pub fn binaries_directory() -> (r: &'static str)
    ensures
        r@ == "./binaries"@,
{
    "./binaries"
}

/// The directory that runtime artifacts are placed in.
pub fn nodes_directory() -> (r: &'static str)
    ensures
        r@ == "./nodes"@,
{
    "./nodes"
}

/// Where the `chain-spec-builder` binary is downloaded to.
pub fn chain_spec_builder_destination() -> (r: &'static str)
    ensures
        r@ == "./binaries/chain-spec-builder"@,
{
    "./binaries/chain-spec-builder"
}

/// Where the `polkadot-omni-node` binary is downloaded to.
pub fn omni_node_destination() -> (r: &'static str)
    ensures
        r@ == "./binaries/polkadot-omni-node"@,
{
    "./binaries/polkadot-omni-node"
}

/// Where the runtime blob is downloaded to.
pub fn wasm_destination() -> (r: &'static str)
    ensures
        r@ == "./nodes/asset_hub_westend_runtime.compact.compressed.wasm"@,
{
    "./nodes/asset_hub_westend_runtime.compact.compressed.wasm"
}

/// The download source of the `chain-spec-builder` binary for the given
/// operating-system label: a release asset on Linux, a mirror on macOS,
/// and an unsupported-system report for every other label.
pub fn chain_spec_builder_url(os_info: &str) -> (r: Result<&'static str, String>)
    ensures
        os_info@ == "linux"@ ==> (r matches Ok(u) && u@
            == "https://github.com/paritytech/polkadot-sdk/releases/download/polkadot-stable2412/chain-spec-builder"@),
        os_info@ == "macos"@ ==> (r matches Ok(u) && u@
            == "https://binary.xode.net/chain-spec-builder"@),
        os_info@ != "linux"@ && os_info@ != "macos"@ ==> (r matches Err(m) && m@
            == "Unsupported OS: "@ + os_info@),
{
    proof {
        reveal_strlit("linux");
        reveal_strlit("macos");
        assert("linux"@[0] == 'l' && "macos"@[0] == 'm');
        assert("linux"@ != "macos"@);
    }
    if eq_str(os_info, "linux") {
        Ok(
            "https://github.com/paritytech/polkadot-sdk/releases/download/polkadot-stable2412/chain-spec-builder",
        )
    } else if eq_str(os_info, "macos") {
        Ok("https://binary.xode.net/chain-spec-builder")
    } else {
        Err(unsupported_os_error(os_info))
    }
}

/// The download source of the `polkadot-omni-node` binary for the given
/// operating-system label, chosen as for `chain_spec_builder_url`.
pub fn omni_node_url(os_info: &str) -> (r: Result<&'static str, String>)
    ensures
        os_info@ == "linux"@ ==> (r matches Ok(u) && u@
            == "https://github.com/paritytech/polkadot-sdk/releases/download/polkadot-stable2412/polkadot-omni-node"@),
        os_info@ == "macos"@ ==> (r matches Ok(u) && u@
            == "https://binary.xode.net/polkadot-omni-node"@),
        os_info@ != "linux"@ && os_info@ != "macos"@ ==> (r matches Err(m) && m@
            == "Unsupported OS: "@ + os_info@),
{
    proof {
        reveal_strlit("linux");
        reveal_strlit("macos");
        assert("linux"@[0] == 'l' && "macos"@[0] == 'm');
        assert("linux"@ != "macos"@);
    }
    if eq_str(os_info, "linux") {
        Ok(
            "https://github.com/paritytech/polkadot-sdk/releases/download/polkadot-stable2412/polkadot-omni-node",
        )
    } else if eq_str(os_info, "macos") {
        Ok("https://binary.xode.net/polkadot-omni-node")
    } else {
        Err(unsupported_os_error(os_info))
    }
}

/// The report for an operating system no prebuilt binary exists for.
pub fn unsupported_os_error(os_info: &str) -> (r: String)
    ensures
        r@ == "Unsupported OS: "@ + os_info@,
{
    let mut s = String::from_str("Unsupported OS: ");
    s.append(os_info);
    s
}

/// The command that fetches a URL over enforced TLS and writes the body
/// to standard output, to be piped into a shell.
pub fn curl_fetch_command(url: &str) -> (r: LoggedCommand)
    ensures
        r.program_view() == "curl"@,
        r.args_view() == seq!["--proto"@, "=https"@, "--tlsv1.2"@, "-sSf"@, url@],
{
    let mut cmd = LoggedCommand::new("curl");
    cmd.arg("--proto");
    cmd.arg("=https");
    cmd.arg("--tlsv1.2");
    cmd.arg("-sSf");
    cmd.arg(url);
    proof {
        assert(cmd.args_view() =~= seq!["--proto"@, "=https"@, "--tlsv1.2"@, "-sSf"@, url@]);
    }
    cmd
}

/// The shell that the fetched bootstrap script is piped into.
pub fn bash_stdin_command() -> (r: LoggedCommand)
    ensures
        r.program_view() == "bash"@,
        r.args_view() == Seq::<Seq<char>>::empty(),
{
    LoggedCommand::new("bash")
}

/// The two commands of the SDK bootstrap step: fetch the script, and the
/// shell its output is piped into.
pub fn install_polkadot_commands() -> (r: (LoggedCommand, LoggedCommand))
    ensures
        r.0.program_view() == "curl"@,
        r.0.args_view() == seq![
            "--proto"@,
            "=https"@,
            "--tlsv1.2"@,
            "-sSf"@,
            "https://raw.githubusercontent.com/paritytech/polkadot-sdk/refs/heads/master/scripts/getting-started.sh"@,
        ],
        r.1.program_view() == "bash"@,
        r.1.args_view() == Seq::<Seq<char>>::empty(),
{
    (curl_fetch_command(getting_started_url()), bash_stdin_command())
}

/// The command that downloads `url` to `destination`.
pub fn wget_command(destination: &str, url: &str) -> (r: LoggedCommand)
    ensures
        r.program_view() == "wget"@,
        r.args_view() == seq!["-O"@, destination@, url@],
{
    let mut cmd = LoggedCommand::new("wget");
    cmd.arg("-O");
    cmd.arg(destination);
    cmd.arg(url);
    proof {
        assert(cmd.args_view() =~= seq!["-O"@, destination@, url@]);
    }
    cmd
}

/// The command that changes the permission bits of `path` to `mode`.
pub fn chmod_command(mode: &str, path: &str) -> (r: LoggedCommand)
    ensures
        r.program_view() == "chmod"@,
        r.args_view() == seq![mode@, path@],
{
    let mut cmd = LoggedCommand::new("chmod");
    cmd.arg(mode);
    cmd.arg(path);
    proof {
        assert(cmd.args_view() =~= seq![mode@, path@]);
    }
    cmd
}

/// The download and the permission change that install one prebuilt
/// binary at `destination`, or the unsupported-system report when no
/// download source exists for this operating system.
fn install_binary_commands(
    os_info: &str,
    url: Result<&'static str, String>,
    destination: &str,
) -> (r: Result<(LoggedCommand, LoggedCommand), String>)
    requires
        url matches Err(m) ==> m@ == "Unsupported OS: "@ + os_info@,
    ensures
        url matches Ok(u) ==> (r matches Ok(c) && c.0.program_view() == "wget"@
            && c.0.args_view() == seq!["-O"@, destination@, u@] && c.1.program_view() == "chmod"@
            && c.1.args_view() == seq!["755"@, destination@]),
        url matches Err(m) ==> (r matches Err(m2) && m2@ == "Unsupported OS: "@ + os_info@),
{
    match url {
        Ok(u) => Ok((wget_command(destination, u), chmod_command("755", destination))),
        Err(m) => Err(m),
    }
}

/// The commands of the `chain-spec-builder` installation step: download
/// the binary and mark it executable, or report the unsupported system.
pub fn install_chain_spec_builder_commands(os_info: &str) -> (r: Result<(LoggedCommand, LoggedCommand), String>)
    ensures
        os_info@ == "linux"@ ==> (r matches Ok(c) && c.0.program_view() == "wget"@
            && c.0.args_view() == seq![
            "-O"@,
            "./binaries/chain-spec-builder"@,
            "https://github.com/paritytech/polkadot-sdk/releases/download/polkadot-stable2412/chain-spec-builder"@,
        ] && c.1.program_view() == "chmod"@ && c.1.args_view() == seq![
            "755"@,
            "./binaries/chain-spec-builder"@,
        ]),
        os_info@ == "macos"@ ==> (r matches Ok(c) && c.0.program_view() == "wget"@
            && c.0.args_view() == seq![
            "-O"@,
            "./binaries/chain-spec-builder"@,
            "https://binary.xode.net/chain-spec-builder"@,
        ] && c.1.program_view() == "chmod"@ && c.1.args_view() == seq![
            "755"@,
            "./binaries/chain-spec-builder"@,
        ]),
        os_info@ != "linux"@ && os_info@ != "macos"@ ==> (r matches Err(m) && m@
            == "Unsupported OS: "@ + os_info@),
{
    install_binary_commands(os_info, chain_spec_builder_url(os_info), chain_spec_builder_destination())
}

/// The commands of the `polkadot-omni-node` installation step: download
/// the binary and mark it executable, or report the unsupported system.
pub fn install_omni_node_commands(os_info: &str) -> (r: Result<(LoggedCommand, LoggedCommand), String>)
    ensures
        os_info@ == "linux"@ ==> (r matches Ok(c) && c.0.program_view() == "wget"@
            && c.0.args_view() == seq![
            "-O"@,
            "./binaries/polkadot-omni-node"@,
            "https://github.com/paritytech/polkadot-sdk/releases/download/polkadot-stable2412/polkadot-omni-node"@,
        ] && c.1.program_view() == "chmod"@ && c.1.args_view() == seq![
            "755"@,
            "./binaries/polkadot-omni-node"@,
        ]),
        os_info@ == "macos"@ ==> (r matches Ok(c) && c.0.program_view() == "wget"@
            && c.0.args_view() == seq![
            "-O"@,
            "./binaries/polkadot-omni-node"@,
            "https://binary.xode.net/polkadot-omni-node"@,
        ] && c.1.program_view() == "chmod"@ && c.1.args_view() == seq![
            "755"@,
            "./binaries/polkadot-omni-node"@,
        ]),
        os_info@ != "linux"@ && os_info@ != "macos"@ ==> (r matches Err(m) && m@
            == "Unsupported OS: "@ + os_info@),
{
    install_binary_commands(os_info, omni_node_url(os_info), omni_node_destination())
}

/// The command that downloads the runtime blob to its fixed place.
pub fn download_wasm_command() -> (r: LoggedCommand)
    ensures
        r.program_view() == "wget"@,
        r.args_view() == seq![
            "-O"@,
            "./nodes/asset_hub_westend_runtime.compact.compressed.wasm"@,
            "https://github.com/paritytech/polkadot-sdk/releases/download/polkadot-stable2412/asset_hub_westend_runtime.compact.compressed.wasm"@,
        ],
{
    wget_command(
        wasm_destination(),
        "https://github.com/paritytech/polkadot-sdk/releases/download/polkadot-stable2412/asset_hub_westend_runtime.compact.compressed.wasm",
    )
}

/// The command that generates a development chain specification for the
/// Westend relay chain from the downloaded runtime blob.
pub fn chain_spec_create_command() -> (r: LoggedCommand)
    ensures
        r.program_view() == "./binaries/chain-spec-builder"@,
        r.args_view() == seq![
            "create"@,
            "-t"@,
            "development"@,
            "--relay-chain"@,
            "westend2"@,
            "--para-id"@,
            "1000"@,
            "--runtime"@,
            "./nodes/asset_hub_westend_runtime.compact.compressed.wasm"@,
            "named-preset"@,
            "development"@,
        ],
{
    let mut cmd = LoggedCommand::new("./binaries/chain-spec-builder");
    cmd.arg("create");
    cmd.arg("-t");
    cmd.arg("development");
    cmd.arg("--relay-chain");
    cmd.arg("westend2");
    cmd.arg("--para-id");
    cmd.arg("1000");
    cmd.arg("--runtime");
    cmd.arg(wasm_destination());
    cmd.arg("named-preset");
    cmd.arg("development");
    proof {
        assert(cmd.args_view() =~= seq![
            "create"@,
            "-t"@,
            "development"@,
            "--relay-chain"@,
            "westend2"@,
            "--para-id"@,
            "1000"@,
            "--runtime"@,
            "./nodes/asset_hub_westend_runtime.compact.compressed.wasm"@,
            "named-preset"@,
            "development"@,
        ]);
    }
    cmd
}

/// The three commands of the chain-specification generation step: make
/// the runtime blob readable, make the builder executable, and run it.
pub fn gen_chain_spec_commands() -> (r: (LoggedCommand, LoggedCommand, LoggedCommand))
    ensures
        r.0.program_view() == "chmod"@,
        r.0.args_view() == seq![
            "+r"@,
            "./nodes/asset_hub_westend_runtime.compact.compressed.wasm"@,
        ],
        r.1.program_view() == "chmod"@,
        r.1.args_view() == seq!["+x"@, "./binaries/chain-spec-builder"@],
        r.2.program_view() == "./binaries/chain-spec-builder"@,
        r.2.args_view() == seq![
            "create"@,
            "-t"@,
            "development"@,
            "--relay-chain"@,
            "westend2"@,
            "--para-id"@,
            "1000"@,
            "--runtime"@,
            "./nodes/asset_hub_westend_runtime.compact.compressed.wasm"@,
            "named-preset"@,
            "development"@,
        ],
{
    (
        chmod_command("+r", wasm_destination()),
        chmod_command("+x", chain_spec_builder_destination()),
        chain_spec_create_command(),
    )
}

} // verus!
