use polkadot_cli::chain_spec::chain_spec_destination;
use polkadot_cli::chain_spec::chain_spec_file_in;
use polkadot_cli::chain_spec::chain_spec_search_dirs;
use polkadot_cli::chain_spec::create_dir_error;
use polkadot_cli::chain_spec::move_chain_spec_plan;
use polkadot_cli::chain_spec::move_file_error;
use polkadot_cli::install::chain_spec_builder_url;
use polkadot_cli::install::chain_spec_create_command;
use polkadot_cli::install::chmod_command;
use polkadot_cli::install::download_wasm_command;
use polkadot_cli::install::gen_chain_spec_commands;
use polkadot_cli::install::install_chain_spec_builder_commands;
use polkadot_cli::install::install_omni_node_commands;
use polkadot_cli::install::install_polkadot_commands;
use polkadot_cli::install::omni_node_url;
use polkadot_cli::install::wget_command;
use polkadot_cli::omni_node;
use polkadot_cli::os_check::check_operating_system;
use polkadot_cli::os_check::get_os_info;
use polkadot_cli::os_check::is_wsl;
use polkadot_cli::polkadot_sdk;
use polkadot_cli::serve;
use polkadot_cli::solochain;
use polkadot_cli::template::clone_template_command;
use polkadot_cli::template::is_valid_chain_spec;
use polkadot_cli::template::is_valid_template;
use polkadot_cli::template::run_template;
use polkadot_cli::template::template_destination;
use polkadot_cli::template::template_repo_url;
use polkadot_cli::zombienet;

// OS probe

#[test]
fn os_probe_linux_is_linux() {
    assert_eq!(get_os_info("linux", &None), "linux");
}

#[test]
fn os_probe_macos_is_macos() {
    assert_eq!(get_os_info("macos", &None), "macos");
}

#[test]
fn os_probe_windows_without_proc_version_is_windows() {
    assert_eq!(get_os_info("windows", &None), "windows");
}

#[test]
fn os_probe_windows_without_marker_is_windows() {
    let proc_version = Some("Linux version 6.1.0 (gcc)".to_string());
    assert_eq!(get_os_info("windows", &proc_version), "windows");
}

#[test]
fn os_probe_windows_with_marker_is_wsl2() {
    let proc_version = Some("Linux version 5.15.90.1-microsoft-standard-WSL2 Microsoft".to_string());
    assert_eq!(get_os_info("windows", &proc_version), "windows-wsl2");
}

#[test]
fn os_probe_unknown_system_is_reported() {
    assert_eq!(get_os_info("freebsd", &None), "Unknown operating system: freebsd");
}

#[test]
fn wsl_probe_needs_the_marker() {
    assert!(is_wsl(&Some("a Microsoft kernel".to_string())));
    assert!(!is_wsl(&Some("an ordinary kernel".to_string())));
    assert!(!is_wsl(&None));
}

#[test]
fn check_operating_system_uses_the_wsl_flag_only_for_windows() {
    assert_eq!(check_operating_system("windows", true), "windows-wsl2");
    assert_eq!(check_operating_system("windows", false), "windows");
    assert_eq!(check_operating_system("linux", true), "linux");
}

// Chain-spec relocation

#[test]
fn move_plan_picks_the_first_candidate_with_the_file() {
    assert_eq!(move_chain_spec_plan(&[true, false]), Ok(0));
    assert_eq!(move_chain_spec_plan(&[false, true]), Ok(1));
    assert_eq!(move_chain_spec_plan(&[true, true]), Ok(0));
}

#[test]
fn move_plan_without_the_file_reports_not_found() {
    assert_eq!(
        move_chain_spec_plan(&[false, false]),
        Err("chain_spec.json not found in the specified directories.".to_string())
    );
    assert_eq!(
        move_chain_spec_plan(&[]),
        Err("chain_spec.json not found in the specified directories.".to_string())
    );
}

#[test]
fn chain_spec_paths() {
    assert_eq!(chain_spec_search_dirs(), vec!["./", "../"]);
    assert_eq!(chain_spec_file_in("./"), "./chain_spec.json");
    assert_eq!(chain_spec_file_in("../"), "../chain_spec.json");
    assert_eq!(chain_spec_destination(), "./chain-specs/chain_spec.json");
}

#[test]
fn chain_spec_error_wordings() {
    assert_eq!(
        create_dir_error("denied"),
        "Failed to create chain-specs directory: denied"
    );
    assert_eq!(move_file_error("denied"), "Failed to move chain_spec.json: denied");
}

// Installation

#[test]
fn binary_urls_follow_the_operating_system() {
    assert_eq!(
        chain_spec_builder_url("linux"),
        Ok("https://github.com/paritytech/polkadot-sdk/releases/download/polkadot-stable2412/chain-spec-builder")
    );
    assert_eq!(
        chain_spec_builder_url("macos"),
        Ok("https://binary.xode.net/chain-spec-builder")
    );
    assert_eq!(
        chain_spec_builder_url("windows"),
        Err("Unsupported OS: windows".to_string())
    );
    assert_eq!(
        omni_node_url("linux"),
        Ok("https://github.com/paritytech/polkadot-sdk/releases/download/polkadot-stable2412/polkadot-omni-node")
    );
    assert_eq!(omni_node_url("macos"), Ok("https://binary.xode.net/polkadot-omni-node"));
    assert_eq!(omni_node_url("plan9"), Err("Unsupported OS: plan9".to_string()));
}

#[test]
fn wget_and_chmod_commands() {
    let wget = wget_command("./binaries/tool", "https://example.invalid/tool");
    assert_eq!(wget.program, "wget");
    assert_eq!(wget.args, vec!["-O", "./binaries/tool", "https://example.invalid/tool"]);
    let chmod = chmod_command("755", "./binaries/tool");
    assert_eq!(chmod.program, "chmod");
    assert_eq!(chmod.args, vec!["755", "./binaries/tool"]);
}

#[test]
fn install_polkadot_pipes_curl_into_bash() {
    let (curl, bash) = install_polkadot_commands();
    assert_eq!(curl.program, "curl");
    assert_eq!(
        curl.args,
        vec![
            "--proto",
            "=https",
            "--tlsv1.2",
            "-sSf",
            "https://raw.githubusercontent.com/paritytech/polkadot-sdk/refs/heads/master/scripts/getting-started.sh"
        ]
    );
    assert_eq!(bash.program, "bash");
    assert!(bash.args.is_empty());
}

#[test]
fn install_chain_spec_builder_downloads_then_marks_executable() {
    let (wget, chmod) = install_chain_spec_builder_commands("linux").unwrap();
    assert_eq!(
        wget.args,
        vec![
            "-O",
            "./binaries/chain-spec-builder",
            "https://github.com/paritytech/polkadot-sdk/releases/download/polkadot-stable2412/chain-spec-builder"
        ]
    );
    assert_eq!(chmod.args, vec!["755", "./binaries/chain-spec-builder"]);
    assert_eq!(
        install_chain_spec_builder_commands("haiku"),
        Err("Unsupported OS: haiku".to_string())
    );
}

#[test]
fn install_omni_node_downloads_then_marks_executable() {
    let (wget, chmod) = install_omni_node_commands("macos").unwrap();
    assert_eq!(
        wget.args,
        vec!["-O", "./binaries/polkadot-omni-node", "https://binary.xode.net/polkadot-omni-node"]
    );
    assert_eq!(chmod.args, vec!["755", "./binaries/polkadot-omni-node"]);
}

#[test]
fn wasm_download_command() {
    let cmd = download_wasm_command();
    assert_eq!(cmd.program, "wget");
    assert_eq!(
        cmd.args,
        vec![
            "-O",
            "./nodes/asset_hub_westend_runtime.compact.compressed.wasm",
            "https://github.com/paritytech/polkadot-sdk/releases/download/polkadot-stable2412/asset_hub_westend_runtime.compact.compressed.wasm"
        ]
    );
}

#[test]
fn gen_chain_spec_sets_permissions_then_builds() {
    let (readable, executable, create) = gen_chain_spec_commands();
    assert_eq!(
        readable.args,
        vec!["+r", "./nodes/asset_hub_westend_runtime.compact.compressed.wasm"]
    );
    assert_eq!(executable.args, vec!["+x", "./binaries/chain-spec-builder"]);
    assert_eq!(create, chain_spec_create_command());
    assert_eq!(create.program, "./binaries/chain-spec-builder");
    assert_eq!(
        create.args,
        vec![
            "create",
            "-t",
            "development",
            "--relay-chain",
            "westend2",
            "--para-id",
            "1000",
            "--runtime",
            "./nodes/asset_hub_westend_runtime.compact.compressed.wasm",
            "named-preset",
            "development"
        ]
    );
}

// Serving

#[test]
fn serve_defaults_to_the_generated_chain_spec() {
    let args = serve::serve_args(Vec::new());
    assert_eq!(args, vec!["--chain", "./chain-specs/chain_spec.json"]);
}

#[test]
fn serve_keeps_explicit_arguments() {
    let args = serve::serve_args(vec!["--chain".to_string(), "custom.json".to_string()]);
    assert_eq!(args, vec!["--chain", "custom.json"]);
}

#[test]
fn serve_runs_the_downloaded_node() {
    let cmd = serve::run(&["--dev".to_string()]);
    assert_eq!(cmd.program, "./binaries/polkadot-omni-node");
    assert_eq!(cmd.args, vec!["--dev"]);
}

// Templates

#[test]
fn template_names_are_validated() {
    assert!(is_valid_template("minimal"));
    assert!(is_valid_template("parachain"));
    assert!(is_valid_template("solochain"));
    assert!(!is_valid_template("mainframe"));
    assert!(!is_valid_template(""));
}

#[test]
fn chain_spec_names_are_validated() {
    assert!(is_valid_chain_spec("westend"));
    assert!(is_valid_chain_spec("paseo"));
    assert!(is_valid_chain_spec("rococo"));
    assert!(!is_valid_chain_spec("kusama"));
}

#[test]
fn template_paths_and_urls() {
    assert_eq!(template_destination("minimal"), "./templates/minimal-template");
    assert_eq!(
        template_repo_url("parachain"),
        "https://github.com/paritytech/polkadot-sdk-parachain-template.git"
    );
}

#[test]
fn template_clone_and_run_commands() {
    let clone = clone_template_command("solochain");
    assert_eq!(clone.program, "git");
    assert_eq!(
        clone.args,
        vec![
            "clone",
            "--quiet",
            "https://github.com/paritytech/polkadot-sdk-solochain-template.git",
            "./templates/solochain-template"
        ]
    );
    let run = run_template("solochain", &["--tmp".to_string()]);
    assert_eq!(run.program, "cargo");
    assert_eq!(run.args, vec!["run", "--release", "--", "--dev", "--tmp"]);
    assert_eq!(run.cwd, Some("./templates/solochain-template".to_string()));
}

// Source flows

#[test]
fn solochain_install_clones_then_builds() {
    let (clone, build) = solochain::install();
    assert_eq!(clone.program, "git");
    assert_eq!(
        clone.args,
        vec![
            "clone",
            "https://github.com/paritytech/polkadot-sdk-solochain-template.git",
            "./crates/solochain-template"
        ]
    );
    assert_eq!(build.program, "cargo");
    assert_eq!(build.args, vec!["build", "--release"]);
    assert_eq!(build.cwd, Some("./crates/solochain-template".to_string()));
}

#[test]
fn solochain_runs_the_built_node() {
    let cmd = solochain::run(&["-h".to_string()]);
    assert_eq!(cmd.program, "./crates/solochain-template/target/release/solochain-template-node");
    assert_eq!(cmd.args, vec!["-h"]);
}

#[test]
fn zombienet_install_clones_then_builds() {
    let (clone, build) = zombienet::add();
    assert_eq!(
        clone.args,
        vec!["clone", "https://github.com/paritytech/zombienet.git", "./dependencies/zombienet"]
    );
    assert_eq!(build.cwd, Some("./dependencies/zombienet".to_string()));
}

#[test]
fn zombienet_runs_the_built_node() {
    let cmd = zombienet::run(&[]);
    assert_eq!(cmd.program, "./dependencies/zombienet/target/release/zombienet-template-node");
    assert!(cmd.args.is_empty());
}

#[test]
fn sdk_clone_and_script_commands() {
    let clone = polkadot_sdk::clone_command();
    assert_eq!(
        clone.args,
        vec!["clone", "https://github.com/paritytech/polkadot-sdk.git", "./templates/polkadot-sdk"]
    );
    let run = polkadot_sdk::run();
    assert_eq!(run.program, "bash");
    assert_eq!(run.args, vec!["./templates/polkadot-sdk/scripts/getting-started.sh"]);
    let (curl, bash) = polkadot_sdk::install();
    assert_eq!(curl.program, "curl");
    assert_eq!(bash.program, "bash");
}

#[test]
fn omni_node_add_installs_from_the_sdk() {
    let cmd = omni_node::add();
    assert_eq!(cmd.program, "cargo");
    assert_eq!(
        cmd.args,
        vec![
            "install",
            "--git",
            "https://github.com/paritytech/polkadot-sdk",
            "--force",
            "polkadot-omni-node"
        ]
    );
    assert_eq!(cmd.cwd, Some("./templates".to_string()));
}

#[test]
fn omni_node_run_marks_the_script_executable_first() {
    let (chmod, script) = omni_node::run(&["-h".to_string()]);
    assert_eq!(chmod.args, vec!["+x", "./script/omni-node.sh"]);
    assert_eq!(script.program, "bash");
    assert_eq!(script.args, vec!["./script/omni-node.sh", "-h"]);
}

#[test]
fn omni_node_gen_chain_spec_uses_the_built_runtime() {
    let (chmod, create) = omni_node::gen_chain_spec();
    assert_eq!(
        chmod.args,
        vec![
            "+r",
            "./templates/polkadot-sdk/target/release/wbuild/asset-hub-westend-runtime/asset_hub_westend_runtime.compact.compressed.wasm"
        ]
    );
    assert_eq!(create.program, "chain-spec-builder");
    assert_eq!(create.args[4], "paseo");
}

#[test]
fn omni_node_chain_spec_builder_install_runs_in_the_sdk_clone() {
    let cmd = omni_node::install_chain_spec_builder();
    assert_eq!(
        cmd.args,
        vec![
            "install",
            "--git",
            "https://github.com/paritytech/polkadot-sdk",
            "--force",
            "staging-chain-spec-builder"
        ]
    );
    assert_eq!(cmd.cwd, Some("./templates/polkadot-sdk".to_string()));
}
