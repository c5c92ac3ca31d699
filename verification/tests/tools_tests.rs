use polkadot_cli::dev_cli::checkup::checkup_flint_command;
use polkadot_cli::dev_cli::checkup::checkup_format_command;
use polkadot_cli::dev_cli::checkup::checkup_version_command;
use polkadot_cli::dev_cli::checkup::checkup_version_skipped_notice;
use polkadot_cli::dev_cli::flint::handle_flint_command;
use polkadot_cli::dev_cli::flint::handle_format_features;
use polkadot_cli::dev_cli::flint::handle_lint_command;
use polkadot_cli::dev_cli::flint::handle_propagate_feature;
use polkadot_cli::dev_cli::flint::handle_run;
use polkadot_cli::dev_cli::flint::handle_trace_command;
use polkadot_cli::dev_cli::flint::install_zepter;
use polkadot_cli::dev_cli::flint::zepter_probe_command;
use polkadot_cli::dev_cli::flint::FlintCommonOptions;
use polkadot_cli::dev_cli::flint::FormatFeaturesOptions;
use polkadot_cli::dev_cli::flint::PropagateFeatureOptions;
use polkadot_cli::dev_cli::flint::RunOptions;
use polkadot_cli::dev_cli::flint::TraceOptions;
use polkadot_cli::dev_cli::flint::WorkspaceOptions;
use polkadot_cli::dev_cli::format::run_format;
use polkadot_cli::dev_cli::format::FormatOptions;
use polkadot_cli::dev_cli::prdoc::handle_generate;
use polkadot_cli::dev_cli::prdoc::handle_prdoc_command;
use polkadot_cli::dev_cli::prdoc::install_prdoc;
use polkadot_cli::dev_cli::prdoc::GenerateOptions;
use polkadot_cli::dev_cli::prdoc::PrdocOptions;
use polkadot_cli::dev_cli::psvm::handle_version_command;
use polkadot_cli::dev_cli::psvm::install_psvm;
use polkadot_cli::dev_cli::psvm::VersionOptions;

fn no_common() -> WorkspaceOptions {
    WorkspaceOptions { workspace: false, offline: false, locked: false, all_features: false }
}

#[test]
fn format_with_no_options_is_bare_nightly_fmt() {
    let opts = FormatOptions {
        quiet: false,
        verbose: false,
        version: false,
        package: None,
        manifest_path: None,
        message_format: None,
        all: false,
        check: false,
    };
    let cmd = run_format(&opts);
    assert_eq!(cmd.program, "cargo");
    assert_eq!(cmd.args, vec!["+nightly", "fmt"]);
}

#[test]
fn format_flags_appear_exactly_when_set() {
    let opts = FormatOptions {
        quiet: true,
        verbose: false,
        version: false,
        package: Some("pallet-template".to_string()),
        manifest_path: None,
        message_format: Some("short".to_string()),
        all: true,
        check: false,
    };
    let cmd = run_format(&opts);
    assert_eq!(
        cmd.args,
        vec![
            "+nightly",
            "fmt",
            "--quiet",
            "--package",
            "pallet-template",
            "--message-format",
            "short",
            "--all"
        ]
    );
    assert!(!cmd.args.iter().any(|a| a == "--verbose"));
    assert!(!cmd.args.iter().any(|a| a == "--check"));
}

#[test]
fn flint_base_command_carries_common_options() {
    let opts = FlintCommonOptions {
        quiet: true,
        color: false,
        exit_code_zero: false,
        log: Some("info".to_string()),
        fix_hint: None,
        manifest_path: None,
    };
    let cmd = handle_flint_command(&opts);
    assert_eq!(cmd.program, "zepter");
    assert_eq!(cmd.args, vec!["--quiet", "--log", "info"]);
}

#[test]
fn flint_run_is_the_default_subcommand() {
    let opts = FlintCommonOptions {
        quiet: false,
        color: false,
        exit_code_zero: false,
        log: None,
        fix_hint: None,
        manifest_path: None,
    };
    let mut cmd = handle_flint_command(&opts);
    let run = RunOptions { config: Some("zepter.yaml".to_string()), check_cfg_compatibility: None };
    handle_run(&mut cmd, &run);
    assert_eq!(cmd.args, vec!["run", "--config", "zepter.yaml"]);
}

#[test]
fn flint_format_features_orders_flags_before_common_options() {
    let opts = FlintCommonOptions {
        quiet: false,
        color: false,
        exit_code_zero: false,
        log: None,
        fix_hint: None,
        manifest_path: None,
    };
    let mut cmd = handle_flint_command(&opts);
    let ff = FormatFeaturesOptions {
        no_workspace: false,
        modify_paths: None,
        line_width: Some("100".to_string()),
        mode_per_feature: None,
        ignore_feature: None,
        print_paths: true,
        common: WorkspaceOptions { workspace: false, offline: true, locked: false, all_features: false },
    };
    handle_format_features(&mut cmd, &ff);
    assert_eq!(
        cmd.args,
        vec!["format", "features", "--line-width", "100", "--print-paths", "--offline"]
    );
}

#[test]
fn flint_trace_has_one_trace_token_before_the_positionals() {
    let mut cmd = handle_flint_command(
        &FlintCommonOptions {
            quiet: false,
            color: false,
            exit_code_zero: false,
            log: None,
            fix_hint: None,
            manifest_path: None,
        },
    );
    let opts = TraceOptions {
        from: "pallet-a".to_string(),
        to: "sp-core".to_string(),
        common: no_common(),
        show_source: false,
        show_version: true,
        path_delimiter: None,
        unique_versions: false,
    };
    handle_trace_command(&mut cmd, &opts);
    assert_eq!(cmd.args, vec!["trace", "pallet-a", "sp-core", "--show-version"]);
}

#[test]
fn flint_propagate_feature_requires_the_feature_value() {
    let mut cmd = handle_flint_command(
        &FlintCommonOptions {
            quiet: false,
            color: false,
            exit_code_zero: false,
            log: None,
            fix_hint: None,
            manifest_path: None,
        },
    );
    handle_lint_command(&mut cmd, &no_common());
    let opts = PropagateFeatureOptions {
        features: "try-runtime".to_string(),
        packages: None,
        features_enables_dep: None,
        left_side_feat_missing: None,
        ignore_missing_propagate: None,
        dep_kinds: None,
        show_version: false,
        show_path: false,
        fix: true,
        modify_paths: None,
        fix_dependency: None,
        fix_package: None,
    };
    handle_propagate_feature(&mut cmd, &opts);
    assert_eq!(
        cmd.args,
        vec!["lint", "propagate-feature", "--features", "try-runtime", "--fix"]
    );
}

#[test]
fn zepter_probe_and_install_commands() {
    let probe = zepter_probe_command();
    assert_eq!(probe.program, "zepter");
    assert_eq!(probe.args, vec!["--version"]);
    let install = install_zepter();
    assert_eq!(install.program, "cargo");
    assert_eq!(install.args, vec!["install", "zepter", "-f", "--locked"]);
}

#[test]
fn psvm_version_command_maps_every_option() {
    let opts = VersionOptions {
        list: true,
        path: Some("Cargo.toml".to_string()),
        version: Some("1.14.0".to_string()),
        overwrite: false,
        check: true,
        orml: false,
    };
    let cmd = handle_version_command(&opts);
    assert_eq!(cmd.program, "psvm");
    assert_eq!(
        cmd.args,
        vec!["--list", "--path", "Cargo.toml", "--version", "1.14.0", "--check"]
    );
}

#[test]
fn psvm_install_command() {
    let cmd = install_psvm();
    assert_eq!(cmd.program, "cargo");
    assert_eq!(cmd.args, vec!["install", "psvm"]);
}

#[test]
fn prdoc_generate_carries_the_number_first() {
    let base = PrdocOptions { config: None, prdoc_folders: None, version: false, json: true };
    let mut cmd = handle_prdoc_command(&base);
    assert_eq!(cmd.program, "prdoc");
    assert_eq!(cmd.args, vec!["--json"]);
    let gen = GenerateOptions {
        number: "1234".to_string(),
        dry_run: true,
        output_dir: None,
    };
    handle_generate(&mut cmd, &gen);
    assert_eq!(cmd.args, vec!["--json", "generate", "1234", "--dry-run"]);
}

#[test]
fn prdoc_install_command() {
    let cmd = install_prdoc();
    assert_eq!(cmd.program, "cargo");
    assert_eq!(cmd.args, vec!["install", "parity-prdoc"]);
}

#[test]
fn checkup_runs_format_flint_then_version_check() {
    let format = checkup_format_command();
    assert_eq!(format.program, "polkadot-dev");
    assert_eq!(format.args, vec!["format"]);
    let flint = checkup_flint_command();
    assert_eq!(flint.args, vec!["flint"]);
    let version = checkup_version_command("1.14.0");
    assert_eq!(version.args, vec!["version", "-v", "1.14.0", "--check"]);
    assert!(checkup_version_skipped_notice().contains("skipping"));
}
