//! The feature-linter pass-through: every option of the wrapper's
//! `flint` subcommand tree maps one-to-one onto a flag of `zepter`.
//!
//! The base command carries the options common to all `zepter`
//! invocations; each subcommand appends its own tokens.  When probing
//! `zepter` fails to spawn, the tool is installed once through `cargo`
//! before the request is retried.

use vstd::prelude::*;
use crate::runner::LoggedCommand;
use crate::runner::lemma_add_assoc;
use crate::runner::opt_flag;
use crate::runner::opt_value;

verus! {

/// The options common to every `zepter` invocation.
pub struct FlintCommonOptions {
    pub quiet: bool,
    pub color: bool,
    pub exit_code_zero: bool,
    pub log: Option<String>,
    pub fix_hint: Option<String>,
    pub manifest_path: Option<String>,
}

/// The options shared by the workspace-walking subcommands.
pub struct WorkspaceOptions {
    pub workspace: bool,
    pub offline: bool,
    pub locked: bool,
    pub all_features: bool,
}

/// The options of the `run` subcommand.
pub struct RunOptions {
    pub config: Option<String>,
    pub check_cfg_compatibility: Option<String>,
}

/// The options of the `format-features` subcommand.
pub struct FormatFeaturesOptions {
    pub no_workspace: bool,
    pub modify_paths: Option<String>,
    pub line_width: Option<String>,
    pub mode_per_feature: Option<String>,
    pub ignore_feature: Option<String>,
    pub print_paths: bool,
    pub common: WorkspaceOptions,
}

/// The options of the `trace` subcommand.
pub struct TraceOptions {
    pub from: String,
    pub to: String,
    pub common: WorkspaceOptions,
    pub show_source: bool,
    pub show_version: bool,
    pub path_delimiter: Option<String>,
    pub unique_versions: bool,
}

/// The options of the `lint propagate-feature` subcommand.
pub struct PropagateFeatureOptions {
    pub features: String,
    pub packages: Option<String>,
    pub features_enables_dep: Option<String>,
    pub left_side_feat_missing: Option<String>,
    pub ignore_missing_propagate: Option<String>,
    pub dep_kinds: Option<String>,
    pub show_version: bool,
    pub show_path: bool,
    pub fix: bool,
    pub modify_paths: Option<String>,
    pub fix_dependency: Option<String>,
    pub fix_package: Option<String>,
}

/// The options of the `lint never-enables` subcommand.
pub struct NeverEnablesOptions {
    pub precondition: String,
    pub stays_disabled: String,
}

/// The options of the `lint never-implies` subcommand.
pub struct NeverImpliesOptions {
    pub precondition: String,
    pub stays_disabled: String,
    pub show_source: bool,
    pub show_version: bool,
    pub path_delimiter: Option<String>,
}

/// The options of the `lint only-enables` subcommand.
pub struct OnlyEnablesOptions {
    pub precondition: String,
    pub only_enables: String,
    pub path_delimiter: Option<String>,
}

/// The options of the `lint why-enabled` subcommand.
pub struct WhyEnabledOptions {
    pub package: String,
    pub feature: String,
}

/// The options of the `debug` subcommand.
pub struct DebugOptions {
    pub common: WorkspaceOptions,
    pub no_benchmark: bool,
    pub no_root: bool,
}

/// The options of the `transpose dependency lift-to-workspace`
/// subcommand.
pub struct LiftToWorkspaceOptions {
    pub common: WorkspaceOptions,
    pub fix: bool,
    pub version_selector: Option<String>,
    pub skip_package: Option<String>,
    pub source_location: Option<String>,
    pub exact_version: bool,
    pub ignore_errors: bool,
}

/// The tokens of the options common to every `zepter` invocation, in
/// this order: exactly the flags whose option was set.
pub open spec fn flint_common_args(opts: FlintCommonOptions) -> Seq<Seq<char>> {
    opt_flag(opts.quiet, "--quiet"@) + opt_flag(opts.color, "--color"@) + opt_flag(
        opts.exit_code_zero,
        "--exit-code-zero"@,
    ) + opt_value(opts.log, "--log"@) + opt_value(opts.fix_hint, "--fix-hint"@) + opt_value(
        opts.manifest_path,
        "--manifest-path"@,
    )
}

/// The tokens of the shared workspace options, in this order.
pub open spec fn workspace_args(opts: WorkspaceOptions) -> Seq<Seq<char>> {
    opt_flag(opts.workspace, "--workspace"@) + opt_flag(opts.offline, "--offline"@) + opt_flag(
        opts.locked,
        "--locked"@,
    ) + opt_flag(opts.all_features, "--all-features"@)
}

/// The tokens of the `run` subcommand.
pub open spec fn run_args(opts: RunOptions) -> Seq<Seq<char>> {
    seq!["run"@] + opt_value(opts.config, "--config"@) + opt_value(
        opts.check_cfg_compatibility,
        "--check-cfg-compatibility"@,
    )
}

/// The tokens of the `format-features` subcommand.
pub open spec fn format_features_args(opts: FormatFeaturesOptions) -> Seq<Seq<char>> {
    seq!["format"@, "features"@] + opt_flag(opts.no_workspace, "--no-workspace"@) + opt_value(
        opts.modify_paths,
        "--modify-paths"@,
    ) + opt_value(opts.line_width, "--line-width"@) + opt_value(
        opts.mode_per_feature,
        "--mode-per-feature"@,
    ) + opt_value(opts.ignore_feature, "--ignore-feature"@) + opt_flag(
        opts.print_paths,
        "--print-paths"@,
    ) + workspace_args(opts.common)
}

/// The tokens of the `trace` subcommand.
pub open spec fn trace_args(opts: TraceOptions) -> Seq<Seq<char>> {
    seq!["trace"@, opts.from@, opts.to@] + workspace_args(opts.common) + opt_flag(
        opts.show_source,
        "--show-source"@,
    ) + opt_flag(opts.show_version, "--show-version"@) + opt_value(
        opts.path_delimiter,
        "--path-delimiter"@,
    ) + opt_flag(opts.unique_versions, "--unique-versions"@)
}

/// The tokens of the `lint propagate-feature` subcommand.
pub open spec fn propagate_feature_args(opts: PropagateFeatureOptions) -> Seq<Seq<char>> {
    seq!["propagate-feature"@, "--features"@, opts.features@] + opt_value(
        opts.packages,
        "--packages"@,
    ) + opt_value(opts.features_enables_dep, "--features-enables-dep"@) + opt_value(
        opts.left_side_feat_missing,
        "--left-side-feat-missing"@,
    ) + opt_value(opts.ignore_missing_propagate, "--ignore-missing-propagate"@) + opt_value(
        opts.dep_kinds,
        "--dep-kinds"@,
    ) + opt_flag(opts.show_version, "--show-version"@) + opt_flag(opts.show_path, "--show-path"@)
        + opt_flag(opts.fix, "--fix"@) + opt_value(opts.modify_paths, "--modify-paths"@)
        + opt_value(opts.fix_dependency, "--fix-dependency"@) + opt_value(
        opts.fix_package,
        "--fix-package"@,
    )
}

/// The tokens of the `lint never-enables` subcommand.
pub open spec fn never_enables_args(opts: NeverEnablesOptions) -> Seq<Seq<char>> {
    seq![
        "never-enables"@,
        "--precondition"@,
        opts.precondition@,
        "--stays-disabled"@,
        opts.stays_disabled@,
    ]
}

/// The tokens of the `lint never-implies` subcommand.
pub open spec fn never_implies_args(opts: NeverImpliesOptions) -> Seq<Seq<char>> {
    seq![
        "never-implies"@,
        "--precondition"@,
        opts.precondition@,
        "--stays-disabled"@,
        opts.stays_disabled@,
    ] + opt_flag(opts.show_source, "--show-source"@) + opt_flag(
        opts.show_version,
        "--show-version"@,
    ) + opt_value(opts.path_delimiter, "--path-delimiter"@)
}

/// The tokens of the `lint only-enables` subcommand.
pub open spec fn only_enables_args(opts: OnlyEnablesOptions) -> Seq<Seq<char>> {
    seq![
        "only-enables"@,
        "--precondition"@,
        opts.precondition@,
        "--only-enables"@,
        opts.only_enables@,
    ] + opt_value(opts.path_delimiter, "--path-delimiter"@)
}

/// The tokens of the `lint why-enabled` subcommand.
pub open spec fn why_enabled_args(opts: WhyEnabledOptions) -> Seq<Seq<char>> {
    seq!["why-enabled"@, "--package"@, opts.package@, "--feature"@, opts.feature@]
}

/// The tokens of the `debug` subcommand.
pub open spec fn debug_args(opts: DebugOptions) -> Seq<Seq<char>> {
    seq!["debug"@] + workspace_args(opts.common) + opt_flag(opts.no_benchmark, "--no-benchmark"@)
        + opt_flag(opts.no_root, "--no-root"@)
}

/// The tokens of the `transpose dependency lift-to-workspace`
/// subcommand.
pub open spec fn lift_to_workspace_args(opts: LiftToWorkspaceOptions) -> Seq<Seq<char>> {
    seq!["transpose"@] + workspace_args(opts.common) + seq!["dependency"@, "lift-to-workspace"@]
        + opt_flag(opts.fix, "--fix"@) + opt_value(opts.version_selector, "--version-selector"@)
        + opt_value(opts.skip_package, "--skip-package"@) + opt_value(
        opts.source_location,
        "--source-location"@,
    ) + opt_flag(opts.exact_version, "--exact-version"@) + opt_flag(
        opts.ignore_errors,
        "--ignore-errors"@,
    )
}

/// The `zepter` base command for the given common options; every
/// subcommand's tokens are appended to this.
pub fn handle_flint_command(opts: &FlintCommonOptions) -> (r: LoggedCommand)
    ensures
        r.program_view() == "zepter"@,
        r.args_view() == flint_common_args(*opts),
        r.cwd_view() is None,
{
    let mut cmd = LoggedCommand::new("zepter");
    add_optional_args(&mut cmd, opts);
    proof {
        assert(cmd.args_view() =~= flint_common_args(*opts));
    }
    cmd
}

/// Append the options common to every `zepter` invocation.
pub fn add_optional_args(cmd: &mut LoggedCommand, opts: &FlintCommonOptions)
    ensures
        final(cmd).program_view() == old(cmd).program_view(),
        final(cmd).args_view() == old(cmd).args_view() + flint_common_args(*opts),
        final(cmd).cwd_view() == old(cmd).cwd_view(),
{
    cmd.arg_if("--quiet", opts.quiet);
    cmd.arg_if("--color", opts.color);
    cmd.arg_if("--exit-code-zero", opts.exit_code_zero);
    cmd.arg_opt("--log", &opts.log);
    cmd.arg_opt("--fix-hint", &opts.fix_hint);
    cmd.arg_opt("--manifest-path", &opts.manifest_path);
    proof {
        assert(cmd.args_view() =~= old(cmd).args_view() + flint_common_args(*opts));
    }
}

/// Append the shared workspace options.
pub fn add_optional_args_for_flint_except_run(cmd: &mut LoggedCommand, opts: &WorkspaceOptions)
    ensures
        final(cmd).program_view() == old(cmd).program_view(),
        final(cmd).args_view() == old(cmd).args_view() + workspace_args(*opts),
        final(cmd).cwd_view() == old(cmd).cwd_view(),
{
    cmd.arg_if("--workspace", opts.workspace);
    cmd.arg_if("--offline", opts.offline);
    cmd.arg_if("--locked", opts.locked);
    cmd.arg_if("--all-features", opts.all_features);
    proof {
        assert(cmd.args_view() =~= old(cmd).args_view() + workspace_args(*opts));
    }
}

/// Append the tokens of the `run` subcommand, the default when no
/// subcommand was named.
pub fn handle_run(cmd: &mut LoggedCommand, opts: &RunOptions)
    ensures
        final(cmd).program_view() == old(cmd).program_view(),
        final(cmd).args_view() == old(cmd).args_view() + run_args(*opts),
        final(cmd).cwd_view() == old(cmd).cwd_view(),
{
    cmd.arg("run");
    cmd.arg_opt("--config", &opts.config);
    cmd.arg_opt("--check-cfg-compatibility", &opts.check_cfg_compatibility);
    proof {
        assert(cmd.args_view() =~= old(cmd).args_view() + run_args(*opts));
    }
}

/// Append the tokens of the `format-features` subcommand.
pub fn handle_format_features(cmd: &mut LoggedCommand, opts: &FormatFeaturesOptions)
    ensures
        final(cmd).program_view() == old(cmd).program_view(),
        final(cmd).args_view() == old(cmd).args_view() + format_features_args(*opts),
        final(cmd).cwd_view() == old(cmd).cwd_view(),
{
    let ghost base = old(cmd).args_view();
    let ghost mut acc: Seq<Seq<char>> = seq!["format"@, "features"@];
    cmd.arg("format");
    cmd.arg("features");
    proof {
        assert(cmd.args_view() =~= base + acc);
    }
    cmd.arg_if("--no-workspace", opts.no_workspace);
    proof {
        lemma_add_assoc(base, acc, opt_flag(opts.no_workspace, "--no-workspace"@));
        acc = acc + opt_flag(opts.no_workspace, "--no-workspace"@);
    }
    cmd.arg_opt("--modify-paths", &opts.modify_paths);
    proof {
        lemma_add_assoc(base, acc, opt_value(opts.modify_paths, "--modify-paths"@));
        acc = acc + opt_value(opts.modify_paths, "--modify-paths"@);
    }
    cmd.arg_opt("--line-width", &opts.line_width);
    proof {
        lemma_add_assoc(base, acc, opt_value(opts.line_width, "--line-width"@));
        acc = acc + opt_value(opts.line_width, "--line-width"@);
    }
    cmd.arg_opt("--mode-per-feature", &opts.mode_per_feature);
    proof {
        lemma_add_assoc(base, acc, opt_value(opts.mode_per_feature, "--mode-per-feature"@));
        acc = acc + opt_value(opts.mode_per_feature, "--mode-per-feature"@);
    }
    cmd.arg_opt("--ignore-feature", &opts.ignore_feature);
    proof {
        lemma_add_assoc(base, acc, opt_value(opts.ignore_feature, "--ignore-feature"@));
        acc = acc + opt_value(opts.ignore_feature, "--ignore-feature"@);
    }
    cmd.arg_if("--print-paths", opts.print_paths);
    proof {
        lemma_add_assoc(base, acc, opt_flag(opts.print_paths, "--print-paths"@));
        acc = acc + opt_flag(opts.print_paths, "--print-paths"@);
    }
    add_optional_args_for_flint_except_run(cmd, &opts.common);
    proof {
        lemma_add_assoc(base, acc, workspace_args(opts.common));
        acc = acc + workspace_args(opts.common);
        assert(acc == format_features_args(*opts));
    }
}

/// Append the tokens of the `trace` subcommand.
pub fn handle_trace_command(cmd: &mut LoggedCommand, opts: &TraceOptions)
    ensures
        final(cmd).program_view() == old(cmd).program_view(),
        final(cmd).args_view() == old(cmd).args_view() + trace_args(*opts),
        final(cmd).cwd_view() == old(cmd).cwd_view(),
{
    let ghost base = old(cmd).args_view();
    let ghost mut acc: Seq<Seq<char>> = seq!["trace"@, opts.from@, opts.to@];
    cmd.arg("trace");
    cmd.arg(opts.from.as_str());
    cmd.arg(opts.to.as_str());
    proof {
        assert(cmd.args_view() =~= base + acc);
    }
    add_optional_args_for_flint_except_run(cmd, &opts.common);
    proof {
        lemma_add_assoc(base, acc, workspace_args(opts.common));
        acc = acc + workspace_args(opts.common);
    }
    cmd.arg_if("--show-source", opts.show_source);
    proof {
        lemma_add_assoc(base, acc, opt_flag(opts.show_source, "--show-source"@));
        acc = acc + opt_flag(opts.show_source, "--show-source"@);
    }
    cmd.arg_if("--show-version", opts.show_version);
    proof {
        lemma_add_assoc(base, acc, opt_flag(opts.show_version, "--show-version"@));
        acc = acc + opt_flag(opts.show_version, "--show-version"@);
    }
    cmd.arg_opt("--path-delimiter", &opts.path_delimiter);
    proof {
        lemma_add_assoc(base, acc, opt_value(opts.path_delimiter, "--path-delimiter"@));
        acc = acc + opt_value(opts.path_delimiter, "--path-delimiter"@);
    }
    cmd.arg_if("--unique-versions", opts.unique_versions);
    proof {
        lemma_add_assoc(base, acc, opt_flag(opts.unique_versions, "--unique-versions"@));
        acc = acc + opt_flag(opts.unique_versions, "--unique-versions"@);
        assert(acc == trace_args(*opts));
    }
}

/// Append the `lint` token and the shared workspace options; one of the
/// lint subcommands' tokens follows.
pub fn handle_lint_command(cmd: &mut LoggedCommand, opts: &WorkspaceOptions)
    ensures
        final(cmd).program_view() == old(cmd).program_view(),
        final(cmd).args_view() == old(cmd).args_view() + seq!["lint"@] + workspace_args(*opts),
        final(cmd).cwd_view() == old(cmd).cwd_view(),
{
    cmd.arg("lint");
    add_optional_args_for_flint_except_run(cmd, opts);
    proof {
        assert(cmd.args_view() =~= old(cmd).args_view() + seq!["lint"@] + workspace_args(*opts));
    }
}

/// Append the tokens of the `lint propagate-feature` subcommand.
pub fn handle_propagate_feature(cmd: &mut LoggedCommand, opts: &PropagateFeatureOptions)
    ensures
        final(cmd).program_view() == old(cmd).program_view(),
        final(cmd).args_view() == old(cmd).args_view() + propagate_feature_args(*opts),
        final(cmd).cwd_view() == old(cmd).cwd_view(),
{
    let ghost base = old(cmd).args_view();
    let ghost mut acc: Seq<Seq<char>> = seq!["propagate-feature"@, "--features"@, opts.features@];
    cmd.arg("propagate-feature");
    cmd.arg("--features");
    cmd.arg(opts.features.as_str());
    proof {
        assert(cmd.args_view() =~= base + acc);
    }
    cmd.arg_opt("--packages", &opts.packages);
    proof {
        lemma_add_assoc(base, acc, opt_value(opts.packages, "--packages"@));
        acc = acc + opt_value(opts.packages, "--packages"@);
    }
    cmd.arg_opt("--features-enables-dep", &opts.features_enables_dep);
    proof {
        lemma_add_assoc(base, acc, opt_value(opts.features_enables_dep, "--features-enables-dep"@));
        acc = acc + opt_value(opts.features_enables_dep, "--features-enables-dep"@);
    }
    cmd.arg_opt("--left-side-feat-missing", &opts.left_side_feat_missing);
    proof {
        lemma_add_assoc(
            base,
            acc,
            opt_value(opts.left_side_feat_missing, "--left-side-feat-missing"@),
        );
        acc = acc + opt_value(opts.left_side_feat_missing, "--left-side-feat-missing"@);
    }
    cmd.arg_opt("--ignore-missing-propagate", &opts.ignore_missing_propagate);
    proof {
        lemma_add_assoc(
            base,
            acc,
            opt_value(opts.ignore_missing_propagate, "--ignore-missing-propagate"@),
        );
        acc = acc + opt_value(opts.ignore_missing_propagate, "--ignore-missing-propagate"@);
    }
    cmd.arg_opt("--dep-kinds", &opts.dep_kinds);
    proof {
        lemma_add_assoc(base, acc, opt_value(opts.dep_kinds, "--dep-kinds"@));
        acc = acc + opt_value(opts.dep_kinds, "--dep-kinds"@);
    }
    cmd.arg_if("--show-version", opts.show_version);
    proof {
        lemma_add_assoc(base, acc, opt_flag(opts.show_version, "--show-version"@));
        acc = acc + opt_flag(opts.show_version, "--show-version"@);
    }
    cmd.arg_if("--show-path", opts.show_path);
    proof {
        lemma_add_assoc(base, acc, opt_flag(opts.show_path, "--show-path"@));
        acc = acc + opt_flag(opts.show_path, "--show-path"@);
    }
    cmd.arg_if("--fix", opts.fix);
    proof {
        lemma_add_assoc(base, acc, opt_flag(opts.fix, "--fix"@));
        acc = acc + opt_flag(opts.fix, "--fix"@);
    }
    cmd.arg_opt("--modify-paths", &opts.modify_paths);
    proof {
        lemma_add_assoc(base, acc, opt_value(opts.modify_paths, "--modify-paths"@));
        acc = acc + opt_value(opts.modify_paths, "--modify-paths"@);
    }
    cmd.arg_opt("--fix-dependency", &opts.fix_dependency);
    proof {
        lemma_add_assoc(base, acc, opt_value(opts.fix_dependency, "--fix-dependency"@));
        acc = acc + opt_value(opts.fix_dependency, "--fix-dependency"@);
    }
    cmd.arg_opt("--fix-package", &opts.fix_package);
    proof {
        lemma_add_assoc(base, acc, opt_value(opts.fix_package, "--fix-package"@));
        acc = acc + opt_value(opts.fix_package, "--fix-package"@);
        assert(acc == propagate_feature_args(*opts));
    }
}

/// Append the tokens of the `lint never-enables` subcommand.
pub fn handle_never_enables(cmd: &mut LoggedCommand, opts: &NeverEnablesOptions)
    ensures
        final(cmd).program_view() == old(cmd).program_view(),
        final(cmd).args_view() == old(cmd).args_view() + never_enables_args(*opts),
        final(cmd).cwd_view() == old(cmd).cwd_view(),
{
    cmd.arg("never-enables");
    cmd.arg("--precondition");
    cmd.arg(opts.precondition.as_str());
    cmd.arg("--stays-disabled");
    cmd.arg(opts.stays_disabled.as_str());
    proof {
        assert(cmd.args_view() =~= old(cmd).args_view() + never_enables_args(*opts));
    }
}

/// Append the tokens of the `lint never-implies` subcommand.
pub fn handle_never_implies(cmd: &mut LoggedCommand, opts: &NeverImpliesOptions)
    ensures
        final(cmd).program_view() == old(cmd).program_view(),
        final(cmd).args_view() == old(cmd).args_view() + never_implies_args(*opts),
        final(cmd).cwd_view() == old(cmd).cwd_view(),
{
    cmd.arg("never-implies");
    cmd.arg("--precondition");
    cmd.arg(opts.precondition.as_str());
    cmd.arg("--stays-disabled");
    cmd.arg(opts.stays_disabled.as_str());
    cmd.arg_if("--show-source", opts.show_source);
    cmd.arg_if("--show-version", opts.show_version);
    cmd.arg_opt("--path-delimiter", &opts.path_delimiter);
    proof {
        assert(cmd.args_view() =~= old(cmd).args_view() + never_implies_args(*opts));
    }
}

/// Append the tokens of the `lint only-enables` subcommand.
pub fn handle_only_enables(cmd: &mut LoggedCommand, opts: &OnlyEnablesOptions)
    ensures
        final(cmd).program_view() == old(cmd).program_view(),
        final(cmd).args_view() == old(cmd).args_view() + only_enables_args(*opts),
        final(cmd).cwd_view() == old(cmd).cwd_view(),
{
    cmd.arg("only-enables");
    cmd.arg("--precondition");
    cmd.arg(opts.precondition.as_str());
    cmd.arg("--only-enables");
    cmd.arg(opts.only_enables.as_str());
    cmd.arg_opt("--path-delimiter", &opts.path_delimiter);
    proof {
        assert(cmd.args_view() =~= old(cmd).args_view() + only_enables_args(*opts));
    }
}

/// Append the tokens of the `lint why-enabled` subcommand.
pub fn handle_why_enabled(cmd: &mut LoggedCommand, opts: &WhyEnabledOptions)
    ensures
        final(cmd).program_view() == old(cmd).program_view(),
        final(cmd).args_view() == old(cmd).args_view() + why_enabled_args(*opts),
        final(cmd).cwd_view() == old(cmd).cwd_view(),
{
    cmd.arg("why-enabled");
    cmd.arg("--package");
    cmd.arg(opts.package.as_str());
    cmd.arg("--feature");
    cmd.arg(opts.feature.as_str());
    proof {
        assert(cmd.args_view() =~= old(cmd).args_view() + why_enabled_args(*opts));
    }
}

/// Append the tokens of the `debug` subcommand.
pub fn handle_debug_command(cmd: &mut LoggedCommand, opts: &DebugOptions)
    ensures
        final(cmd).program_view() == old(cmd).program_view(),
        final(cmd).args_view() == old(cmd).args_view() + debug_args(*opts),
        final(cmd).cwd_view() == old(cmd).cwd_view(),
{
    cmd.arg("debug");
    add_optional_args_for_flint_except_run(cmd, &opts.common);
    cmd.arg_if("--no-benchmark", opts.no_benchmark);
    cmd.arg_if("--no-root", opts.no_root);
    proof {
        assert(cmd.args_view() =~= old(cmd).args_view() + debug_args(*opts));
    }
}

/// Append the tokens of the `transpose dependency lift-to-workspace`
/// subcommand.
pub fn handle_transpose_command(cmd: &mut LoggedCommand, opts: &LiftToWorkspaceOptions)
    ensures
        final(cmd).program_view() == old(cmd).program_view(),
        final(cmd).args_view() == old(cmd).args_view() + lift_to_workspace_args(*opts),
        final(cmd).cwd_view() == old(cmd).cwd_view(),
{
    let ghost base = old(cmd).args_view();
    let ghost mut acc: Seq<Seq<char>> = seq!["transpose"@];
    cmd.arg("transpose");
    proof {
        assert(cmd.args_view() =~= base + acc);
    }
    add_optional_args_for_flint_except_run(cmd, &opts.common);
    proof {
        lemma_add_assoc(base, acc, workspace_args(opts.common));
        acc = acc + workspace_args(opts.common);
    }
    cmd.arg("dependency");
    cmd.arg("lift-to-workspace");
    proof {
        lemma_add_assoc(base, acc, seq!["dependency"@, "lift-to-workspace"@]);
        assert(cmd.args_view() =~= (base + acc) + seq!["dependency"@, "lift-to-workspace"@]);
        acc = acc + seq!["dependency"@, "lift-to-workspace"@];
    }
    cmd.arg_if("--fix", opts.fix);
    proof {
        lemma_add_assoc(base, acc, opt_flag(opts.fix, "--fix"@));
        acc = acc + opt_flag(opts.fix, "--fix"@);
    }
    cmd.arg_opt("--version-selector", &opts.version_selector);
    proof {
        lemma_add_assoc(base, acc, opt_value(opts.version_selector, "--version-selector"@));
        acc = acc + opt_value(opts.version_selector, "--version-selector"@);
    }
    cmd.arg_opt("--skip-package", &opts.skip_package);
    proof {
        lemma_add_assoc(base, acc, opt_value(opts.skip_package, "--skip-package"@));
        acc = acc + opt_value(opts.skip_package, "--skip-package"@);
    }
    cmd.arg_opt("--source-location", &opts.source_location);
    proof {
        lemma_add_assoc(base, acc, opt_value(opts.source_location, "--source-location"@));
        acc = acc + opt_value(opts.source_location, "--source-location"@);
    }
    cmd.arg_if("--exact-version", opts.exact_version);
    proof {
        lemma_add_assoc(base, acc, opt_flag(opts.exact_version, "--exact-version"@));
        acc = acc + opt_flag(opts.exact_version, "--exact-version"@);
    }
    cmd.arg_if("--ignore-errors", opts.ignore_errors);
    proof {
        lemma_add_assoc(base, acc, opt_flag(opts.ignore_errors, "--ignore-errors"@));
        acc = acc + opt_flag(opts.ignore_errors, "--ignore-errors"@);
        assert(acc == lift_to_workspace_args(*opts));
    }
}

/// The probe that decides whether `zepter` is installed.
pub fn zepter_probe_command() -> (r: LoggedCommand)
    ensures
        r.program_view() == "zepter"@,
        r.args_view() == seq!["--version"@],
        r.cwd_view() is None,
{
    let mut cmd = LoggedCommand::new("zepter");
    cmd.arg("--version");
    proof {
        assert(cmd.args_view() =~= seq!["--version"@]);
    }
    cmd
}

/// The one-shot installation of `zepter`, run when the probe failed.
pub fn install_zepter() -> (r: LoggedCommand)
    ensures
        r.program_view() == "cargo"@,
        r.args_view() == seq!["install"@, "zepter"@, "-f"@, "--locked"@],
        r.cwd_view() is None,
{
    let mut cmd = LoggedCommand::new("cargo");
    cmd.arg("install");
    cmd.arg("zepter");
    cmd.arg("-f");
    cmd.arg("--locked");
    proof {
        assert(cmd.args_view() =~= seq!["install"@, "zepter"@, "-f"@, "--locked"@]);
    }
    cmd
}

} // verus!
