//! The code-formatting pass-through: every option of the wrapper's
//! `format` subcommand maps one-to-one onto a flag of `cargo +nightly
//! fmt`.

use vstd::prelude::*;
use crate::runner::LoggedCommand;
use crate::runner::lemma_contains_add;
use crate::runner::lemma_opt_flag_contains;
use crate::runner::lemma_opt_value_contains;
use crate::runner::opt_flag;
use crate::runner::opt_value;

verus! {

/// The parsed options of the `format` subcommand.
pub struct FormatOptions {
    pub quiet: bool,
    pub verbose: bool,
    pub version: bool,
    pub package: Option<String>,
    pub manifest_path: Option<String>,
    pub message_format: Option<String>,
    pub all: bool,
    pub check: bool,
}

/// The argument list handed to `cargo`: the fixed `+nightly fmt` prefix,
/// then, in this order, exactly the flags whose option was set, each
/// value-carrying flag followed by its value.
pub open spec fn format_args(opts: FormatOptions) -> Seq<Seq<char>> {
    seq!["+nightly"@, "fmt"@] + opt_flag(opts.quiet, "--quiet"@) + opt_flag(
        opts.verbose,
        "--verbose"@,
    ) + opt_flag(opts.version, "--version"@) + opt_value(opts.package, "--package"@) + opt_value(
        opts.manifest_path,
        "--manifest-path"@,
    ) + opt_value(opts.message_format, "--message-format"@) + opt_flag(opts.all, "--all"@)
        + opt_flag(opts.check, "--check"@)
}

/// The tokens that the formatter adapter uses as flags.
pub open spec fn format_flag_token(x: Seq<char>) -> bool {
    x == "--quiet"@ || x == "--verbose"@ || x == "--version"@ || x == "--package"@ || x
        == "--manifest-path"@ || x == "--message-format"@ || x == "--all"@ || x == "--check"@
}

/// A token occurs in the formatter's argument list exactly when it is
/// part of the fixed prefix, a flag whose option was set, or the value
/// of an option that was given.
pub proof fn lemma_format_args_contains(opts: FormatOptions, x: Seq<char>)
    ensures
        format_args(opts).contains(x) <==> (x == "+nightly"@ || x == "fmt"@ || (opts.quiet && x
            == "--quiet"@) || (opts.verbose && x == "--verbose"@) || (opts.version && x
            == "--version"@) || (opts.package matches Some(v) && (x == "--package"@ || x == v@)) || (
        opts.manifest_path matches Some(v) && (x == "--manifest-path"@ || x == v@)) || (
        opts.message_format matches Some(v) && (x == "--message-format"@ || x == v@)) || (opts.all
            && x == "--all"@) || (opts.check && x == "--check"@)),
{
    let p = seq!["+nightly"@, "fmt"@];
    let s1 = p + opt_flag(opts.quiet, "--quiet"@);
    let s2 = s1 + opt_flag(opts.verbose, "--verbose"@);
    let s3 = s2 + opt_flag(opts.version, "--version"@);
    let s4 = s3 + opt_value(opts.package, "--package"@);
    let s5 = s4 + opt_value(opts.manifest_path, "--manifest-path"@);
    let s6 = s5 + opt_value(opts.message_format, "--message-format"@);
    let s7 = s6 + opt_flag(opts.all, "--all"@);
    if x == "+nightly"@ {
        assert(p[0] == x);
    }
    if x == "fmt"@ {
        assert(p[1] == x);
    }
    if p.contains(x) {
        let i = choose|i: int| 0 <= i < p.len() && p[i] == x;
        assert(i == 0 || i == 1);
    }
    lemma_opt_flag_contains(opts.quiet, "--quiet"@, x);
    lemma_opt_flag_contains(opts.verbose, "--verbose"@, x);
    lemma_opt_flag_contains(opts.version, "--version"@, x);
    lemma_opt_value_contains(opts.package, "--package"@, x);
    lemma_opt_value_contains(opts.manifest_path, "--manifest-path"@, x);
    lemma_opt_value_contains(opts.message_format, "--message-format"@, x);
    lemma_opt_flag_contains(opts.all, "--all"@, x);
    lemma_opt_flag_contains(opts.check, "--check"@, x);
    lemma_contains_add(p, opt_flag(opts.quiet, "--quiet"@), x);
    lemma_contains_add(s1, opt_flag(opts.verbose, "--verbose"@), x);
    lemma_contains_add(s2, opt_flag(opts.version, "--version"@), x);
    lemma_contains_add(s3, opt_value(opts.package, "--package"@), x);
    lemma_contains_add(s4, opt_value(opts.manifest_path, "--manifest-path"@), x);
    lemma_contains_add(s5, opt_value(opts.message_format, "--message-format"@), x);
    lemma_contains_add(s6, opt_flag(opts.all, "--all"@), x);
    lemma_contains_add(s7, opt_flag(opts.check, "--check"@), x);
}

/// Law: flag presence is bijective with argument-list membership.  For
/// every combination of options whose values are not themselves flag
/// tokens, the formatter's argument list contains a flag exactly when
/// the corresponding option was set.
pub proof fn lemma_format_flag_bijection(opts: FormatOptions)
    requires
        opts.package matches Some(v) ==> !format_flag_token(v@),
        opts.manifest_path matches Some(v) ==> !format_flag_token(v@),
        opts.message_format matches Some(v) ==> !format_flag_token(v@),
    ensures
        format_args(opts).contains("--quiet"@) <==> opts.quiet,
        format_args(opts).contains("--verbose"@) <==> opts.verbose,
        format_args(opts).contains("--version"@) <==> opts.version,
        format_args(opts).contains("--package"@) <==> opts.package is Some,
        format_args(opts).contains("--manifest-path"@) <==> opts.manifest_path is Some,
        format_args(opts).contains("--message-format"@) <==> opts.message_format is Some,
        format_args(opts).contains("--all"@) <==> opts.all,
        format_args(opts).contains("--check"@) <==> opts.check,
{
    reveal_strlit("+nightly");
    reveal_strlit("fmt");
    reveal_strlit("--quiet");
    reveal_strlit("--verbose");
    reveal_strlit("--version");
    reveal_strlit("--package");
    reveal_strlit("--manifest-path");
    reveal_strlit("--message-format");
    reveal_strlit("--all");
    reveal_strlit("--check");
    assert("+nightly"@.len() == 8);
    assert("fmt"@.len() == 3);
    assert("--quiet"@.len() == 7);
    assert("--verbose"@.len() == 9);
    assert("--version"@.len() == 9);
    assert("--package"@.len() == 9);
    assert("--manifest-path"@.len() == 15);
    assert("--message-format"@.len() == 16);
    assert("--all"@.len() == 5);
    assert("--check"@.len() == 7);
    assert("--verbose"@[5] == 'b' && "--version"@[5] == 's' && "--package"@[5] == 'k');
    assert("--quiet"@[2] == 'q' && "--check"@[2] == 'c');
    lemma_format_args_contains(opts, "--quiet"@);
    lemma_format_args_contains(opts, "--verbose"@);
    lemma_format_args_contains(opts, "--version"@);
    lemma_format_args_contains(opts, "--package"@);
    lemma_format_args_contains(opts, "--manifest-path"@);
    lemma_format_args_contains(opts, "--message-format"@);
    lemma_format_args_contains(opts, "--all"@);
    lemma_format_args_contains(opts, "--check"@);
}

/// Build the `cargo +nightly fmt` invocation for the given options.
pub fn run_format(opts: &FormatOptions) -> (r: LoggedCommand)
    ensures
        r.program_view() == "cargo"@,
        r.args_view() == format_args(*opts),
        r.cwd_view() is None,
{
    let mut cmd = LoggedCommand::new("cargo");
    cmd.arg("+nightly");
    cmd.arg("fmt");
    proof {
        assert(Seq::<Seq<char>>::empty().push("+nightly"@).push("fmt"@) =~= seq![
            "+nightly"@,
            "fmt"@,
        ]);
    }
    cmd.arg_if("--quiet", opts.quiet);
    cmd.arg_if("--verbose", opts.verbose);
    cmd.arg_if("--version", opts.version);
    cmd.arg_opt("--package", &opts.package);
    cmd.arg_opt("--manifest-path", &opts.manifest_path);
    cmd.arg_opt("--message-format", &opts.message_format);
    cmd.arg_if("--all", opts.all);
    cmd.arg_if("--check", opts.check);
    cmd
}

} // verus!
