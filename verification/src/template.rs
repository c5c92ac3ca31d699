//! Template installation: validate the template name, clone the matching
//! template repository if it is not present, and run it in development
//! mode.

use vstd::prelude::*;
use vstd::string::StringExecFns;
use crate::runner::LoggedCommand;
use crate::text::eq_str;

verus! {

/// The template names the wrapper accepts.
pub open spec fn valid_template(name: Seq<char>) -> bool {
    name == "minimal"@ || name == "parachain"@ || name == "solochain"@
}

/// Whether a template name is one the wrapper accepts; any other name
/// is rejected before anything is cloned or run.
pub fn is_valid_template(name: &str) -> (r: bool)
    ensures
        r == valid_template(name@),
{
    eq_str(name, "minimal") || eq_str(name, "parachain") || eq_str(name, "solochain")
}

/// The chain names the wrapper accepts for chain-spec generation.
pub open spec fn valid_chain_spec(name: Seq<char>) -> bool {
    name == "westend"@ || name == "paseo"@ || name == "rococo"@
}

/// Whether a chain name is one the wrapper accepts.
pub fn is_valid_chain_spec(name: &str) -> (r: bool)
    ensures
        r == valid_chain_spec(name@),
{
    eq_str(name, "westend") || eq_str(name, "paseo") || eq_str(name, "rococo")
}

/// The directory a template is cloned into.
pub fn template_destination(template: &str) -> (r: String)
    ensures
        r@ == "./templates/"@ + template@ + "-template"@,
{
    let mut s = String::from_str("./templates/");
    s.append(template);
    s.append("-template");
    s
}

/// The repository a template is cloned from.
pub fn template_repo_url(template: &str) -> (r: String)
    ensures
        r@ == "https://github.com/paritytech/polkadot-sdk-"@ + template@ + "-template.git"@,
{
    let mut s = String::from_str("https://github.com/paritytech/polkadot-sdk-");
    s.append(template);
    s.append("-template.git");
    s
}

/// The command that quietly clones the template repository into its
/// destination directory.
pub fn clone_template_command(template: &str) -> (r: LoggedCommand)
    ensures
        r.program_view() == "git"@,
        r.args_view() == seq![
            "clone"@,
            "--quiet"@,
            "https://github.com/paritytech/polkadot-sdk-"@ + template@ + "-template.git"@,
            "./templates/"@ + template@ + "-template"@,
        ],
        r.cwd_view() is None,
{
    let url = template_repo_url(template);
    let destination = template_destination(template);
    let mut cmd = LoggedCommand::new("git");
    cmd.arg("clone");
    cmd.arg("--quiet");
    cmd.arg(url.as_str());
    cmd.arg(destination.as_str());
    proof {
        assert(cmd.args_view() =~= seq![
            "clone"@,
            "--quiet"@,
            "https://github.com/paritytech/polkadot-sdk-"@ + template@ + "-template.git"@,
            "./templates/"@ + template@ + "-template"@,
        ]);
    }
    cmd
}

/// The command that runs the cloned template in development mode, inside
/// its own directory, forwarding the caller's extra arguments.
pub fn run_template(template: &str, args: &[String]) -> (r: LoggedCommand)
    ensures
        r.program_view() == "cargo"@,
        r.args_view() == seq!["run"@, "--release"@, "--"@, "--dev"@] + args.deep_view(),
        r.cwd_view() == Some("./templates/"@ + template@ + "-template"@),
{
    let destination = template_destination(template);
    let mut cmd = LoggedCommand::new("cargo");
    cmd.arg("run");
    cmd.arg("--release");
    cmd.arg("--");
    cmd.arg("--dev");
    proof {
        assert(cmd.args_view() =~= seq!["run"@, "--release"@, "--"@, "--dev"@]);
    }
    cmd.args_from(args);
    cmd.current_dir(destination.as_str());
    cmd
}

} // verus!
