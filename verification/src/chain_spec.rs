//! Chain-specification relocation planning.
//!
//! A generated `chain_spec.json` is looked for in a small set of
//! candidate directories and moved into a fixed destination directory.
//! The host probes the filesystem and performs the move; choosing the
//! source, the paths, and the error wording is pure.

use vstd::prelude::*;
use vstd::string::StringExecFns;

verus! {

/// The directories searched for a generated `chain_spec.json`, in order.
pub fn chain_spec_search_dirs() -> (r: Vec<String>)
    ensures
        r.deep_view() == seq!["./"@, "../"@],
{
    let mut r: Vec<String> = Vec::new();
    r.push("./".to_owned());
    r.push("../".to_owned());
    proof {
        assert(r.deep_view() =~= seq!["./"@, "../"@]);
    }
    r
}

/// The path of a `chain_spec.json` inside the given directory.  The
/// candidate directories all end in a separator, so plain concatenation
/// forms the path.
pub fn chain_spec_file_in(dir: &str) -> (r: String)
    ensures
        r@ == dir@ + "chain_spec.json"@,
{
    let mut s = dir.to_owned();
    s.append("chain_spec.json");
    s
}

/// The fixed path the chain specification is moved to.
pub fn chain_spec_destination() -> (r: &'static str)
    ensures
        r@ == "./chain-specs/chain_spec.json"@,
{
    "./chain-specs/chain_spec.json"
}

/// Pick the source of the move: the first candidate directory that holds
/// the file.  `present` records, per candidate, whether the probe found
/// `chain_spec.json` there.  When no candidate holds the file the plan
/// is the not-found report, and nothing is to be touched.
pub fn move_chain_spec_plan(present: &[bool]) -> (r: Result<usize, String>)
    ensures
        match r {
            Ok(i) => i < present@.len() && present@[i as int] && (forall|k: int|
                0 <= k < i ==> !present@[k]),
            Err(m) => (forall|k: int| 0 <= k < present@.len() ==> !present@[k]) && m@
                == "chain_spec.json not found in the specified directories."@,
        },
{
    let mut i: usize = 0;
    while i < present.len()
        invariant
            i <= present@.len(),
            forall|k: int| 0 <= k < i ==> !present@[k],
        decreases present@.len() - i,
    {
        if present[i] {
            return Ok(i);
        }
        i += 1;
    }
    Err("chain_spec.json not found in the specified directories.".to_owned())
}

/// The report for a destination directory that could not be created,
/// carrying the host's rendering of the underlying error.
pub fn create_dir_error(detail: &str) -> (r: String)
    ensures
        r@ == "Failed to create chain-specs directory: "@ + detail@,
{
    let mut s = String::from_str("Failed to create chain-specs directory: ");
    s.append(detail);
    s
}

/// The report for a move that failed, carrying the host's rendering of
/// the underlying error.
pub fn move_file_error(detail: &str) -> (r: String)
    ensures
        r@ == "Failed to move chain_spec.json: "@ + detail@,
{
    let mut s = String::from_str("Failed to move chain_spec.json: ");
    s.append(detail);
    s
}

} // verus!
