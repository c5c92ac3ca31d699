//! Operating-system classification.
//!
//! The host reads the platform name and, on request, the contents of
//! `/proc/version`; the classification itself is pure.  A Windows kernel
//! whose `/proc/version` names Microsoft is running under WSL2.

use vstd::prelude::*;
use vstd::string::StringExecFns;
use crate::text::contains_seq;
use crate::text::contains_str;
use crate::text::eq_str;

verus! {

/// The label for a platform: the platform name itself for the known
/// ones, with Windows refined by the WSL probe, and a diagnostic label
/// for anything else.
pub open spec fn os_label(os: Seq<char>, wsl: bool) -> Seq<char> {
    if os == "macos"@ {
        "macos"@
    } else if os == "linux"@ {
        "linux"@
    } else if os == "windows"@ {
        if wsl {
            "windows-wsl2"@
        } else {
            "windows"@
        }
    } else {
        "Unknown operating system: "@ + os
    }
}

/// Whether the contents of `/proc/version`, if that file exists, name
/// Microsoft: the mark of a WSL kernel.  The host hands in `None` when
/// the file is absent or unreadable.
pub fn is_wsl(proc_version: &Option<String>) -> (r: bool)
    ensures
        r == (proc_version matches Some(contents) && contains_seq(contents@, "Microsoft"@)),
{
    match proc_version {
        Some(contents) => contains_str(contents.as_str(), "Microsoft"),
        None => false,
    }
}

/// Classify a platform name, using the already-computed WSL probe for
/// the Windows case.
pub fn check_operating_system(os: &str, wsl: bool) -> (r: String)
    ensures
        r@ == os_label(os@, wsl),
{
    if eq_str(os, "macos") {
        "macos".to_owned()
    } else if eq_str(os, "linux") {
        "linux".to_owned()
    } else if eq_str(os, "windows") {
        if wsl {
            "windows-wsl2".to_owned()
        } else {
            "windows".to_owned()
        }
    } else {
        let mut s = String::from_str("Unknown operating system: ");
        s.append(os);
        s
    }
}

/// The operating-system label for the given platform name and
/// `/proc/version` contents.
pub fn get_os_info(os: &str, proc_version: &Option<String>) -> (r: String)
    ensures
        r@ == os_label(
            os@,
            proc_version matches Some(contents) && contains_seq(contents@, "Microsoft"@),
        ),
{
    let wsl = is_wsl(proc_version);
    check_operating_system(os, wsl)
}

} // verus!
