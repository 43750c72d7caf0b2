//! The discovery decision: which walk entries mark a repository.

use vstd::prelude::*;

verus! {

/// The fixed name of the metadata directory that marks a repository root.
pub open spec fn marker_name() -> Seq<char> {
    ".git"@
}

/// Whether a walk entry is a marker: a directory whose name is exactly the
/// marker name. The directory reported for it is the entry's parent.
pub fn is_marker(is_dir: bool, name: &str) -> (r: bool)
    ensures
        r == (is_dir && name@ == marker_name()),
{
    if !is_dir {
        return false;
    }
    let nm: String = name.to_owned();
    let mk: String = String::from_str(".git");
    nm == mk
}

} // verus!
