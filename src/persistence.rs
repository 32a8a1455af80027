//! Where the resumable state of a download lives on disk.
use vstd::prelude::*;

verus! {

/// Path of the state file kept next to a partial file: the partial file's
/// path with ".state" appended.
pub fn get_state_file_path(filepath: &str) -> (r: String)
    ensures
        r@ == filepath@ + ".state"@,
{
    String::from_str(filepath).concat(".state")
}

} // verus!
