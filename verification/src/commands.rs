//! The wording of the failures that the file commands report.

use vstd::prelude::*;
use vstd::string::*;

verus! {

/// The message for a file at `path` that could not be read because of `cause`.
pub open spec fn read_failure_of(path: Seq<char>, cause: Seq<char>) -> Seq<char> {
    "Failed to read "@ + path + ": "@ + cause
}

/// The message for a file at `path` that could not be written because of `cause`.
pub open spec fn write_failure_of(path: Seq<char>, cause: Seq<char>) -> Seq<char> {
    "Failed to write "@ + path + ": "@ + cause
}

/// Words the failure to read the file at `path`; `cause` is the system's own account.
pub fn read_failure(path: &str, cause: &str) -> (r: String)
    ensures
        r@ == read_failure_of(path@, cause@),
{
    "Failed to read ".to_owned().concat(path).concat(": ").concat(cause)
}

/// Words the failure to write the file at `path`; `cause` is the system's own account.
pub fn write_failure(path: &str, cause: &str) -> (r: String)
    ensures
        r@ == write_failure_of(path@, cause@),
{
    "Failed to write ".to_owned().concat(path).concat(": ").concat(cause)
}

} // verus!
