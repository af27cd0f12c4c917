//! Documentation anchor for the workspace; the project's documentation lives
//! beside the code.
use vstd::prelude::*;

verus! {

/// Identifies the documentation package.
pub fn crate_name() -> (s: &'static str)
    ensures
        s@ == "docs"@,
{
    "docs"
}

} // verus!
