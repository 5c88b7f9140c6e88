//! The welcome window's about dialog: where issues are reported.
use vstd::prelude::*;
use vstd::string::*;

verus! {

/// The address of the project's issue tracker: the project's address
/// followed by `/issues`.
pub fn issue_url(project_url: &str) -> (r: String)
    ensures
        r@ == project_url@ + "/issues"@,
{
    let mut r = project_url.to_owned();
    r.append("/issues");
    r
}

} // verus!
