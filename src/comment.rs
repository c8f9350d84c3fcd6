//! What a listed course comment reveals of its author.

use vstd::prelude::*;

verus! {

/// The grade and the author as a comment listing shows them: the grade only
/// where the author was willing to share it, the author only where the
/// comment is not anonymous.
pub fn redact_comment<G>(
    gpa: Option<G>,
    comment_by: Option<String>,
    willing: bool,
    anonymous: bool,
) -> (r: (Option<G>, Option<String>))
    ensures
        r.0 == if willing {
            gpa
        } else {
            None
        },
        r.1 == if anonymous {
            None
        } else {
            comment_by
        },
{
    let shown_gpa = if willing {
        gpa
    } else {
        None
    };
    let shown_by = if anonymous {
        None
    } else {
        comment_by
    };
    (shown_gpa, shown_by)
}

} // verus!
