//! Guard lines: what a version writes ahead of the declaration that it
//! restricts.

use crate::model::{Version, VersionModel};
use vstd::prelude::*;

verus! {

/// What a version writes ahead of a declaration: its guard line, if it has
/// one, and nothing otherwise.
pub open spec fn guard_text(version: Option<VersionModel>) -> Seq<char> {
    match version {
        Some(Some(line)) => line + "\n"@,
        _ => Seq::empty(),
    }
}

/// Writes the guard of a version, where there is a version and it has one.
pub fn push_guard(out: &mut String, version: &Option<Version>)
    ensures
        final(out)@ == old(out)@ + guard_text(version.deep_view()),
{
    match version {
        Some(v) => match &v.guard {
            Some(line) => {
                out.append(line.as_str());
                out.append("\n");
            },
            None => {
            },
        },
        None => {
        },
    }
}

} // verus!
