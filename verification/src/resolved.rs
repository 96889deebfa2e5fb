//! What paths resolve to, as the host found it.

use crate::error::{config_error3, is_config_error, RuntimeError, Verdict};
use crate::text::{contains_text, parts_are_contained, same_text};
use vstd::prelude::*;
use vstd::string::*;

verus! {

/// What a path resolves to.
#[derive(Debug)]
pub struct ResolvedPath {
    pub path: String,
    /// The canonical path, or why there is none.
    pub canonical: Result<String, RuntimeError>,
    /// Whether it is a regular file.
    pub regular: bool,
}

/// The first finding of a path.
pub open spec fn finding_of(list: Seq<ResolvedPath>, path: Seq<char>) -> Option<ResolvedPath>
    decreases list.len(),
{
    if list.len() == 0 {
        None
    } else if list[0].path@ == path {
        Some(list[0])
    } else {
        finding_of(list.skip(1), path)
    }
}

/// The canonical path and whether it is a regular file, or the failure.
pub open spec fn resolution(list: Seq<ResolvedPath>, path: Seq<char>) -> Result<(Seq<char>, bool), Verdict> {
    match finding_of(list, path) {
        None => Err(Verdict::Reject("path "@ + path + " was not resolved"@)),
        Some(found) => match found.canonical {
            Ok(canonical) => Ok((canonical@, found.regular)),
            Err(error) => Err(Verdict::Forward(error)),
        },
    }
}

/// The outcome is exactly this resolution.
pub open spec fn resolves(
    result: Result<(String, bool), RuntimeError>,
    expected: Result<(Seq<char>, bool), Verdict>,
) -> bool {
    match expected {
        Ok((path, regular)) => result matches Ok((found, flag)) && found@ == path && flag == regular,
        Err(Verdict::Reject(text)) => is_config_error(result, text),
        Err(Verdict::Forward(error)) => result == Err::<(String, bool), RuntimeError>(error),
        Err(Verdict::Accept) => false,
    }
}

/// The canonical path of a path, and whether it is a regular file.
pub fn resolve(list: &Vec<ResolvedPath>, path: &str) -> (result: Result<(String, bool), RuntimeError>)
    ensures
        resolves(result, resolution(list@, path@)),
{
    let mut i: usize = 0;
    proof {
        assert(list@.skip(0) =~= list@);
    }
    while i < list.len()
        invariant
            i <= list@.len(),
            finding_of(list@, path@) == finding_of(list@.skip(i as int), path@),
        decreases list@.len() - i,
    {
        proof {
            assert(list@.skip(i as int)[0] == list@[i as int]);
            assert(list@.skip(i as int).skip(1) =~= list@.skip(i + 1));
        }
        if same_text(list[i].path.as_str(), path) {
            return match &list[i].canonical {
                Ok(canonical) => Ok((canonical.clone(), list[i].regular)),
                Err(error) => Err(error.clone()),
            };
        }
        i = i + 1;
    }
    config_error3("path ", path, " was not resolved")
}

/// A path is resolved as it was found, by the first finding for it; a path that nobody looked at is
/// refused, and the refusal names it.
pub proof fn paths_are_resolved_as_found(list: Seq<ResolvedPath>, one: ResolvedPath, path: Seq<char>)
    ensures
        one.canonical is Ok ==> resolution(seq![one] + list, one.path@) == Ok::<(Seq<char>, bool), Verdict>(
            (one.canonical->Ok_0@, one.regular),
        ),
        one.canonical is Err ==> resolution(seq![one] + list, one.path@) == Err::<(Seq<char>, bool), Verdict>(
            Verdict::Forward(one.canonical->Err_0),
        ),
        path != one.path@ ==> resolution(seq![one] + list, path) == resolution(list, path),
        resolution(Seq::empty(), path) matches Err(Verdict::Reject(text)) && contains_text(text, path),
{
    let all = seq![one] + list;
    assert(all.skip(1) == list);
    assert(all[0] == one);
    parts_are_contained("path "@, path, " was not resolved"@);
    assert(finding_of(Seq::empty(), path) is None);
}

/// A resolved path is the one expected, with what is known of its kind.
pub proof fn resolved_paths_are_the_expected_ones(
    result: Result<(String, bool), RuntimeError>,
    expected: Result<(Seq<char>, bool), Verdict>,
)
    requires
        resolves(result, expected),
    ensures
        result is Ok <==> expected is Ok,
        expected matches Ok((path, regular)) ==> (result matches Ok((found, flag)) && found@ == path && flag
            == regular),
{
}

} // verus!
