//! Fresh identifiers.

use vstd::prelude::*;
use vstd::string::*;

verus! {

/// `Uuid::now_v7` of uuid in its hyphenated form: 36 characters. Which ones rests on the time and on
/// chance, and nothing is said of them.
#[verifier::external_body]
pub(crate) fn fresh_identifier() -> (id: String)
    ensures
        id@.len() == 36,
{
    uuid::Uuid::now_v7().to_string()
}

} // verus!
