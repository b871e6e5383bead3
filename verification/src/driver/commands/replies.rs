//! What commands do with the members of an answer.

use crate::driver::step::{Then, ThenView};
use crate::value::{Json, JsonView};
use vstd::prelude::*;

verus! {

/// Reply with a member of the answer, or with the default.
pub open spec fn member_then(key: Seq<char>, default: JsonView) -> ThenView {
    ThenView::Member { key, default }
}

/// Reply with a member of the answer, or with the default.
pub fn member(key: &str, default: Json) -> (r: Then)
    ensures
        r@ == member_then(key@, default@),
{
    Then::Member { key: key.to_owned(), default }
}

} // verus!
