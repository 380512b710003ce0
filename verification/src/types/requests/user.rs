use vstd::prelude::*;

verus! {

/// Body naming the kind of a user's top items; `kind` is sent as `type`.
#[derive(Debug, Clone, PartialEq, Eq)]
pub struct UserTopRequest {
    pub kind: String,
}

} // verus!
