use vstd::prelude::*;

verus! {

/// One page of a list the Web API hands out in parts.
#[derive(Debug, Clone, PartialEq, Eq)]
pub struct Page<T> {
    pub href: Option<String>,
    pub items: Vec<T>,
    pub limit: Option<u32>,
    pub next: Option<String>,
    pub offset: Option<u32>,
    pub previous: Option<String>,
    pub total: Option<u32>,
}

} // verus!
