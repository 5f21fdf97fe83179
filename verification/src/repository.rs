//! The generic repository layer: the condition model that drives every
//! operation, its lowering into the document store's native query shape, and
//! the page-result record handed back by paginated reads.

use vstd::prelude::*;

pub mod condition;
pub mod mongo;

verus! {

/// One page of results: the records of the requested window and, when the
/// caller asked for it, the total number of matches ignoring pagination.
/// `None` means the caller opted out of counting.
pub struct PageResult<T> {
    pub datas: Vec<T>,
    pub count: Option<i64>,
}

} // verus!
