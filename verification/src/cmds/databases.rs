use crate::metastore::{Request, RequestView};
use vstd::prelude::*;

verus! {

/// Get all databases in the metastore.
#[derive(Debug, Clone, Copy, PartialEq, Eq)]
pub struct GetDatabases;

impl GetDatabases {
    /// The call that lists the databases.
    pub fn call(&self) -> (r: Request)
        ensures
            r@ == RequestView::GetAllDatabases,
    {
        Request::GetAllDatabases
    }
}

} // verus!
