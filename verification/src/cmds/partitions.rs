use crate::metastore::{Request, RequestView};
use vstd::prelude::*;

verus! {

/// The largest number of partition names that `get-partitions` asks for.
pub const PARTITION_NAMES_LIMIT: i16 = 10;

/// Get the partition names of a table.
#[derive(Debug, Clone, PartialEq, Eq)]
pub struct GetPartitions {
    pub database: String,
    pub table: String,
}

impl GetPartitions {
    /// The call that lists at most ten partition names of the table.
    pub open spec fn spec_call(self) -> RequestView {
        RequestView::GetPartitionNames {
            db_name: self.database@,
            tbl_name: self.table@,
            max_parts: PARTITION_NAMES_LIMIT,
        }
    }

    pub fn call(&self) -> (r: Request)
        ensures
            r@ == self.spec_call(),
    {
        Request::GetPartitionNames {
            db_name: self.database.clone(),
            tbl_name: self.table.clone(),
            max_parts: PARTITION_NAMES_LIMIT,
        }
    }
}

/// Get the names of the partitions of a table whose values match the given
/// partial specification.
#[derive(Debug, Clone, PartialEq, Eq)]
pub struct GetPartitionNamesByParts {
    pub database: String,
    pub table: String,
    pub part_vals: Vec<String>,
    pub max_parts: i16,
}

impl GetPartitionNamesByParts {
    /// The call that lists the matching partition names, with the limit given.
    pub open spec fn spec_call(self) -> RequestView {
        RequestView::GetPartitionNamesPs {
            db_name: self.database@,
            tbl_name: self.table@,
            part_vals: self.part_vals.deep_view(),
            max_parts: self.max_parts,
        }
    }

    pub fn call(&self) -> (r: Request)
        ensures
            r@ == self.spec_call(),
    {
        let part_vals = self.part_vals.clone();
        assert(part_vals.deep_view() =~= self.part_vals.deep_view());
        Request::GetPartitionNamesPs {
            db_name: self.database.clone(),
            tbl_name: self.table.clone(),
            part_vals,
            max_parts: self.max_parts,
        }
    }
}

} // verus!
