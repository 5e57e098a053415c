//! The authorization fence: the generations under which a caller was authorized.

use vstd::prelude::*;

use crate::error::Fault;
use crate::row::FromRow;
use crate::row::Row;

verus! {

/// The generations that a fence statement reads while it locks the rows that carry them.
#[derive(Clone, Copy, Debug, PartialEq, Eq, Structural)]
pub struct FenceGenerations {
    pub membership: i64,
    pub drive_acl: i64,
    pub namespace: i64,
    pub resource_acl: i64,
}

impl FenceGenerations {
    /// Whether these are the expected generations: membership, drive access control,
    /// namespace, resource access control.
    pub open spec fn agrees_with(self, expected: Seq<i64>) -> bool {
        expected == seq![self.membership, self.drive_acl, self.namespace, self.resource_acl]
    }

    /// Whether these are the expected generations.
    pub fn agree(self, expected: [i64; 4]) -> (r: bool)
        ensures
            r == self.agrees_with(expected@),
    {
        let same: bool = expected[0] == self.membership && expected[1] == self.drive_acl
            && expected[2] == self.namespace && expected[3] == self.resource_acl;
        proof {
            let current = seq![self.membership, self.drive_acl, self.namespace, self.resource_acl];
            if same {
                assert(expected@ =~= current);
            } else {
                assert(expected@[0] != current[0] || expected@[1] != current[1] || expected@[2]
                    != current[2] || expected@[3] != current[3]);
            }
        }
        same
    }
}

impl FromRow for FenceGenerations {
    open spec fn row_spec(row: Row) -> Result<FenceGenerations, Fault> {
        match (
            row.column::<i64>("membership_generation"@),
            row.column::<i64>("drive_acl_generation"@),
            row.column::<i64>("namespace_generation"@),
            row.column::<i64>("resource_acl_generation"@),
        ) {
            (Some(membership), Some(drive_acl), Some(namespace), Some(resource_acl)) => Ok(
                FenceGenerations { membership, drive_acl, namespace, resource_acl },
            ),
            _ => Err(Fault::Malformed),
        }
    }

    fn from_row(row: &Row) -> (r: Result<FenceGenerations, Fault>) {
        match (
            row.get::<i64>("membership_generation"),
            row.get::<i64>("drive_acl_generation"),
            row.get::<i64>("namespace_generation"),
            row.get::<i64>("resource_acl_generation"),
        ) {
            (Some(membership), Some(drive_acl), Some(namespace), Some(resource_acl)) => Ok(
                FenceGenerations { membership, drive_acl, namespace, resource_acl },
            ),
            _ => Err(Fault::Malformed),
        }
    }
}

} // verus!
