//! The raw row shapes, one per source table, as the storage layer hands
//! them over: named tuples of primitive fields. The conversion layer turns
//! them into the validated domain records.
use vstd::prelude::*;

verus! {

/// A raw row of the join/leave log table.
#[derive(Debug, Clone, PartialEq, Eq, Hash)]
pub struct GamelogJoinLeaveRow {
    pub id: i64,
    pub created_at: crate::timestamp::Timestamp,
    pub event: String,
    pub display_name: String,
    pub location: String,
    pub user_id: String,
    pub time: i64,
}

/// A raw row of the location-visit log table.
#[derive(Debug, Clone, PartialEq, Eq, Hash)]
pub struct GamelogLocationRow {
    pub id: i64,
    pub created_at: crate::timestamp::Timestamp,
    pub location: String,
    pub world_id: String,
    pub world_name: String,
    pub time: i64,
    pub group_name: String,
}

/// A raw row of the friend/trust snapshot table.
#[derive(Debug, Clone, PartialEq, Eq, Hash)]
pub struct UsrFriendLogCurrentRow {
    pub user_id: String,
    pub display_name: String,
    pub trust_level: String,
}

/// A raw row of the sqlite schema table.
#[derive(Debug, Clone, PartialEq, Eq, Hash)]
pub struct SqliteMaster {
    pub type_: String,
    pub name: String,
    pub tbl_name: String,
    pub rootpage: i32,
    pub sql: String,
}

} // verus!
