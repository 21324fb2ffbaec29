//! The message contracts: operation requests and the read result.

use vstd::prelude::*;
use crate::state::Addr;

verus! {

/// Metadata of the incoming message: the caller identity supplied by the host.
pub struct MessageInfo {
    pub sender: Addr,
}

/// The initialization input: the starting counter value.
pub struct InstantiateMsg {
    pub count: i32,
}

/// A write operation request.
pub enum ExecuteMsg {
    Increment {},
    Reset { count: i32 },
}

/// A read operation request.
pub enum QueryMsg {
    GetCount {},
}

/// The result of a count query.
#[derive(Clone, Copy, Debug, PartialEq, Eq, Structural)]
pub struct CountResponse {
    pub count: i32,
}

} // verus!
