//! The messages of the HTTP API.
use vstd::prelude::*;
use vstd::string::StringExecFns;

use crate::models::{Device, User};

verus! {

/// The answer to a status request.
pub struct StatusResponse {
    pub status: String,
    pub version: String,
}

/// The devices NetWatch knows.
pub struct DevicesResponse {
    pub devices: Vec<Device>,
}

/// The users NetWatch knows.
pub struct UsersResponse {
    pub users: Vec<User>,
}

/// A request to create a user.
pub struct CreateUserRequest {
    pub name: String,
}

/// A request to assign a device to a user, or to no user.
pub struct AssignUserRequest {
    pub user_id: Option<i64>,
}

/// The date range of a usage request, as `YYYY-MM-DD` dates.
pub struct UsageQuery {
    pub start_date: String,
    pub end_date: String,
}

/// Bytes received and sent in a date range.
pub struct UsageResponse {
    pub rx_bytes: u64,
    pub tx_bytes: u64,
}

impl StatusResponse {
    /// The status of a running service of version `version`.
    pub fn online(version: &str) -> (r: Self)
        ensures
            r.status@ == "online"@,
            r.version@ == version@,
    {
        StatusResponse { status: String::from_str("online"), version: String::from_str(version) }
    }
}

impl UsageResponse {
    /// The usage answer for a usage lookup that gave `totals` (received,
    /// sent), or failed: a failed lookup reports no usage.
    pub fn from_totals(totals: Option<(u64, u64)>) -> (r: Self)
        ensures
            match totals {
                Some((rx, tx)) => r.rx_bytes == rx && r.tx_bytes == tx,
                None => r.rx_bytes == 0 && r.tx_bytes == 0,
            },
    {
        match totals {
            Some((rx_bytes, tx_bytes)) => UsageResponse { rx_bytes, tx_bytes },
            None => UsageResponse { rx_bytes: 0, tx_bytes: 0 },
        }
    }
}

} // verus!
