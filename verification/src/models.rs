//! The records NetWatch keeps about users and devices.
use vstd::prelude::*;

use crate::traffic::TrafficCounters;

verus! {

/// A person that devices can be assigned to.
#[derive(Debug, Clone, PartialEq, Eq)]
pub struct User {
    pub id: i64,
    pub name: String,
    pub created_at: String,
}

/// A device seen on the network.
#[derive(Debug, Clone, PartialEq, Eq)]
pub struct Device {
    pub id: i64,
    pub mac_address: String,
    pub ip_address: Option<String>,
    pub hostname: Option<String>,
    pub display_name: Option<String>,
    pub user_id: Option<i64>,
    pub is_online: bool,
    pub first_seen: String,
    pub last_seen: String,
    /// The receive counter of the device's last reading.
    pub last_rx_bytes: u64,
    /// The send counter of the device's last reading.
    pub last_tx_bytes: u64,
}

/// The counter that a stored counter column holds: an absent or unreadable
/// value counts as 0, and the stored signed value is reinterpreted as
/// unsigned (the database stores counters as signed 64-bit integers).
pub open spec fn stored_counter_spec(column: Option<i64>) -> u64 {
    match column {
        Some(v) => v as u64,
        None => 0,
    }
}

/// The counter held by a stored counter column.
pub fn stored_counter(column: Option<i64>) -> (r: u64)
    ensures
        r == stored_counter_spec(column),
        column matches Some(v) ==> (v >= 0 ==> r == v),
{
    match column {
        Some(v) => v as u64,
        None => 0,
    }
}

/// The name under which a device is shown: its display name, else its
/// hostname, else its MAC address.
pub open spec fn device_label_spec(
    display_name: Option<Seq<char>>,
    hostname: Option<Seq<char>>,
    mac_address: Seq<char>,
) -> Seq<char> {
    match display_name {
        Some(n) => n,
        None => match hostname {
            Some(h) => h,
            None => mac_address,
        },
    }
}

impl Device {
    /// A device record built from the columns of its database row; the
    /// counter columns are read with `stored_counter`.
    pub fn from_columns(
        id: i64,
        mac_address: String,
        ip_address: Option<String>,
        hostname: Option<String>,
        display_name: Option<String>,
        user_id: Option<i64>,
        is_online: bool,
        first_seen: String,
        last_seen: String,
        last_rx_bytes: Option<i64>,
        last_tx_bytes: Option<i64>,
    ) -> (r: Device)
        ensures
            r.id == id,
            r.mac_address == mac_address,
            r.ip_address == ip_address,
            r.hostname == hostname,
            r.display_name == display_name,
            r.user_id == user_id,
            r.is_online == is_online,
            r.first_seen == first_seen,
            r.last_seen == last_seen,
            r.last_rx_bytes == stored_counter_spec(last_rx_bytes),
            r.last_tx_bytes == stored_counter_spec(last_tx_bytes),
    {
        Device {
            id,
            mac_address,
            ip_address,
            hostname,
            display_name,
            user_id,
            is_online,
            first_seen,
            last_seen,
            last_rx_bytes: stored_counter(last_rx_bytes),
            last_tx_bytes: stored_counter(last_tx_bytes),
        }
    }

    /// The counters of the device's last reading.
    pub fn last_counters(&self) -> (r: TrafficCounters)
        ensures
            r.rx_bytes == self.last_rx_bytes,
            r.tx_bytes == self.last_tx_bytes,
    {
        TrafficCounters { rx_bytes: self.last_rx_bytes, tx_bytes: self.last_tx_bytes }
    }

    /// The name under which the device is shown.
    pub fn label(&self) -> (r: String)
        ensures
            r@ == device_label_spec(
                self.display_name.deep_view(),
                self.hostname.deep_view(),
                self.mac_address@,
            ),
    {
        match &self.display_name {
            Some(n) => n.clone(),
            None => match &self.hostname {
                Some(h) => h.clone(),
                None => self.mac_address.clone(),
            },
        }
    }
}

} // verus!
