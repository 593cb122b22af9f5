use vstd::prelude::*;

use super::counters::TrafficCounters;
use crate::error::TrafficError;

verus! {

/// The counters read for one device, by MAC address.
#[derive(Debug, Clone, PartialEq, Eq)]
pub struct DeviceTraffic {
    pub mac_address: String,
    pub counters: TrafficCounters,
}

/// A source of per-device traffic counters.
pub trait Collector {
    /// The current counters of every device the source sees.
    fn collect(&self) -> Result<Vec<DeviceTraffic>, TrafficError>;
}

} // verus!
