pub mod collector;
pub mod counters;
pub mod sysfs;

pub use collector::{Collector, DeviceTraffic};
pub use counters::TrafficCounters;
