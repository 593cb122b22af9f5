//! How the sysfs network statistics (`/sys/class/net/<iface>/...`) are read:
//! which interfaces count, how a MAC address file is normalized, and how a
//! counter file is read as a number.
use vstd::prelude::*;

use crate::text::{
    normalize_mac_text, normalized_mac, parse_u64, parse_u64_spec, same_text, trim, trim_spec,
};

verus! {

/// Whether the traffic of interface `name` is accounted: everything but the
/// loopback interface.
pub fn is_monitored_interface(name: &str) -> (b: bool)
    ensures
        b == (name@ != "lo"@),
{
    !same_text(name, "lo")
}

/// The MAC address that sysfs address file contents `raw` denote: trimmed and
/// uppercased, and none for an empty or all-zero address.
pub open spec fn interface_mac_spec(raw: Seq<char>) -> Option<Seq<char>> {
    let mac = normalized_mac(raw);
    if mac.len() == 0 || mac == "00:00:00:00:00:00"@ {
        None
    } else {
        Some(mac)
    }
}

/// The MAC address in sysfs address file contents `raw`, if it names a real
/// device.
pub fn interface_mac(raw: &str) -> (r: Option<String>)
    ensures
        r.deep_view() == interface_mac_spec(raw@),
{
    let mac = normalize_mac_text(raw);
    if mac.as_str().is_empty() || same_text(mac.as_str(), "00:00:00:00:00:00") {
        None
    } else {
        Some(mac)
    }
}

/// The counter value that sysfs counter file contents `raw` hold: the trimmed
/// text read as a number, and 0 when it is not one.
pub open spec fn counter_value_spec(raw: Seq<char>) -> u64 {
    match parse_u64_spec(trim_spec(raw)) {
        Some(v) => v,
        None => 0,
    }
}

/// The counter value in sysfs counter file contents `raw`.
pub fn counter_value(raw: &str) -> (r: u64)
    ensures
        r == counter_value_spec(raw@),
{
    let t = trim(raw);
    match parse_u64(t.as_str()) {
        Some(v) => v,
        None => 0,
    }
}

} // verus!
