//! Network discovery: reading what `ip route`, `ip addr` and `arp-scan`
//! report about the local network.
use vstd::prelude::*;
use vstd::string::StringExecFns;

use crate::text::{
    contains_char, decode_utf8_lossy, has_prefix, join_spaced, join_spaced_from, lines,
    lines_spec, normalize_mac_text, normalized_mac, same_text, split_whitespace, starts_with,
    to_uppercase, trim, trim_spec, uppercase, utf8_lossy, views, words,
};

verus! {

/// A device found on the local network.
#[derive(Debug, Clone)]
pub struct DiscoveredDevice {
    pub ip: String,
    pub mac: String,
    pub vendor: String,
}

/// What `ip route get` reports about the route to the outside world.
#[derive(Debug, Clone)]
pub struct RouteInfo {
    /// The interface that carries the route (the word after `dev`).
    pub interface: Option<String>,
    /// The local source address of the route (the word after `src`).
    pub source_ip: Option<String>,
}

/// Finds devices on the local network.
pub struct NetworkScanner;

/// A device seen by a scan, as it is stored: by MAC address, at an IP
/// address.
#[derive(Debug, Clone, PartialEq, Eq)]
pub struct DeviceSighting {
    pub mac: String,
    pub ip: String,
}

/// A device as text: its IP address, MAC address and vendor.
pub open spec fn device_view(d: DiscoveredDevice) -> (Seq<char>, Seq<char>, Seq<char>) {
    (d.ip@, d.mac@, d.vendor@)
}

/// The views of a list of devices.
pub open spec fn device_views(ds: Seq<DiscoveredDevice>) -> Seq<(Seq<char>, Seq<char>, Seq<char>)> {
    ds.map_values(|d: DiscoveredDevice| device_view(d))
}

/// The position of the first occurrence of `w` in `ws`.
pub open spec fn first_index(ws: Seq<Seq<char>>, w: Seq<char>) -> Option<int>
    decreases ws.len(),
{
    if ws.len() == 0 {
        None
    } else {
        match first_index(ws.drop_last(), w) {
            Some(i) => Some(i),
            None => if ws.last() == w {
                Some(ws.len() - 1)
            } else {
                None
            },
        }
    }
}

/// The word just after the first occurrence of `key` in `ws`, if both exist.
pub open spec fn word_after_spec(ws: Seq<Seq<char>>, key: Seq<char>) -> Option<Seq<char>> {
    match first_index(ws, key) {
        Some(i) => if i + 1 < ws.len() {
            Some(ws[i + 1])
        } else {
            None
        },
        None => None,
    }
}

/// What the first occurrence in a prefix of `ws` is, it is in `ws`.
proof fn lemma_first_index_prefix(ws: Seq<Seq<char>>, w: Seq<char>, k: int)
    requires
        0 <= k <= ws.len(),
        first_index(ws.take(k), w) is Some,
    ensures
        first_index(ws, w) == first_index(ws.take(k), w),
    decreases ws.len() - k,
{
    if k < ws.len() {
        assert(ws.take(k + 1).drop_last() =~= ws.take(k));
        lemma_first_index_prefix(ws, w, k + 1);
    } else {
        assert(ws.take(k) =~= ws);
    }
}

/// The word after the first occurrence of `key` in `parts`.
fn word_after(parts: &Vec<String>, key: &str) -> (r: Option<String>)
    ensures
        r.deep_view() == word_after_spec(views(parts@), key@),
{
    let ghost ws = views(parts@);
    let n = parts.len();
    let mut i: usize = 0;
    assert(ws.take(0) =~= Seq::<Seq<char>>::empty());
    while i < n
        invariant
            n == parts@.len(),
            ws == views(parts@),
            i <= n,
            first_index(ws.take(i as int), key@) is None,
        decreases n - i,
    {
        assert(ws.take(i + 1).drop_last() =~= ws.take(i as int));
        if same_text(parts[i].as_str(), key) {
            assert(first_index(ws.take(i + 1), key@) == Some(i as int));
            proof {
                lemma_first_index_prefix(ws, key@, i + 1);
            }
            if i + 1 < n {
                return Some(parts[i + 1].clone());
            } else {
                return None;
            }
        }
        i = i + 1;
    }
    assert(ws.take(n as int) =~= ws);
    None
}

/// What `ip route get` printing `output` says: the route's interface and
/// source address.
pub open spec fn route_spec(output: Seq<u8>) -> (Option<Seq<char>>, Option<Seq<char>>) {
    let ws = words(utf8_lossy(output));
    (word_after_spec(ws, "dev"@), word_after_spec(ws, "src"@))
}

/// What an `arp-scan` output line reports: none for header and footer lines
/// (those without a `':'` or starting with `Interface`, `Starting` or
/// `Ending`) and for lines of fewer than three words; else the IP address
/// (first word), the uppercased MAC address (second word) and the vendor (the
/// remaining words, joined by single spaces).
pub open spec fn arp_entry_spec(line: Seq<char>) -> Option<(Seq<char>, Seq<char>, Seq<char>)> {
    if !line.contains(':') || has_prefix(line, "Interface"@) || has_prefix(line, "Starting"@)
        || has_prefix(line, "Ending"@) {
        None
    } else {
        let parts = words(line);
        if parts.len() >= 3 {
            Some((parts[0], uppercase(parts[1]), join_spaced(parts.subrange(2, parts.len() as int))))
        } else {
            None
        }
    }
}

/// Whether an `arp-scan` output line reports a device: it holds a `':'`,
/// does not start with `Interface`, `Starting` or `Ending`, and has at least
/// three words (IP address, MAC address, and a vendor of one or more words).
pub open spec fn is_arp_device_line(line: Seq<char>) -> bool {
    &&& line.contains(':')
    &&& !has_prefix(line, "Interface"@)
    &&& !has_prefix(line, "Starting"@)
    &&& !has_prefix(line, "Ending"@)
    &&& words(line).len() >= 3
}

/// Every device line of `arp-scan` output is reported, a one-word vendor
/// included: its first word as the IP address, its second uppercased as the
/// MAC address, and all the rest, joined by single spaces, as the vendor;
/// no other line is.
pub proof fn lemma_arp_device_lines(line: Seq<char>)
    ensures
        is_arp_device_line(line) ==> arp_entry_spec(line) == Some(
            (
                words(line)[0],
                uppercase(words(line)[1]),
                join_spaced(words(line).subrange(2, words(line).len() as int)),
            ),
        ),
        !is_arp_device_line(line) ==> arp_entry_spec(line) is None,
{
}

/// The devices that the `arp-scan` output lines `ls` report, in order.
pub open spec fn arp_entries(ls: Seq<Seq<char>>) -> Seq<(Seq<char>, Seq<char>, Seq<char>)>
    decreases ls.len(),
{
    if ls.len() == 0 {
        Seq::empty()
    } else {
        let rest = arp_entries(ls.drop_last());
        match arp_entry_spec(ls.last()) {
            Some(e) => rest.push(e),
            None => rest,
        }
    }
}

/// The devices that `arp-scan` printing `output` reports.
pub open spec fn arp_scan_spec(output: Seq<u8>) -> Seq<(Seq<char>, Seq<char>, Seq<char>)> {
    arp_entries(lines_spec(utf8_lossy(output)))
}

/// The vendor text under which the scanning machine itself is listed.
pub open spec fn host_vendor() -> Seq<char> {
    "Host Machine (This Computer)"@
}

/// What a scan reports: the devices of the `arp-scan` output (none when
/// `arp-scan` could not run), then the scanning machine itself when both its
/// address and its MAC address are known.
pub open spec fn scan_spec(
    arp_output: Option<Seq<u8>>,
    host_ip: Seq<char>,
    host_mac: Seq<char>,
) -> Seq<(Seq<char>, Seq<char>, Seq<char>)> {
    let found = match arp_output {
        Some(o) => arp_scan_spec(o),
        None => Seq::empty(),
    };
    if host_ip.len() > 0 && host_mac.len() > 0 {
        found.push((host_ip, host_mac, host_vendor()))
    } else {
        found
    }
}

/// The subnet that is scanned: what `ip addr` printed (`awk_output`),
/// trimmed, unless it was not run or printed nothing, then `192.168.0.0/24`.
pub open spec fn subnet_spec(awk_output: Option<Seq<u8>>) -> Seq<char> {
    match awk_output {
        Some(o) => if trim_spec(utf8_lossy(o)).len() > 0 {
            trim_spec(utf8_lossy(o))
        } else {
            "192.168.0.0/24"@
        },
        None => "192.168.0.0/24"@,
    }
}

impl NetworkScanner {
    /// The route's interface and source address in the output of
    /// `ip route get`.
    pub fn parse_route(output: &[u8]) -> (r: RouteInfo)
        ensures
            (r.interface.deep_view(), r.source_ip.deep_view()) == route_spec(output@),
    {
        let text = decode_utf8_lossy(output);
        let parts = split_whitespace(text.as_str());
        let interface = word_after(&parts, "dev");
        let source_ip = word_after(&parts, "src");
        RouteInfo { interface, source_ip }
    }

    /// The scanning machine's MAC address from the contents of its sysfs
    /// address file: trimmed and uppercased.
    pub fn host_mac(raw: &str) -> (r: String)
        ensures
            r@ == normalized_mac(raw@),
            r@.len() > 0 <==> trim_spec(raw@).len() > 0,
    {
        normalize_mac_text(raw)
    }

    /// The subnet to scan, from the output of the `ip addr` query for the
    /// route's interface (none when it was not run).
    pub fn scan_subnet(awk_output: Option<&[u8]>) -> (r: String)
        ensures
            r@ == subnet_spec(
                match awk_output {
                    Some(o) => Some(o@),
                    None => None,
                },
            ),
    {
        proof {
            reveal_strlit("192.168.0.0/24");
        }
        match awk_output {
            Some(o) => {
                let text = decode_utf8_lossy(o);
                let parsed = trim(text.as_str());
                if !parsed.as_str().is_empty() {
                    return parsed;
                }
                String::from_str("192.168.0.0/24")
            },
            None => String::from_str("192.168.0.0/24"),
        }
    }

    /// The device that one `arp-scan` output line reports.
    pub fn parse_arp_line(line: &str) -> (r: Option<DiscoveredDevice>)
        ensures
            match r {
                Some(d) => arp_entry_spec(line@) == Some(device_view(d)),
                None => arp_entry_spec(line@) is None,
            },
            is_arp_device_line(line@) ==> r is Some && r->0.ip@ == words(line@)[0] && r->0.mac@
                == uppercase(words(line@)[1]) && r->0.vendor@ == join_spaced(
                words(line@).subrange(2, words(line@).len() as int),
            ),
            !is_arp_device_line(line@) ==> r is None,
    {
        if !contains_char(line, ':') || starts_with(line, "Interface") || starts_with(
            line,
            "Starting",
        ) || starts_with(line, "Ending") {
            return None;
        }
        let parts = split_whitespace(line);
        if parts.len() >= 3 {
            let ip = parts[0].clone();
            let mac = to_uppercase(parts[1].as_str());
            let vendor = join_spaced_from(&parts, 2);
            Some(DiscoveredDevice { ip, mac, vendor })
        } else {
            None
        }
    }

    /// The devices that `arp-scan` printing `output` reports, in order.
    pub fn parse_arp_scan(output: &[u8]) -> (r: Vec<DiscoveredDevice>)
        ensures
            device_views(r@) == arp_scan_spec(output@),
    {
        let text = decode_utf8_lossy(output);
        let ls = lines(text.as_str());
        let ghost lv = views(ls@);
        let mut out: Vec<DiscoveredDevice> = Vec::new();
        let n = ls.len();
        let mut i: usize = 0;
        assert(lv.take(0) =~= Seq::<Seq<char>>::empty());
        while i < n
            invariant
                n == ls@.len(),
                lv == views(ls@),
                lv == lines_spec(utf8_lossy(output@)),
                i <= n,
                device_views(out@) == arp_entries(lv.take(i as int)),
            decreases n - i,
        {
            assert(lv.take(i + 1).drop_last() =~= lv.take(i as int));
            assert(lv.take(i + 1).last() == ls@[i as int]@);
            let ghost before = out@;
            match Self::parse_arp_line(ls[i].as_str()) {
                Some(d) => {
                    out.push(d);
                    assert(device_views(out@) =~= device_views(before).push(device_view(d)));
                },
                None => {},
            }
            i = i + 1;
        }
        assert(lv.take(n as int) =~= lv);
        out
    }

    /// What a scan reports, from the `arp-scan` output (none when it could
    /// not run) and the scanning machine's own address and MAC address.
    pub fn assemble_scan(arp_output: Option<&[u8]>, host_ip: &str, host_mac: &str) -> (r: Vec<
        DiscoveredDevice,
    >)
        ensures
            device_views(r@) == scan_spec(
                match arp_output {
                    Some(o) => Some(o@),
                    None => None,
                },
                host_ip@,
                host_mac@,
            ),
    {
        let mut devices = match arp_output {
            Some(o) => Self::parse_arp_scan(o),
            None => Vec::new(),
        };
        if !host_ip.is_empty() && !host_mac.is_empty() {
            let ghost before = devices@;
            proof {
                reveal_strlit("Host Machine (This Computer)");
            }
            let host = DiscoveredDevice {
                ip: String::from_str(host_ip),
                mac: String::from_str(host_mac),
                vendor: String::from_str("Host Machine (This Computer)"),
            };
            devices.push(host);
            assert(device_views(devices@) =~= device_views(before).push(device_view(host)));
        }
        devices
    }

    /// What a scan that found `devices` changes in the stored device
    /// records: nothing when it found none; else every device is first
    /// marked offline, then each sighting (MAC and IP address, in scan order)
    /// is stored and marked online.
    pub fn refresh_plan(devices: &Vec<DiscoveredDevice>) -> (r: Option<Vec<DeviceSighting>>)
        ensures
            r is None <==> devices@.len() == 0,
            r matches Some(v) ==> v@.len() == devices@.len() && forall|i: int|
                0 <= i < v@.len() ==> #[trigger] v@[i].mac == devices@[i].mac && v@[i].ip
                    == devices@[i].ip,
    {
        if devices.len() == 0 {
            return None;
        }
        let mut out: Vec<DeviceSighting> = Vec::new();
        let mut i: usize = 0;
        while i < devices.len()
            invariant
                i <= devices@.len(),
                out@.len() == i,
                forall|k: int|
                    0 <= k < i ==> #[trigger] out@[k].mac == devices@[k].mac && out@[k].ip
                        == devices@[k].ip,
            decreases devices@.len() - i,
        {
            let d = &devices[i];
            out.push(DeviceSighting { mac: d.mac.clone(), ip: d.ip.clone() });
            i = i + 1;
        }
        Some(out)
    }
}

} // verus!
