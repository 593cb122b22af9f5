//! Traffic accounting: what each poll of the counters records.
use vstd::prelude::*;

use crate::traffic::counters::delta_spec;
use crate::traffic::TrafficCounters;

verus! {

/// The bandwidth of a device during the last poll interval, in bytes per
/// second.
#[derive(Debug, Clone, Copy, PartialEq, Eq, Structural)]
pub struct LiveBandwidth {
    pub rx_bps: u64,
    pub tx_bps: u64,
}

impl Default for LiveBandwidth {
    fn default() -> (r: Self)
        ensures
            r.rx_bps == 0 && r.tx_bps == 0,
    {
        LiveBandwidth { rx_bps: 0, tx_bps: 0 }
    }
}

impl LiveBandwidth {
    /// Whether the device moved any data during the interval.
    pub fn is_active(&self) -> (r: bool)
        ensures
            r == (self.rx_bps > 0 || self.tx_bps > 0),
    {
        self.rx_bps > 0 || self.tx_bps > 0
    }
}

/// What a poll does with the stored record of one device, given the
/// device's current counters.
#[derive(Debug, Clone, Copy, PartialEq, Eq, Structural)]
pub enum CounterUpdate {
    /// Add `delta` to today's usage and store `totals` as the last reading.
    RecordUsage { delta: TrafficCounters, totals: TrafficCounters },
    /// No traffic to record, but store `totals` as the last reading.
    UpdateCounters { totals: TrafficCounters },
    /// Nothing changed.
    Unchanged,
}

/// Whether a delta holds any traffic.
pub open spec fn has_traffic(delta: TrafficCounters) -> bool {
    delta.rx_bytes > 0 || delta.tx_bytes > 0
}

/// What a poll does for a device whose stored last reading is `previous`
/// and whose counters now read `current`.
pub open spec fn counter_update_spec(current: TrafficCounters, previous: TrafficCounters) -> CounterUpdate {
    let delta = delta_spec(current, previous);
    if has_traffic(delta) {
        CounterUpdate::RecordUsage { delta, totals: current }
    } else if current != previous {
        CounterUpdate::UpdateCounters { totals: current }
    } else {
        CounterUpdate::Unchanged
    }
}

/// The stored last reading after `update` is applied to `previous`.
pub open spec fn stored_after(update: CounterUpdate, previous: TrafficCounters) -> TrafficCounters {
    match update {
        CounterUpdate::RecordUsage { totals, .. } => totals,
        CounterUpdate::UpdateCounters { totals } => totals,
        CounterUpdate::Unchanged => previous,
    }
}

/// The usage that `update` adds to the day's record.
pub open spec fn recorded_usage(update: CounterUpdate) -> TrafficCounters {
    match update {
        CounterUpdate::RecordUsage { delta, .. } => delta,
        _ => TrafficCounters { rx_bytes: 0, tx_bytes: 0 },
    }
}

/// What a poll does for a device whose stored last reading is `previous`
/// and whose counters now read `current`: traffic since the last reading
/// is recorded with the new totals; a change that shows no traffic (a reset
/// to zero) only stores the new totals.
pub fn plan_counter_update(current: &TrafficCounters, previous: &TrafficCounters) -> (r:
    CounterUpdate)
    ensures
        r == counter_update_spec(*current, *previous),
{
    let delta = current.calculate_delta(previous);
    if delta.rx_bytes > 0 || delta.tx_bytes > 0 {
        CounterUpdate::RecordUsage { delta, totals: *current }
    } else if *current != *previous {
        CounterUpdate::UpdateCounters { totals: *current }
    } else {
        CounterUpdate::Unchanged
    }
}

/// After a poll, the stored last reading of a device is its current
/// reading, whatever the poll recorded.
pub proof fn lemma_poll_stores_current(current: TrafficCounters, previous: TrafficCounters)
    ensures
        stored_after(counter_update_spec(current, previous), previous) == current,
{
}

/// A poll records exactly the traffic since the last reading, and records
/// only when there is some.
pub proof fn lemma_poll_records_delta(current: TrafficCounters, previous: TrafficCounters)
    ensures
        recorded_usage(counter_update_spec(current, previous)) == delta_spec(current, previous),
        counter_update_spec(current, previous) is RecordUsage <==> has_traffic(
            delta_spec(current, previous),
        ),
{
}

/// The stateful part of the accounting: when the counters were last polled.
pub struct AccountingEngine {
    last_poll: Option<u64>,
}

/// Time elapsed between an earlier instant `last` and `now`; none when `now`
/// is not later (instants never go backwards, so this saturates).
pub open spec fn elapsed_since(last: Option<u64>, now: u64) -> u64 {
    match last {
        Some(l) => if now >= l {
            (now - l) as u64
        } else {
            0
        },
        None => 0,
    }
}

/// The time since a previous poll at `last` is the whole difference to
/// `now`: added to `last` it gives `now`; a first poll, or a clock reading
/// before `last`, measures nothing.
pub proof fn lemma_elapsed_is_difference(last: Option<u64>, now: u64)
    ensures
        last matches Some(l) ==> (now >= l ==> l + elapsed_since(last, now) == now),
        last matches Some(l) ==> (now < l ==> elapsed_since(last, now) == 0),
        last is None ==> elapsed_since(last, now) == 0,
{
}

impl AccountingEngine {
    /// When the counters were last polled, in nanoseconds of a monotonic
    /// clock.
    pub closed spec fn last_poll(&self) -> Option<u64> {
        self.last_poll
    }

    /// An engine that has not polled yet.
    pub fn new() -> (r: Self)
        ensures
            r.last_poll() is None,
    {
        AccountingEngine { last_poll: None }
    }

    /// Starts a poll at monotonic instant `now` (nanoseconds) and returns the
    /// time since the previous poll, 0 for the first.
    pub fn begin_poll(&mut self, now: u64) -> (elapsed: u64)
        ensures
            elapsed == elapsed_since(old(self).last_poll(), now),
            old(self).last_poll() matches Some(l) ==> (now >= l ==> l + elapsed == now),
            old(self).last_poll() matches Some(l) ==> (now < l ==> elapsed == 0),
            old(self).last_poll() is None ==> elapsed == 0,
            final(self).last_poll() == Some(now),
    {
        let elapsed = match self.last_poll {
            Some(last) => if now >= last {
                now - last
            } else {
                0
            },
            None => 0,
        };
        self.last_poll = Some(now);
        elapsed
    }
}

} // verus!
