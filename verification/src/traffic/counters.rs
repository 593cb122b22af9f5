use vstd::prelude::*;

verus! {

/// Cumulative byte counters of one network interface.
#[derive(Debug, Clone, Copy, PartialEq, Eq, Structural, Default)]
pub struct TrafficCounters {
    /// Bytes received (download).
    pub rx_bytes: u64,
    /// Bytes sent (upload).
    pub tx_bytes: u64,
}

/// Bytes counted since `previous` on one counter. A counter that went
/// backwards was reset (interface restart, wrap); everything it shows now was
/// counted since the reset.
pub open spec fn counter_delta(current: u64, previous: u64) -> u64 {
    if current >= previous {
        (current - previous) as u64
    } else {
        current
    }
}

/// The delta of both counters.
pub open spec fn delta_spec(current: TrafficCounters, previous: TrafficCounters) -> TrafficCounters {
    TrafficCounters {
        rx_bytes: counter_delta(current.rx_bytes, previous.rx_bytes),
        tx_bytes: counter_delta(current.tx_bytes, previous.tx_bytes),
    }
}

impl TrafficCounters {
    /// Traffic seen since the `previous` reading of the same interface.
    pub fn calculate_delta(&self, previous: &TrafficCounters) -> (delta: TrafficCounters)
        ensures
            delta == delta_spec(*self, *previous),
    {
        let rx_delta = if self.rx_bytes >= previous.rx_bytes {
            self.rx_bytes - previous.rx_bytes
        } else {
            self.rx_bytes
        };

        let tx_delta = if self.tx_bytes >= previous.tx_bytes {
            self.tx_bytes - previous.tx_bytes
        } else {
            self.tx_bytes
        };

        TrafficCounters { rx_bytes: rx_delta, tx_bytes: tx_delta }
    }
}

/// Traffic never counts more bytes than the interface shows now.
pub proof fn lemma_delta_bounded(current: TrafficCounters, previous: TrafficCounters)
    ensures
        delta_spec(current, previous).rx_bytes <= current.rx_bytes,
        delta_spec(current, previous).tx_bytes <= current.tx_bytes,
{
}

/// Without a reset, the previous reading plus the delta is the current
/// reading; after a reset, the delta is the current reading.
pub proof fn lemma_delta_restores_current(current: TrafficCounters, previous: TrafficCounters)
    ensures
        current.rx_bytes >= previous.rx_bytes ==> previous.rx_bytes + delta_spec(
            current,
            previous,
        ).rx_bytes == current.rx_bytes,
        current.tx_bytes >= previous.tx_bytes ==> previous.tx_bytes + delta_spec(
            current,
            previous,
        ).tx_bytes == current.tx_bytes,
        current.rx_bytes < previous.rx_bytes ==> delta_spec(current, previous).rx_bytes
            == current.rx_bytes,
        current.tx_bytes < previous.tx_bytes ==> delta_spec(current, previous).tx_bytes
            == current.tx_bytes,
{
}

/// A reading compared with itself shows no traffic.
pub proof fn lemma_delta_of_same_reading_is_zero(reading: TrafficCounters)
    ensures
        delta_spec(reading, reading) == (TrafficCounters { rx_bytes: 0, tx_bytes: 0 }),
{
}

/// The received bytes accounted over successive readings of one interface.
pub open spec fn accounted_rx(readings: Seq<TrafficCounters>) -> nat
    decreases readings.len(),
{
    if readings.len() < 2 {
        0
    } else {
        accounted_rx(readings.drop_last()) + counter_delta(
            readings.last().rx_bytes,
            readings[readings.len() - 2].rx_bytes,
        ) as nat
    }
}

/// The sent bytes accounted over successive readings of one interface.
pub open spec fn accounted_tx(readings: Seq<TrafficCounters>) -> nat
    decreases readings.len(),
{
    if readings.len() < 2 {
        0
    } else {
        accounted_tx(readings.drop_last()) + counter_delta(
            readings.last().tx_bytes,
            readings[readings.len() - 2].tx_bytes,
        ) as nat
    }
}

/// Whether no counter went backwards between successive readings.
pub open spec fn no_resets(readings: Seq<TrafficCounters>) -> bool {
    forall|i: int|
        0 < i < readings.len() ==> readings[i - 1].rx_bytes <= #[trigger] readings[i].rx_bytes
            && readings[i - 1].tx_bytes <= readings[i].tx_bytes
}

/// While no counter is reset, the traffic accounted poll by poll adds up to
/// the growth of the counters between the first and the last reading.
pub proof fn lemma_accounting_adds_up(readings: Seq<TrafficCounters>)
    requires
        readings.len() > 0,
        no_resets(readings),
    ensures
        accounted_rx(readings) == readings.last().rx_bytes - readings[0].rx_bytes,
        accounted_tx(readings) == readings.last().tx_bytes - readings[0].tx_bytes,
    decreases readings.len(),
{
    if readings.len() >= 2 {
        let prefix = readings.drop_last();
        assert(no_resets(prefix)) by {
            assert forall|i: int| 0 < i < prefix.len() implies prefix[i - 1].rx_bytes
                <= #[trigger] prefix[i].rx_bytes && prefix[i - 1].tx_bytes
                <= prefix[i].tx_bytes by {
                assert(readings[i].rx_bytes >= readings[i - 1].rx_bytes);
            }
        }
        lemma_accounting_adds_up(prefix);
        let n = readings.len() - 1;
        assert(readings[n].rx_bytes >= readings[n - 1].rx_bytes);
    }
}

} // verus!
