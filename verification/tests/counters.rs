use netwatch_core::traffic::TrafficCounters;

#[test]
fn calculates_normal_delta() {
    let old = TrafficCounters {
        rx_bytes: 100,
        tx_bytes: 50,
    };
    let new = TrafficCounters {
        rx_bytes: 150,
        tx_bytes: 75,
    };
    let delta = new.calculate_delta(&old);

    assert_eq!(delta.rx_bytes, 50);
    assert_eq!(delta.tx_bytes, 25);
}

#[test]
fn handles_counter_reset() {
    let old = TrafficCounters {
        rx_bytes: 1000,
        tx_bytes: 500,
    };
    let new = TrafficCounters {
        rx_bytes: 150,
        tx_bytes: 75,
    };
    let delta = new.calculate_delta(&old);

    assert_eq!(delta.rx_bytes, 150);
    assert_eq!(delta.tx_bytes, 75);
}

#[test]
fn delta_of_same_reading_is_zero() {
    let reading = TrafficCounters {
        rx_bytes: 12345,
        tx_bytes: 678,
    };
    assert_eq!(reading.calculate_delta(&reading), TrafficCounters::default());
}

#[test]
fn delta_restores_current_without_reset() {
    let previous = TrafficCounters {
        rx_bytes: 7,
        tx_bytes: u64::MAX - 1,
    };
    let current = TrafficCounters {
        rx_bytes: u64::MAX,
        tx_bytes: u64::MAX,
    };
    let delta = current.calculate_delta(&previous);
    assert_eq!(previous.rx_bytes + delta.rx_bytes, current.rx_bytes);
    assert_eq!(previous.tx_bytes + delta.tx_bytes, current.tx_bytes);
}

#[test]
fn one_counter_reset_other_grows() {
    let previous = TrafficCounters {
        rx_bytes: 500,
        tx_bytes: 10,
    };
    let current = TrafficCounters {
        rx_bytes: 0,
        tx_bytes: 30,
    };
    let delta = current.calculate_delta(&previous);
    assert_eq!(delta, TrafficCounters { rx_bytes: 0, tx_bytes: 20 });
}

#[test]
fn accounting_adds_up_over_polls() {
    let readings = [
        TrafficCounters { rx_bytes: 10, tx_bytes: 5 },
        TrafficCounters { rx_bytes: 15, tx_bytes: 5 },
        TrafficCounters { rx_bytes: 40, tx_bytes: 9 },
        TrafficCounters { rx_bytes: 41, tx_bytes: 100 },
    ];
    let mut rx = 0;
    let mut tx = 0;
    for pair in readings.windows(2) {
        let delta = pair[1].calculate_delta(&pair[0]);
        rx += delta.rx_bytes;
        tx += delta.tx_bytes;
    }
    assert_eq!(rx, 41 - 10);
    assert_eq!(tx, 100 - 5);
}
