use host_metrics::traffic::{read_counters, NetworkTraffic, Rate, Rates, TrafficError};

fn report(received: &str, sent: &str) -> String {
    format!(
        "Interface Statistics\r\n\r\n                           Received            Sent\r\n\r\nBytes                    {}       {}\r\nUnicast packets          1 2\r\n",
        received, sent
    )
}

#[test]
fn first_sample_reports_zero_and_keeps_baseline() {
    let mut t = NetworkTraffic::new();
    let r = t.record(5_000_000, 7_000, 1_700_000_000);
    assert_eq!(
        r,
        Ok(Rates { download: Rate { bytes: 0, seconds: 1 }, upload: Rate { bytes: 0, seconds: 1 } })
    );
    assert_eq!(t, NetworkTraffic { bytes_received: 5_000_000, bytes_sent: 7_000, timestamp: 1_700_000_000 });
}

#[test]
fn later_sample_is_change_over_elapsed_time() {
    let mut t = NetworkTraffic::new();
    t.record(1000, 500, 100).unwrap();
    let r = t.record(3048, 1524, 102).unwrap();
    assert_eq!(r.download, Rate { bytes: 2048, seconds: 2 });
    assert_eq!(r.upload, Rate { bytes: 1024, seconds: 2 });
    assert_eq!(r.download.bytes as f64 / r.download.seconds as f64, 1024.0);
    assert_eq!(t, NetworkTraffic { bytes_received: 3048, bytes_sent: 1524, timestamp: 102 });
}

#[test]
fn counter_reset_gives_negative_rate() {
    let mut t = NetworkTraffic::new();
    t.record(u64::MAX, 10, 1).unwrap();
    let r = t.record(0, 4, 3).unwrap();
    assert_eq!(r.download, Rate { bytes: -(u64::MAX as i128), seconds: 2 });
    assert_eq!(r.upload, Rate { bytes: -6, seconds: 2 });
}

#[test]
fn stalled_clock_is_an_error_and_keeps_state() {
    let mut t = NetworkTraffic::new();
    t.record(10, 20, 50).unwrap();
    assert_eq!(t.record(30, 40, 50), Err(TrafficError::ClockNotAdvanced));
    assert_eq!(t.record(30, 40, 49), Err(TrafficError::ClockNotAdvanced));
    assert_eq!(t, NetworkTraffic { bytes_received: 10, bytes_sent: 20, timestamp: 50 });
}

#[test]
fn reads_counters_from_report() {
    assert_eq!(read_counters(&report("1234567890", "987654321")), Ok((1234567890, 987654321)));
    assert_eq!(read_counters(&report("+7", "18446744073709551615")), Ok((7, u64::MAX)));
}

#[test]
fn malformed_reports_are_rejected() {
    assert_eq!(read_counters(""), Err(TrafficError::MalformedReport));
    assert_eq!(read_counters("a\nb\nc\nd\n"), Err(TrafficError::MalformedReport));
    assert_eq!(read_counters("a\nb\nc\nd\nBytes 12\n"), Err(TrafficError::MalformedReport));
    assert_eq!(read_counters(&report("12x", "3")), Err(TrafficError::MalformedReport));
    assert_eq!(read_counters(&report("-1", "3")), Err(TrafficError::MalformedReport));
    assert_eq!(read_counters(&report("18446744073709551616", "3")), Err(TrafficError::MalformedReport));
    assert_eq!(read_counters(&report("+", "3")), Err(TrafficError::MalformedReport));
}

#[test]
fn update_reads_report_then_records() {
    let mut t = NetworkTraffic::new();
    assert_eq!(
        t.update(&report("100", "200"), 10),
        Ok(Rates { download: Rate { bytes: 0, seconds: 1 }, upload: Rate { bytes: 0, seconds: 1 } })
    );
    let r = t.update(&report("1124", "712"), 11).unwrap();
    assert_eq!(r.download, Rate { bytes: 1024, seconds: 1 });
    assert_eq!(r.upload, Rate { bytes: 512, seconds: 1 });
}

#[test]
fn failing_report_leaves_baseline() {
    let mut t = NetworkTraffic::new();
    t.update(&report("100", "200"), 10).unwrap();
    assert_eq!(t.update("netstat: not found", 12), Err(TrafficError::MalformedReport));
    assert_eq!(t, NetworkTraffic { bytes_received: 100, bytes_sent: 200, timestamp: 10 });
    let r = t.update(&report("300", "400"), 12).unwrap();
    assert_eq!(r.download, Rate { bytes: 200, seconds: 2 });
}

#[test]
fn reported_rates_never_divide_by_zero() {
    let mut t = NetworkTraffic::new();
    for (i, now) in [0u64, 0, 5, 6, 6, 9].iter().enumerate() {
        if let Ok(r) = t.record(i as u64 * 10, i as u64, *now) {
            assert!(r.download.seconds >= 1 && r.upload.seconds >= 1);
            assert!((r.download.bytes as f64 / r.download.seconds as f64).is_finite());
        }
    }
}
