use address_finder::{
    format_duration, found_line, progress_line, summary_line, throughput, Snapshot,
};

#[test]
fn durations_omit_leading_zero_units() {
    assert_eq!(format_duration(0), "0s");
    assert_eq!(format_duration(59), "59s");
    assert_eq!(format_duration(60), "1m 0s");
    assert_eq!(format_duration(125), "2m 5s");
    assert_eq!(format_duration(3600), "1h 0m 0s");
    assert_eq!(format_duration(3661), "1h 1m 1s");
    assert_eq!(format_duration(90061), "25h 1m 1s");
}

#[test]
fn throughput_is_zero_before_a_second() {
    assert_eq!(throughput(100, 0), 0);
    assert_eq!(throughput(100, 999), 0);
    assert_eq!(throughput(100, 2000), 50);
    assert_eq!(throughput(7, 1500), 4);
    assert_eq!(throughput(u64::MAX, 1000), u64::MAX);
}

#[test]
fn progress_line_stops_at_target() {
    let done = Snapshot { committed: 2, checked: 10, target: 2 };
    assert_eq!(progress_line(done, 5000), None);
    let running = Snapshot { committed: 1, checked: 3000, target: 2 };
    assert_eq!(
        progress_line(running, 61500).unwrap(),
        "\rProgress: 1 found, 3000 checked, 48 addr/sec, 1m 1s"
    );
}

#[test]
fn found_and_summary_lines() {
    assert_eq!(found_line("0xabc", 1, 3), "Found matching address: 0xabc (1/3)");
    assert_eq!(
        summary_line(3, 500, 2000),
        "Search completed: 3 addresses found, 500 total checked, 250 addr/sec average, 2s"
    );
}
