use pulse_commerce::benchmark::{
    build_events, map_to_proto, observation, render_report, summarize_totals,
    BenchmarkObservation, ReportSection,
};
use pulse_commerce::events::BenchmarkEvent;

#[test]
fn test_render_report() {
    let summaries = vec![ReportSection {
        label: "JSON".to_string(),
        total_events: 100,
        avg_latency_ms: format!("{:.2}", 10.0f64),
        min_latency_ms: 5,
        max_latency_ms: 20,
        avg_payload_size_bytes: format!("{:.2}", 200.0f64),
    }];

    let report = render_report(&summaries);
    println!("{report}");
    assert_eq!(
        report,
        "================ Benchmark Report ================\nFormat: JSON\n  Total Events: 100\n  Avg Latency: 10.00 ms\n  Min Latency: 5 ms\n  Max Latency: 20 ms\n  Avg Payload Size: 200.00 bytes\n"
    );
}

#[test]
fn empty_report_is_the_title() {
    assert_eq!(render_report(&vec![]), "================ Benchmark Report ================");
}

#[test]
fn totals_of_a_run() {
    let obs = vec![
        BenchmarkObservation { latency_ms: 4, payload_size_bytes: 10 },
        BenchmarkObservation { latency_ms: 1, payload_size_bytes: 20 },
        BenchmarkObservation { latency_ms: 9, payload_size_bytes: 30 },
    ];
    let t = summarize_totals(&obs);
    assert_eq!(
        (t.total_events, t.latency_sum_ms, t.payload_sum_bytes, t.min_latency_ms, t.max_latency_ms),
        (3, 14, 60, 1, 9)
    );
    let e = summarize_totals(&vec![]);
    assert_eq!((e.total_events, e.latency_sum_ms, e.min_latency_ms, e.max_latency_ms), (0, 0, 0, 0));
}

#[test]
fn latency_never_negative() {
    assert_eq!(observation(100, 130, 7).latency_ms, 30);
    assert_eq!(observation(130, 100, 7).latency_ms, 0);
    assert_eq!(observation(130, 100, 7).payload_size_bytes, 7);
}

#[test]
fn events_are_numbered_with_x_payloads() {
    let events = build_events(3, 4);
    assert_eq!(events.len(), 3);
    for (i, e) in events.iter().enumerate() {
        assert_eq!(e.sequence, i as i64 + 1);
        assert_eq!(e.payload, "XXXX");
        assert_eq!(e.event_id.len(), 36);
    }
    assert_ne!(events[0].event_id, events[1].event_id);
    assert_eq!(build_events(1, 0)[0].payload, "X");
}

#[test]
fn proto_copy_keeps_every_field() {
    let e = BenchmarkEvent { event_id: "id".to_string(), sequence: 4, sent_at_ms: 99, payload: "XX".to_string() };
    let p = map_to_proto(&e);
    assert_eq!((p.event_id.as_str(), p.sequence, p.sent_at_ms, p.payload.as_str()), ("id", 4, 99, "XX"));
    let fresh = BenchmarkEvent::new("k".to_string(), 2, "p".to_string());
    assert!(fresh.sent_at_ms > 1_600_000_000_000);
}
