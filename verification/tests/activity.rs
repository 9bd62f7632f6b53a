use loopx::activity::{append_bounded_text, ActivityGate, ActivitySummary};

const BASE_MS: i64 = 1_000_000;

#[test]
fn bounded_text_keeps_the_tail_for_structured_summaries() {
    let mut buffer = String::new();
    append_bounded_text(&mut buffer, &"x".repeat(120), 100);
    append_bounded_text(&mut buffer, &"\n```loopx_summary_v1\n{}\n```", 100);

    assert_eq!(buffer.chars().count(), 100);
    assert!(buffer.starts_with('x'));
    assert!(buffer.contains("loopx_summary_v1"));
    assert!(buffer.trim_end().ends_with("```"));
}

#[test]
fn activity_gate_coalesces_stream_chunks_but_allows_forced_boundaries() {
    let mut gate = ActivityGate::default();
    let now = BASE_MS;

    assert!(gate.record_stream_at("turn-1", now, false));
    assert!(!gate.record_stream_at("turn-1", now + 500, false));
    assert!(gate.record_stream_at("turn-1", now + 600, true));
    assert!(!gate.record_stream_at("turn-1", now + 1000, false));
    assert!(gate.record_stream_at("turn-1", now + 3000, false));
}

#[test]
fn clearing_activity_allows_the_next_generation_to_persist_immediately() {
    let mut gate = ActivityGate::default();
    let now = BASE_MS;
    assert!(gate.record_stream_at("turn-1", now, false));
    let summary = gate.finish("turn-1").expect("activity summary");
    assert_eq!(summary.stream_events, 1);
    assert!(gate.record_stream_at("turn-1", now + 1, false));
}

#[test]
fn stream_flood_produces_one_liveness_checkpoint_inside_the_interval() {
    let mut gate = ActivityGate::default();
    let now = BASE_MS;
    let checkpoints = (0..10_000)
        .filter(|_| gate.record_stream_at("turn-1", now, false))
        .count();

    assert_eq!(checkpoints, 1);
    assert_eq!(
        gate.finish("turn-1").expect("activity summary"),
        ActivitySummary {
            stream_events: 10_000,
            persisted_checkpoints: 1,
            ..ActivitySummary::default()
        }
    );
}

#[test]
fn final_response_uses_only_the_latest_model_round() {
    let mut gate = ActivityGate::default();
    gate.start_round("turn-1", "round-1");
    gate.record_text("turn-1", "round-1", Some("attempt-1"), "intermediate");
    gate.start_round("turn-1", "round-2");
    gate.record_text("turn-1", "round-2", Some("attempt-1"), "final ");
    gate.record_text("turn-1", "round-2", Some("attempt-1"), "answer");

    assert_eq!(
        gate.finish("turn-1")
            .and_then(|summary| summary.final_response),
        Some("final answer".to_string())
    );
}

#[test]
fn superseded_attempt_does_not_leak_partial_text() {
    let mut gate = ActivityGate::default();
    gate.start_round("turn-1", "round-1");
    gate.record_text("turn-1", "round-1", Some("attempt-1"), "partial");
    gate.record_text("turn-1", "round-1", Some("attempt-2"), "retry answer");

    assert_eq!(
        gate.finish("turn-1")
            .and_then(|summary| summary.final_response),
        Some("retry answer".to_string())
    );
}
