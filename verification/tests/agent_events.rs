use loopx::activity::{
    failure_blocks_repository, failure_summary, on_agent_event, ActivityGate, AiErrorDetail,
    ErrorCategory, LoopxAgentEvent, LoopxSubscriberAction,
};
use loopx::ports::LoopxAgentTurnStatus;

const T0: i64 = 5_000_000;

fn text(turn: &str, round: &str, chunk: &str) -> LoopxAgentEvent {
    LoopxAgentEvent::TextChunk {
        turn_id: turn.to_string(),
        round_id: round.to_string(),
        attempt_id: None,
        text: chunk.to_string(),
    }
}

fn activity(turn: &str) -> LoopxSubscriberAction {
    LoopxSubscriberAction::Activity {
        turn_id: turn.to_string(),
    }
}

#[test]
fn agent_events_checkpoint_and_hand_over_the_final_round() {
    let mut gate = ActivityGate::new();
    assert_eq!(on_agent_event(&mut gate, text("t", "r1", "Looking"), T0), activity("t"));
    assert_eq!(
        on_agent_event(&mut gate, text("t", "r1", " around"), T0 + 100),
        LoopxSubscriberAction::Nothing
    );
    assert_eq!(
        on_agent_event(
            &mut gate,
            LoopxAgentEvent::ThinkingChunk { turn_id: "t".to_string() },
            T0 + 2_500
        ),
        activity("t")
    );
    assert_eq!(
        on_agent_event(
            &mut gate,
            LoopxAgentEvent::ModelRoundStarted {
                turn_id: "t".to_string(),
                round_id: "r2".to_string()
            },
            T0 + 2_600
        ),
        activity("t")
    );
    assert_eq!(
        on_agent_event(
            &mut gate,
            LoopxAgentEvent::ToolEvent { turn_id: "t".to_string(), projected: true },
            T0 + 2_700
        ),
        LoopxSubscriberAction::ToolActivity { turn_id: "t".to_string() }
    );
    assert_eq!(
        on_agent_event(
            &mut gate,
            LoopxAgentEvent::ToolEvent { turn_id: "t".to_string(), projected: false },
            T0 + 2_800
        ),
        LoopxSubscriberAction::Nothing
    );
    on_agent_event(&mut gate, text("t", "r2", "  Final answer\n"), T0 + 2_900);
    assert_eq!(
        on_agent_event(
            &mut gate,
            LoopxAgentEvent::DialogTurnCompleted {
                turn_id: "t".to_string(),
                success: None,
                has_final_response: None
            },
            T0 + 3_000
        ),
        LoopxSubscriberAction::Terminal {
            turn_id: "t".to_string(),
            status: LoopxAgentTurnStatus::Completed,
            summary: Some("Final answer".to_string()),
            blocks_repository: false,
        }
    );
}

#[test]
fn completed_turn_without_a_final_response_hands_over_nothing() {
    let mut gate = ActivityGate::new();
    on_agent_event(&mut gate, text("t", "r1", "partial"), T0);
    assert_eq!(
        on_agent_event(
            &mut gate,
            LoopxAgentEvent::DialogTurnCompleted {
                turn_id: "t".to_string(),
                success: Some(false),
                has_final_response: Some(false)
            },
            T0 + 10
        ),
        LoopxSubscriberAction::Terminal {
            turn_id: "t".to_string(),
            status: LoopxAgentTurnStatus::Failed,
            summary: None,
            blocks_repository: false,
        }
    );
}

#[test]
fn failed_cancelled_and_interrupted_turns_end_the_activity() {
    let mut gate = ActivityGate::new();
    let failed = on_agent_event(
        &mut gate,
        LoopxAgentEvent::DialogTurnFailed {
            turn_id: "t".to_string(),
            error: "request failed".to_string(),
            error_category: None,
            error_detail: Some(AiErrorDetail {
                category: ErrorCategory::RateLimit,
                provider_message: Some("Slow down".to_string()),
            }),
        },
        T0,
    );
    assert_eq!(
        failed,
        LoopxSubscriberAction::Terminal {
            turn_id: "t".to_string(),
            status: LoopxAgentTurnStatus::Failed,
            summary: Some("Slow down".to_string()),
            blocks_repository: true,
        }
    );
    assert_eq!(
        on_agent_event(&mut gate, LoopxAgentEvent::DialogTurnCancelled { turn_id: "u".to_string() }, T0),
        LoopxSubscriberAction::Terminal {
            turn_id: "u".to_string(),
            status: LoopxAgentTurnStatus::Cancelled,
            summary: None,
            blocks_repository: false,
        }
    );
    assert_eq!(
        on_agent_event(&mut gate, LoopxAgentEvent::DialogTurnInterrupted { turn_id: "v".to_string() }, T0),
        LoopxSubscriberAction::Terminal {
            turn_id: "v".to_string(),
            status: LoopxAgentTurnStatus::Interrupted,
            summary: None,
            blocks_repository: false,
        }
    );
    assert_eq!(on_agent_event(&mut gate, LoopxAgentEvent::Other, T0), LoopxSubscriberAction::Nothing);
}

#[test]
fn failure_text_prefers_the_provider_message_and_is_bounded() {
    let blank = AiErrorDetail {
        category: ErrorCategory::Other,
        provider_message: Some("   ".to_string()),
    };
    assert_eq!(failure_summary("boom", Some(&blank)), "boom");
    assert_eq!(failure_summary("boom", None), "boom");
    let long = "e".repeat(1200);
    assert_eq!(failure_summary(&long, None), "e".repeat(1000));
}

#[test]
fn only_classified_provider_failures_block_the_repository() {
    let auth = AiErrorDetail {
        category: ErrorCategory::Auth,
        provider_message: None,
    };
    assert!(failure_blocks_repository(Some(&ErrorCategory::Network), None));
    assert!(!failure_blocks_repository(Some(&ErrorCategory::Other), Some(&auth)));
    assert!(failure_blocks_repository(None, Some(&auth)));
    assert!(!failure_blocks_repository(None, None));
}

#[test]
fn the_gate_clock_is_monotonic() {
    let mut gate = ActivityGate::new();
    let first = gate.clock_ms();
    let second = gate.clock_ms();
    assert!(first >= 0);
    assert!(second >= first);
    assert!(gate.record_stream("t", false));
    assert!(!gate.record_stream("t", false));
    assert!(gate.record_stream("t", true));
}
