use loopx::ports::{default_cli_schema_version, default_loopx_version, LoopxCliHandshakeRequest};
use loopx::types::{
    default_loopx_model_id, LoopxEnvironmentFactStatus, LoopxExecutionSupport,
    LoopxResolveIntakeRequest, LoopxSnapshot, LOOPX_CLI_SCHEMA_VERSION, LOOPX_PINNED_VERSION,
};

#[test]
fn handshake_request_defaults_to_the_pinned_contract() {
    let request = LoopxCliHandshakeRequest::default();
    assert_eq!(request.required_loopx_version, LOOPX_PINNED_VERSION);
    assert_eq!(request.required_loopx_version, "0.5.1");
    assert_eq!(request.required_schema_version, LOOPX_CLI_SCHEMA_VERSION);
    assert_eq!(default_loopx_version(), "0.5.1");
    assert_eq!(default_cli_schema_version(), 1);
}

#[test]
fn resolve_request_defaults_to_the_automatic_model() {
    assert_eq!(LoopxResolveIntakeRequest::default().model_id, "auto");
    assert_eq!(default_loopx_model_id(), "auto");
}

#[test]
fn empty_snapshot_is_unsupported_with_unknown_facts() {
    let snapshot = LoopxSnapshot::default();
    assert_eq!(snapshot.schema_version, LOOPX_CLI_SCHEMA_VERSION);
    assert!(snapshot.tasks.is_empty());
    assert_eq!(
        snapshot.execution_support,
        LoopxExecutionSupport::UnsupportedExecutionDomain
    );
    assert_eq!(
        snapshot.environment.core.sidecar.status,
        LoopxEnvironmentFactStatus::Unknown
    );
}
