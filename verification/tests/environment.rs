use loopx::control::{environment_facts, github_auth_probe_outcome};
use loopx::ports::{
    LoopxAgentProbeResult, LoopxCliError, LoopxCliErrorKind, LoopxCliExecutableIdentity,
    LoopxCliManifest, LoopxCliSource, LoopxGithubAuthProbe, LoopxHostPortError,
    LoopxHostPortErrorKind, LoopxNodeRuntimeFact, LoopxWorkspaceProbeResult,
};
use loopx::store::LoopxPersistedState;
use loopx::types::{
    LoopxEnvironmentFactStatus, LoopxEnvironmentRemediationAction, LoopxEnvironmentStatus,
    LoopxEventKind, LoopxEventLevel,
};

fn manifest(source: LoopxCliSource) -> LoopxCliManifest {
    LoopxCliManifest {
        loopx_version: "0.5.1".to_string(),
        executable: LoopxCliExecutableIdentity {
            source,
            identity: "managed-source".to_string(),
            ..LoopxCliExecutableIdentity::default()
        },
        node_runtime: LoopxNodeRuntimeFact {
            available: true,
            version: Some("v20.11.0".to_string()),
            ..LoopxNodeRuntimeFact::default()
        },
        ..LoopxCliManifest::default()
    }
}

fn workspace() -> Result<LoopxWorkspaceProbeResult, LoopxHostPortError> {
    Ok(LoopxWorkspaceProbeResult {
        git_version: Some("2.44".to_string()),
        workspace_root: "/work".to_string(),
        repository_verified: true,
    })
}

fn agent() -> Result<LoopxAgentProbeResult, LoopxHostPortError> {
    Ok(LoopxAgentProbeResult {
        model_id: "primary".to_string(),
        supports_images: false,
    })
}

fn authenticated() -> LoopxGithubAuthProbe {
    LoopxGithubAuthProbe {
        authenticated: true,
        rate_limit_remaining: Some(4000),
        detail: None,
    }
}

#[test]
fn a_healthy_check_makes_the_environment_ready() {
    let facts = environment_facts(
        &Ok(manifest(LoopxCliSource::Bundled)),
        &workspace(),
        &agent(),
        &authenticated(),
        Some(42),
    );
    assert_eq!(facts.sidecar.status, LoopxEnvironmentFactStatus::Available);
    assert_eq!(facts.sidecar.version.as_deref(), Some("0.5.1"));
    assert_eq!(facts.sidecar.detail.as_deref(), Some("managed-source"));
    assert_eq!(facts.python_fallback.status, LoopxEnvironmentFactStatus::Unknown);
    assert_eq!(
        facts.git_worktree.detail.as_deref(),
        Some("Writable workspace root: /work")
    );
    assert_eq!(facts.agent_model.version.as_deref(), Some("primary"));
    assert_eq!(facts.node_runtime.status, LoopxEnvironmentFactStatus::Available);
    assert_eq!(facts.github_auth.status, LoopxEnvironmentFactStatus::Available);
    assert_eq!(facts.sidecar.checked_at, Some(42));

    let mut state = LoopxPersistedState::new(1);
    state.mark_environment_checking(40);
    assert_eq!(state.environment.status, LoopxEnvironmentStatus::Checking);
    assert_eq!(state.revision, 1);
    state.commit_environment(facts, 43);
    assert_eq!(state.environment.status, LoopxEnvironmentStatus::Ready);
    assert_eq!(state.revision, 2);
    let last = state.events.last().unwrap();
    assert_eq!(last.kind, LoopxEventKind::EnvironmentChanged);
    assert_eq!(last.message, "LoopX environment validation finished with status Ready");
    assert_eq!(last.level, LoopxEventLevel::Info);
    assert!(!last.important);
    assert_eq!(state.events.len(), 2);
}

#[test]
fn a_missing_loopx_blocks_and_offers_the_install() {
    let missing = LoopxCliError {
        kind: LoopxCliErrorKind::NotFound,
        message: "loopx not installed".to_string(),
        ..LoopxCliError::default()
    };
    let facts = environment_facts(&Err(missing), &workspace(), &agent(), &authenticated(), Some(7));
    assert_eq!(facts.sidecar.status, LoopxEnvironmentFactStatus::Unavailable);
    assert_eq!(facts.sidecar.detail.as_deref(), Some("NotFound: loopx not installed"));
    assert_eq!(
        facts.sidecar.remediation_action,
        LoopxEnvironmentRemediationAction::InstallLoopx
    );
    assert_eq!(facts.node_runtime.status, LoopxEnvironmentFactStatus::Checking);

    let broken_agent: Result<LoopxAgentProbeResult, LoopxHostPortError> = Err(LoopxHostPortError {
        kind: LoopxHostPortErrorKind::Backend,
        message: "no model".to_string(),
        ..LoopxHostPortError::default()
    });
    let timeout = LoopxCliError {
        kind: LoopxCliErrorKind::Timeout,
        message: "slow".to_string(),
        ..LoopxCliError::default()
    };
    let facts = environment_facts(&Err(timeout), &workspace(), &broken_agent, &authenticated(), Some(7));
    assert_eq!(facts.sidecar.remediation_action, LoopxEnvironmentRemediationAction::NoRemediation);
    assert_eq!(facts.agent_model.status, LoopxEnvironmentFactStatus::Unavailable);

    let mut state = LoopxPersistedState::new(1);
    state.commit_environment(
        environment_facts(
            &Ok(LoopxCliManifest {
                node_runtime: LoopxNodeRuntimeFact::default(),
                ..manifest(LoopxCliSource::PythonFallback)
            }),
            &workspace(),
            &agent(),
            &authenticated(),
            Some(9),
        ),
        9,
    );
    assert_eq!(state.environment.status, LoopxEnvironmentStatus::Blocked);
    assert_eq!(
        state.environment.optional.python_fallback.status,
        LoopxEnvironmentFactStatus::Available
    );
    let last = state.events.last().unwrap();
    assert_eq!(last.message, "LoopX environment validation finished with status Blocked");
    assert_eq!(last.level, LoopxEventLevel::Error);
    assert!(last.important);
}

#[test]
fn a_failed_github_probe_counts_as_unauthenticated() {
    let error = LoopxCliError {
        kind: LoopxCliErrorKind::Process,
        message: "gh exited 1".to_string(),
        ..LoopxCliError::default()
    };
    let probe = github_auth_probe_outcome(Err(error));
    assert!(!probe.authenticated);
    assert_eq!(probe.rate_limit_remaining, None);
    assert_eq!(probe.detail.as_deref(), Some("GitHub auth probe failed: Process: gh exited 1"));
    assert_eq!(github_auth_probe_outcome(Ok(authenticated())), authenticated());
}
