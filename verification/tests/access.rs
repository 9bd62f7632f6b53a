use loopx::access::{
    authorize_builtin, backdrop_available_for_build, private_bridge_extension, unsupported_error,
    LoopxCustomizationFacts, LOOPX_UNSUPPORTED_EXECUTION_DOMAIN, WINDOWS_BACKDROP_MIN_BUILD,
};
use loopx::types::LOOPX_BUILTIN_APP_ID;

#[test]
fn unsupported_execution_domain_is_stable() {
    assert!(unsupported_error().starts_with(LOOPX_UNSUPPORTED_EXECUTION_DOMAIN));
}

fn builtin_customization() -> LoopxCustomizationFacts {
    LoopxCustomizationFacts {
        local_override: false,
        origin_is_builtin: true,
        origin_builtin_id: Some(LOOPX_BUILTIN_APP_ID.to_string()),
    }
}

#[test]
fn only_the_unmodified_builtin_app_is_authorized() {
    let id = LOOPX_BUILTIN_APP_ID;
    assert_eq!(authorize_builtin(id, true, Ok(true), Ok(None)), Ok(()));
    assert_eq!(
        authorize_builtin(id, true, Ok(true), Ok(Some(builtin_customization()))),
        Ok(())
    );
    assert_eq!(
        authorize_builtin("other-app", true, Ok(true), Ok(None)),
        Err("LoopX controller is available only to the built-in LoopX MiniApp".to_string())
    );
    assert_eq!(
        authorize_builtin(id, false, Ok(true), Ok(None)),
        Err("Built-in LoopX bundle is unavailable".to_string())
    );
    assert_eq!(
        authorize_builtin(id, true, Err("io".to_string()), Ok(None)),
        Err("Failed to load built-in LoopX MiniApp: io".to_string())
    );
    assert_eq!(
        authorize_builtin(id, true, Ok(false), Ok(None)),
        Err("LoopX controller is disabled for modified MiniApp content".to_string())
    );
    assert_eq!(
        authorize_builtin(id, true, Ok(true), Err("bad json".to_string())),
        Err("Failed to load LoopX customization metadata: bad json".to_string())
    );
    let overridden = LoopxCustomizationFacts {
        local_override: true,
        ..builtin_customization()
    };
    assert_eq!(
        authorize_builtin(id, true, Ok(true), Ok(Some(overridden))),
        Err("LoopX controller is disabled for a local MiniApp override".to_string())
    );
    let foreign = LoopxCustomizationFacts {
        origin_builtin_id: Some("other".to_string()),
        ..builtin_customization()
    };
    assert!(authorize_builtin(id, true, Ok(true), Ok(Some(foreign))).is_err());
}

#[test]
fn bridge_extension_is_private_to_the_builtin_app() {
    let source = private_bridge_extension(LOOPX_BUILTIN_APP_ID).expect("builtin bridge");
    assert!(source.contains("loopx.attach"));
    assert!(source.contains("loopx.turnOutputSince"));
    assert_eq!(private_bridge_extension("other-app"), None);
}

#[test]
fn window_backdrop_needs_a_known_recent_build() {
    assert!(backdrop_available_for_build(true, WINDOWS_BACKDROP_MIN_BUILD));
    assert!(backdrop_available_for_build(true, 26100));
    assert!(!backdrop_available_for_build(true, 22000));
    assert!(!backdrop_available_for_build(false, 26100));
}
