//! Who may reach the LoopX controller, and the private bridge extension.

use vstd::prelude::*;

use crate::text::{push_str, str_eq};
use crate::types::LOOPX_BUILTIN_APP_ID;

verus! {

/// The error code for a workspace LoopX cannot run in.
pub const LOOPX_UNSUPPORTED_EXECUTION_DOMAIN: &'static str = "unsupported_execution_domain";

/// The message returned for a remote workspace.
pub open spec fn unsupported_message() -> Seq<char> {
    "unsupported_execution_domain: LoopX currently supports only a local Desktop workspace"@
}

/// The error for a workspace LoopX cannot run in; it begins with the stable
/// `unsupported_execution_domain` code.
pub fn unsupported_error() -> (res: String)
    ensures
        res@ == unsupported_message(),
{
    let mut res = String::new();
    push_str(&mut res, LOOPX_UNSUPPORTED_EXECUTION_DOMAIN);
    push_str(&mut res, ": LoopX currently supports only a local Desktop workspace");
    proof {
        reveal_strlit("unsupported_execution_domain");
        reveal_strlit(": LoopX currently supports only a local Desktop workspace");
        reveal_strlit(
            "unsupported_execution_domain: LoopX currently supports only a local Desktop workspace",
        );
    }
    assert(res@ =~= unsupported_message());
    res
}

/// The bridge source the verified built-in LoopX surface receives.
pub open spec fn bridge_source() -> Seq<char> {
    "// Private product extension for the verified built-in LoopX surface.
    // The outer bridge and Desktop host independently verify active scope,
    // bundled source identity, customization origin, and execution domain.
    loopx: {
      attach:        (opts) => _rpc('loopx.attach', opts || {}),
      listModels:    () => _rpc('loopx.listModels', {}),
      resolveIntake: (opts) => _rpc('loopx.resolveIntake', opts || {}),
      createTask:    (opts) => _rpc('loopx.createTask', opts || {}),
      action:        (opts) => _rpc('loopx.action', opts || {}),
      eventsSince:   (opts) => _rpc('loopx.eventsSince', opts || {}),
      turnOutputSince: (opts) => _rpc('loopx.turnOutputSince', opts || {}),
      onEvent:       (fn) => app.on('loopx:event', fn),
      offEvent:      (fn) => app.off('loopx:event', fn),
    },"@
}

/// Private runtime extension for the verified built-in LoopX product surface.
/// Ordinary and marketplace MiniApps never receive this source.
pub fn private_bridge_extension(app_id: &str) -> (res: Option<&'static str>)
    ensures
        res is Some <==> app_id@ == LOOPX_BUILTIN_APP_ID@,
        res matches Some(s) ==> s@ == bridge_source(),
{
    if str_eq(app_id, LOOPX_BUILTIN_APP_ID) {
        Some(
            "// Private product extension for the verified built-in LoopX surface.
    // The outer bridge and Desktop host independently verify active scope,
    // bundled source identity, customization origin, and execution domain.
    loopx: {
      attach:        (opts) => _rpc('loopx.attach', opts || {}),
      listModels:    () => _rpc('loopx.listModels', {}),
      resolveIntake: (opts) => _rpc('loopx.resolveIntake', opts || {}),
      createTask:    (opts) => _rpc('loopx.createTask', opts || {}),
      action:        (opts) => _rpc('loopx.action', opts || {}),
      eventsSince:   (opts) => _rpc('loopx.eventsSince', opts || {}),
      turnOutputSince: (opts) => _rpc('loopx.turnOutputSince', opts || {}),
      onEvent:       (fn) => app.on('loopx:event', fn),
      offEvent:      (fn) => app.off('loopx:event', fn),
    },",
        )
    } else {
        None
    }
}

/// The customization record of an installed MiniApp, as far as the
/// authorization reads it.
#[derive(Debug, Clone, PartialEq, Eq)]
pub struct LoopxCustomizationFacts {
    pub local_override: bool,
    pub origin_is_builtin: bool,
    pub origin_builtin_id: Option<String>,
}

/// Why the controller refuses a MiniApp.
pub open spec fn msg_not_builtin() -> Seq<char> {
    "LoopX controller is available only to the built-in LoopX MiniApp"@
}

pub open spec fn msg_bundle_missing() -> Seq<char> {
    "Built-in LoopX bundle is unavailable"@
}

pub open spec fn msg_modified() -> Seq<char> {
    "LoopX controller is disabled for modified MiniApp content"@
}

pub open spec fn msg_override() -> Seq<char> {
    "LoopX controller is disabled for a local MiniApp override"@
}

/// The outcome of the authorization checks, in the order the host makes them:
/// the app id, the bundled source, loading the installed app, its source
/// identity, loading its customization record, and that record's origin.
pub open spec fn spec_authorize_builtin(
    app_id: Seq<char>,
    bundle_present: bool,
    app_source_matches: Result<bool, Seq<char>>,
    customization: Result<Option<LoopxCustomizationFacts>, Seq<char>>,
) -> Result<(), Seq<char>> {
    if app_id != LOOPX_BUILTIN_APP_ID@ {
        Err(msg_not_builtin())
    } else if !bundle_present {
        Err(msg_bundle_missing())
    } else {
        match app_source_matches {
            Err(e) => Err("Failed to load built-in LoopX MiniApp: "@ + e),
            Ok(false) => Err(msg_modified()),
            Ok(true) => match customization {
                Err(e) => Err("Failed to load LoopX customization metadata: "@ + e),
                Ok(None) => Ok(()),
                Ok(Some(m)) => if m.local_override || !m.origin_is_builtin || !(
                m.origin_builtin_id matches Some(id) && id@ == LOOPX_BUILTIN_APP_ID@) {
                    Err(msg_override())
                } else {
                    Ok(())
                },
            },
        }
    }
}

/// The view of a result whose error is a string.
pub open spec fn result_text_view<T>(r: Result<T, String>) -> Result<T, Seq<char>> {
    match r {
        Ok(v) => Ok(v),
        Err(e) => Err(e@),
    }
}

/// Decides whether a MiniApp may use the LoopX controller: only the built-in
/// LoopX MiniApp, with its bundled source unmodified and no local override.
pub fn authorize_builtin(
    app_id: &str,
    bundle_present: bool,
    app_source_matches: Result<bool, String>,
    customization: Result<Option<LoopxCustomizationFacts>, String>,
) -> (res: Result<(), String>)
    ensures
        result_text_view(res) == spec_authorize_builtin(
            app_id@,
            bundle_present,
            result_text_view(app_source_matches),
            result_text_view(customization),
        ),
{
    if !str_eq(app_id, LOOPX_BUILTIN_APP_ID) {
        let mut e = String::new();
        push_str(&mut e, "LoopX controller is available only to the built-in LoopX MiniApp");
        return Err(e);
    }
    if !bundle_present {
        let mut e = String::new();
        push_str(&mut e, "Built-in LoopX bundle is unavailable");
        return Err(e);
    }
    match app_source_matches {
        Err(error) => {
            let mut e = String::new();
            push_str(&mut e, "Failed to load built-in LoopX MiniApp: ");
            push_str(&mut e, error.as_str());
            return Err(e);
        },
        Ok(false) => {
            let mut e = String::new();
            push_str(&mut e, "LoopX controller is disabled for modified MiniApp content");
            return Err(e);
        },
        Ok(true) => {},
    }
    match customization {
        Err(error) => {
            let mut e = String::new();
            push_str(&mut e, "Failed to load LoopX customization metadata: ");
            push_str(&mut e, error.as_str());
            Err(e)
        },
        Ok(None) => Ok(()),
        Ok(Some(m)) => {
            let builtin_id_ok = match &m.origin_builtin_id {
                Some(id) => str_eq(id.as_str(), LOOPX_BUILTIN_APP_ID),
                None => false,
            };
            if m.local_override || !m.origin_is_builtin || !builtin_id_ok {
                let mut e = String::new();
                push_str(&mut e, "LoopX controller is disabled for a local MiniApp override");
                Err(e)
            } else {
                Ok(())
            }
        },
    }
}

/// Windows 11 22H2 is the first release that can host the window backdrop in
/// the compositor.
pub const WINDOWS_BACKDROP_MIN_BUILD: u32 = 22621;

/// Whether the compositor can host the window backdrop, given whether the
/// version query succeeded and the build number it reported.
pub fn backdrop_available_for_build(version_known: bool, build_number: u32) -> (res: bool)
    ensures
        res == (version_known && build_number >= WINDOWS_BACKDROP_MIN_BUILD),
{
    version_known && build_number >= WINDOWS_BACKDROP_MIN_BUILD
}

} // verus!
