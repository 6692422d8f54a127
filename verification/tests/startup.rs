//! Tests of the bootstrap: the banner scenario, the unknown-command
//! scenario, the startup plan, and the startup decision.

use desktop_admin::bootstrap::{
    bootstrap_bridge, resolve_startup, startup_plan, BuildConfig, HostStatus, Phase, StartupAction,
    StartupError,
};
use desktop_admin::bridge::BridgeError;
use desktop_admin::commands::{get_system_info, version};

#[test]
fn get_system_info_returns_exact_banner() {
    let bridge = bootstrap_bridge();
    let r = bridge.invoke(&String::from("get_system_info"));
    assert_eq!(r, Ok(String::from("SocialAi Admin v1.0.0")));
}

#[test]
fn banner_has_prefix_and_version_token() {
    let banner = get_system_info();
    assert!(banner.starts_with("SocialAi Admin v"));
    let token = &banner["SocialAi Admin v".len()..];
    assert!(!token.is_empty());
    assert_eq!(token, version().as_str());
}

#[test]
fn undefined_command_shutdown_is_unknown() {
    let bridge = bootstrap_bridge();
    let r = bridge.invoke(&String::from("shutdown"));
    assert_eq!(r, Err(BridgeError::UnknownCommand));
}

#[test]
fn release_plan_never_opens_devtools() {
    let plan = startup_plan(&BuildConfig { debug_mode: false });
    assert!(!plan.contains(&StartupAction::OpenDevtools));
    assert_eq!(
        plan,
        vec![
            StartupAction::RegisterShellPlugin,
            StartupAction::RegisterCommands,
            StartupAction::RunEventLoop,
        ]
    );
}

#[test]
fn debug_plan_opens_devtools_before_event_loop() {
    let plan = startup_plan(&BuildConfig { debug_mode: true });
    assert_eq!(
        plan,
        vec![
            StartupAction::RegisterShellPlugin,
            StartupAction::RegisterCommands,
            StartupAction::OpenDevtools,
            StartupAction::RunEventLoop,
        ]
    );
}

#[test]
fn registrations_precede_event_loop() {
    for debug_mode in [false, true] {
        let plan = startup_plan(&BuildConfig { debug_mode });
        assert_eq!(plan.last(), Some(&StartupAction::RunEventLoop));
        assert_eq!(plan[0], StartupAction::RegisterShellPlugin);
        assert_eq!(plan[1], StartupAction::RegisterCommands);
    }
}

#[test]
fn healthy_host_reaches_running_phase() {
    let st = HostStatus { runtime_ok: true, main_window_ok: true };
    assert_eq!(resolve_startup(&BuildConfig { debug_mode: false }, &st), Ok(Phase::Running));
    assert_eq!(resolve_startup(&BuildConfig { debug_mode: true }, &st), Ok(Phase::Running));
}

#[test]
fn failed_runtime_aborts_startup() {
    let st = HostStatus { runtime_ok: false, main_window_ok: true };
    assert_eq!(
        resolve_startup(&BuildConfig { debug_mode: false }, &st),
        Err(StartupError::RuntimeInitFailure)
    );
}

#[test]
fn missing_main_window_aborts_only_debug_startup() {
    let st = HostStatus { runtime_ok: true, main_window_ok: false };
    assert_eq!(
        resolve_startup(&BuildConfig { debug_mode: true }, &st),
        Err(StartupError::RuntimeInitFailure)
    );
    // In a release build the window handle is never resolved, so startup runs.
    assert_eq!(resolve_startup(&BuildConfig { debug_mode: false }, &st), Ok(Phase::Running));
}
