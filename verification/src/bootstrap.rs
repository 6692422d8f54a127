//! The one-time startup sequence: build the command bridge, plan the
//! host-facing startup actions — plugin and command registration strictly
//! before the event loop, the devtools affordance only in a debug build —
//! and decide, from what the host reports, whether startup proceeds to the
//! running phase or aborts.

use vstd::prelude::*;

use crate::bridge::{BridgeError, CommandBridge, HandlerId, lookup};

verus! {

/// Build-time configuration: whether this is a debug build. The debug
/// affordance (opening the devtools panel) is gated on it.
#[derive(Clone, Copy, Debug, PartialEq, Eq, Structural)]
pub struct BuildConfig {
    pub debug_mode: bool,
}

/// The two phases of the application: starting up, then serving the event
/// loop. There is no transition back.
#[derive(Clone, Copy, Debug, PartialEq, Eq, Structural)]
pub enum Phase {
    Initializing,
    Running,
}

/// The failures that abort startup: the host runtime could not be
/// constructed, or the main window handle could not be resolved while the
/// debug affordance needs it. Both are fatal by design.
#[derive(Clone, Copy, Debug, PartialEq, Eq, Structural)]
pub enum StartupError {
    RuntimeInitFailure,
}

/// What the host runtime reports while starting up: whether it could be
/// constructed, and whether the main window handle resolved.
#[derive(Clone, Copy, Debug, PartialEq, Eq, Structural)]
pub struct HostStatus {
    pub runtime_ok: bool,
    pub main_window_ok: bool,
}

/// The host-facing actions of the startup sequence, in order.
#[derive(Clone, Copy, Debug, PartialEq, Eq, Structural)]
pub enum StartupAction {
    RegisterShellPlugin,
    RegisterCommands,
    OpenDevtools,
    RunEventLoop,
}

/// The name under which the one native command is registered.
pub open spec fn system_info_name() -> Seq<char> {
    "get_system_info"@
}

/// What the bootstrap registers: exactly one command, `get_system_info`.
pub open spec fn default_entries() -> Seq<(Seq<char>, HandlerId)> {
    seq![(system_info_name(), HandlerId::GetSystemInfo)]
}

/// The planned startup actions for a build mode: plugin registration, then
/// command registration, then — in a debug build only — opening the
/// devtools, and the event loop last.
pub open spec fn planned_actions(debug_mode: bool) -> Seq<StartupAction> {
    if debug_mode {
        seq![
            StartupAction::RegisterShellPlugin,
            StartupAction::RegisterCommands,
            StartupAction::OpenDevtools,
            StartupAction::RunEventLoop,
        ]
    } else {
        seq![
            StartupAction::RegisterShellPlugin,
            StartupAction::RegisterCommands,
            StartupAction::RunEventLoop,
        ]
    }
}

/// Builds the command bridge the application starts with: an empty bridge
/// with `get_system_info` registered. The bridge was empty, so the one
/// registration cannot collide.
pub fn bootstrap_bridge() -> (r: CommandBridge)
    ensures
        r.wf(),
        r.entries() == default_entries(),
{
    let mut b = CommandBridge::new();
    let _registered = b.register(String::from_str("get_system_info"), HandlerId::GetSystemInfo);
    proof {
        assert(b.entries() =~= default_entries());
    }
    b
}

/// Plans the startup actions for `cfg`. The plan is exactly
/// `planned_actions(cfg.debug_mode)`: registrations strictly before the
/// event loop, the devtools affordance present only in a debug build.
pub fn startup_plan(cfg: &BuildConfig) -> (r: Vec<StartupAction>)
    ensures
        r@ == planned_actions(cfg.debug_mode),
{
    let mut r: Vec<StartupAction> = Vec::new();
    r.push(StartupAction::RegisterShellPlugin);
    r.push(StartupAction::RegisterCommands);
    if cfg.debug_mode {
        r.push(StartupAction::OpenDevtools);
    }
    r.push(StartupAction::RunEventLoop);
    proof {
        assert(r@ =~= planned_actions(cfg.debug_mode));
    }
    r
}

/// Decides whether startup proceeds: the application reaches the running
/// phase exactly when the host runtime was constructed and, in a debug
/// build, the main window handle resolved; otherwise startup aborts with
/// `RuntimeInitFailure`.
pub fn resolve_startup(cfg: &BuildConfig, st: &HostStatus) -> (r: Result<Phase, StartupError>)
    ensures
        st.runtime_ok && (cfg.debug_mode ==> st.main_window_ok) ==> r == Ok::<Phase, StartupError>(
            Phase::Running,
        ),
        !(st.runtime_ok && (cfg.debug_mode ==> st.main_window_ok)) ==> r == Err::<
            Phase,
            StartupError,
        >(StartupError::RuntimeInitFailure),
{
    if st.runtime_ok && (!cfg.debug_mode || st.main_window_ok) {
        Ok(Phase::Running)
    } else {
        Err(StartupError::RuntimeInitFailure)
    }
}

/// Law: the devtools affordance stands in a startup plan exactly for a
/// debug build — in a release build it is never invoked.
pub proof fn lemma_devtools_gated(debug_mode: bool)
    ensures
        planned_actions(debug_mode).contains(StartupAction::OpenDevtools) <==> debug_mode,
{
    let plan = planned_actions(debug_mode);
    if debug_mode {
        assert(plan[2] == StartupAction::OpenDevtools);
        assert(plan.contains(StartupAction::OpenDevtools));
    } else {
        assert forall|i: int| 0 <= i < plan.len() implies plan[i]
            != StartupAction::OpenDevtools by {
            assert(plan[0] == StartupAction::RegisterShellPlugin);
            assert(plan[1] == StartupAction::RegisterCommands);
            assert(plan[2] == StartupAction::RunEventLoop);
        }
    }
}

/// Law: startup is strictly ordered — in every plan the plugin registration
/// comes first and the command registration second, and the event loop is
/// the last action and appears nowhere earlier, so registrations complete
/// before the event loop starts.
pub proof fn lemma_registrations_precede_event_loop(debug_mode: bool)
    ensures
        planned_actions(debug_mode)[0] == StartupAction::RegisterShellPlugin,
        planned_actions(debug_mode)[1] == StartupAction::RegisterCommands,
        planned_actions(debug_mode).last() == StartupAction::RunEventLoop,
        forall|i: int|
            0 <= i < planned_actions(debug_mode).len() - 1 ==> planned_actions(debug_mode)[i]
                != StartupAction::RunEventLoop,
{
    let plan = planned_actions(debug_mode);
    assert forall|i: int| 0 <= i < plan.len() - 1 implies plan[i]
        != StartupAction::RunEventLoop by {
        assert(plan[0] == StartupAction::RegisterShellPlugin);
        assert(plan[1] == StartupAction::RegisterCommands);
        if debug_mode {
            assert(plan[2] == StartupAction::OpenDevtools);
        }
    }
}

/// Law: on the bridge the bootstrap builds, a lookup of any name other than
/// `get_system_info` finds no handler, so invoking such a name yields
/// `UnknownCommand`, by the contract of `invoke`.
pub proof fn lemma_unknown_command(b: CommandBridge, name: Seq<char>)
    requires
        b.entries() == default_entries(),
        name != system_info_name(),
    ensures
        lookup(b.entries(), name) is None,
        !b.is_registered(name),
{
    let entries = b.entries();
    assert(entries.len() == 1);
    assert(entries[0] == (system_info_name(), HandlerId::GetSystemInfo));
    assert(entries.drop_first() =~= Seq::<(Seq<char>, HandlerId)>::empty());
    assert(lookup(entries.drop_first(), name) is None);
    assert(lookup(entries, name) is None);
}

} // verus!
