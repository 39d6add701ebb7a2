//! Which app server the dashboard runs on: one that runs already, or a new one.

use vstd::prelude::*;

verus! {

/// What is known so far.
#[derive(Debug)]
pub enum BootstrapEvent {
    /// An app server answered with its version, or none did.
    Probed { app_server_version: Option<String> },
    /// The app server that answered is one of the daemon's own, or not.
    BackendChecked { app_server_version: String, managed: bool },
    /// The binary was found, and whether its updater runs.
    UpdaterChecked { app_server_version: String, codex_bin: String, auto_update_enabled: bool },
}

/// What is done next.
#[derive(Debug)]
pub enum BootstrapAction {
    CheckBackend { app_server_version: String },
    CheckUpdater { app_server_version: String },
    /// The app server that runs is used as it is.
    Reuse { app_server_version: String, codex_bin: String, auto_update_enabled: bool },
    /// A new app server is set up.
    SetUp,
    Refuse { message: String },
}

/// `action` follows `event`: a server that runs is used where the daemon manages it and refused
/// where it does not; a new one is set up only where none runs.
pub open spec fn follows(action: BootstrapAction, event: BootstrapEvent) -> bool {
    match event {
        BootstrapEvent::Probed { app_server_version: None } => action is SetUp,
        BootstrapEvent::Probed { app_server_version: Some(app_server_version) } => action
            == BootstrapAction::CheckBackend { app_server_version },
        BootstrapEvent::BackendChecked { app_server_version, managed } => if managed {
            action == BootstrapAction::CheckUpdater { app_server_version }
        } else {
            action matches BootstrapAction::Refuse { message } && message@
                == "app server is running but is not managed by codex app-server daemon"@
        },
        BootstrapEvent::UpdaterChecked { app_server_version, codex_bin, auto_update_enabled } =>
            action == BootstrapAction::Reuse { app_server_version, codex_bin, auto_update_enabled },
    }
}

pub fn bootstrap_for_agents(event: BootstrapEvent) -> (r: BootstrapAction)
    ensures
        follows(r, event),
{
    match event {
        BootstrapEvent::Probed { app_server_version } => match app_server_version {
            None => BootstrapAction::SetUp,
            Some(app_server_version) => BootstrapAction::CheckBackend { app_server_version },
        },
        BootstrapEvent::BackendChecked { app_server_version, managed } => if managed {
            BootstrapAction::CheckUpdater { app_server_version }
        } else {
            BootstrapAction::Refuse {
                message:
                    "app server is running but is not managed by codex app-server daemon".to_owned(),
            }
        },
        BootstrapEvent::UpdaterChecked { app_server_version, codex_bin, auto_update_enabled } =>
            BootstrapAction::Reuse { app_server_version, codex_bin, auto_update_enabled },
    }
}

/// A server that runs is never replaced.
pub proof fn lemma_running_server_stays(event: BootstrapEvent, action: BootstrapAction)
    requires
        follows(action, event),
    ensures
        action is SetUp <==> event is Probed && event->Probed_app_server_version is None,
{
}

} // verus!
