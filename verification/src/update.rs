//! The forced update at start-up: look for a new version, tell the user that
//! it must be installed, install it and restart. Once a new version is found
//! the flow cannot be left without installing it: the user cannot decline the
//! notice, and a failed installation shows the notice again and retries.

use vstd::prelude::*;

verus! {

/// The text of the notice shown when version `version` is available.
pub open spec fn update_notice(version: Seq<char>) -> Seq<char> {
    "发现新版本 "@ + version + "，需要更新后才能继续使用。点击确定开始更新，完成后会自动重启。"@
}

/// The notice shown when `version` is available.
pub fn update_notice_text(version: &str) -> (text: String)
    ensures
        text@ == update_notice(version@),
{
    let mut text = String::from_str("发现新版本 ");
    text.append(version);
    text.append("，需要更新后才能继续使用。点击确定开始更新，完成后会自动重启。");
    text
}

/// Where the update flow stands.
#[derive(Debug, PartialEq, Eq)]
pub enum UpdateState {
    /// Waiting for the updater to be set up.
    Starting,
    /// Waiting for the answer of the update server.
    Checking,
    /// Showing the notice that this version must be installed.
    Notifying(String),
    /// Waiting for the download and installation of this version to end.
    Installing(String),
    /// Nothing more to do: no updater, no newer version, a failed check, or
    /// the restart into the installed version.
    Finished,
}

/// What happened since the last step.
#[derive(Debug, PartialEq, Eq)]
pub enum UpdateEvent {
    /// The updater could (`true`) or could not be set up.
    UpdaterReady(bool),
    /// The check failed.
    CheckFailed,
    /// The check found no newer version.
    UpToDate,
    /// The check found this version.
    Available(String),
    /// The notice was closed.
    NoticeClosed,
    /// The download and installation ended, with success (`true`) or not.
    Installed(bool),
}

/// What the shell does next.
#[derive(Debug, PartialEq, Eq)]
pub enum UpdateAction {
    /// Ask the update server whether a newer version exists.
    Check,
    /// Show a blocking notice with this title and text.
    Notify { title: String, text: String },
    /// Download and install the update.
    DownloadAndInstall,
    /// Restart the program into the new version.
    Restart,
    /// Nothing.
    Nothing,
}

/// The notice action for `version`.
pub open spec fn notice_action(version: Seq<char>) -> UpdateActionModel {
    UpdateActionModel::Notify { title: "有新版本"@, text: update_notice(version) }
}

/// The next state and action of the update flow. A failed installation goes
/// back to the notice, so the flow only ends after a found version through
/// the restart. An event that does not belong to the current state changes
/// nothing.
pub open spec fn update_step_spec(state: UpdateState, event: UpdateEvent) -> (UpdateState, UpdateActionModel) {
    match (state, event) {
        (UpdateState::Starting, UpdateEvent::UpdaterReady(true)) => (UpdateState::Checking, UpdateActionModel::Check),
        (UpdateState::Starting, UpdateEvent::UpdaterReady(false)) => (UpdateState::Finished, UpdateActionModel::Nothing),
        (UpdateState::Checking, UpdateEvent::CheckFailed) => (UpdateState::Finished, UpdateActionModel::Nothing),
        (UpdateState::Checking, UpdateEvent::UpToDate) => (UpdateState::Finished, UpdateActionModel::Nothing),
        (UpdateState::Checking, UpdateEvent::Available(v)) => (UpdateState::Notifying(v), notice_action(v@)),
        (UpdateState::Notifying(v), UpdateEvent::NoticeClosed) => (UpdateState::Installing(v), UpdateActionModel::DownloadAndInstall),
        (UpdateState::Installing(_), UpdateEvent::Installed(true)) => (UpdateState::Finished, UpdateActionModel::Restart),
        (UpdateState::Installing(v), UpdateEvent::Installed(false)) => (UpdateState::Notifying(v), notice_action(v@)),
        (s, _) => (s, UpdateActionModel::Nothing),
    }
}

/// An `UpdateAction` with its strings taken by their characters.
pub enum UpdateActionModel {
    Check,
    Notify { title: Seq<char>, text: Seq<char> },
    DownloadAndInstall,
    Restart,
    Nothing,
}

impl UpdateAction {
    pub open spec fn model(self) -> UpdateActionModel {
        match self {
            UpdateAction::Check => UpdateActionModel::Check,
            UpdateAction::Notify { title, text } => UpdateActionModel::Notify { title: title@, text: text@ },
            UpdateAction::DownloadAndInstall => UpdateActionModel::DownloadAndInstall,
            UpdateAction::Restart => UpdateActionModel::Restart,
            UpdateAction::Nothing => UpdateActionModel::Nothing,
        }
    }
}

/// One step of the update flow.
pub fn update_step(state: UpdateState, event: UpdateEvent) -> (r: (UpdateState, UpdateAction))
    ensures
        (r.0, r.1.model()) == update_step_spec(state, event),
{
    match (state, event) {
        (UpdateState::Starting, UpdateEvent::UpdaterReady(ok)) => if ok {
            (UpdateState::Checking, UpdateAction::Check)
        } else {
            (UpdateState::Finished, UpdateAction::Nothing)
        },
        (UpdateState::Checking, UpdateEvent::CheckFailed) => (UpdateState::Finished, UpdateAction::Nothing),
        (UpdateState::Checking, UpdateEvent::UpToDate) => (UpdateState::Finished, UpdateAction::Nothing),
        (UpdateState::Checking, UpdateEvent::Available(v)) => {
            let action = notice(v.as_str());
            (UpdateState::Notifying(v), action)
        },
        (UpdateState::Notifying(v), UpdateEvent::NoticeClosed) => (UpdateState::Installing(v), UpdateAction::DownloadAndInstall),
        (UpdateState::Installing(v), UpdateEvent::Installed(ok)) => if ok {
            (UpdateState::Finished, UpdateAction::Restart)
        } else {
            let action = notice(v.as_str());
            (UpdateState::Notifying(v), action)
        },
        (s, _) => (s, UpdateAction::Nothing),
    }
}

/// The notice that `version` must be installed.
fn notice(version: &str) -> (a: UpdateAction)
    ensures
        a.model() == notice_action(version@),
{
    UpdateAction::Notify { title: String::from_str("有新版本"), text: update_notice_text(version) }
}

/// The program restarts only when an installation has just succeeded.
pub proof fn restart_only_after_install(state: UpdateState, event: UpdateEvent)
    requires
        update_step_spec(state, event).1 is Restart,
    ensures
        state is Installing,
        event == UpdateEvent::Installed(true),
{
}

/// A successful installation always ends the flow with the restart into the
/// new version, whatever the version.
pub proof fn successful_install_restarts(version: String)
    ensures
        update_step_spec(UpdateState::Installing(version), UpdateEvent::Installed(true))
            == (UpdateState::Finished, UpdateActionModel::Restart),
{
}

/// The notice cannot be declined: while it is shown no event ends the flow,
/// and closing it starts the installation of the announced version.
pub proof fn notice_cannot_be_declined(version: String, event: UpdateEvent)
    ensures
        update_step_spec(UpdateState::Notifying(version), event).0 != UpdateState::Finished,
        event == UpdateEvent::NoticeClosed ==> update_step_spec(UpdateState::Notifying(version), event)
            == (UpdateState::Installing(version), UpdateActionModel::DownloadAndInstall),
{
}

/// A failed installation does not end the flow: the notice is shown again,
/// and closing it retries the installation.
pub proof fn failed_install_does_not_finish(version: String)
    ensures
        update_step_spec(UpdateState::Installing(version), UpdateEvent::Installed(false))
            == (UpdateState::Notifying(version), notice_action(version@)),
        update_step_spec(UpdateState::Installing(version), UpdateEvent::Installed(false)).0
            != UpdateState::Finished,
{
}

/// Once a newer version has been found, the flow is finished only by the
/// step that restarts into the installed version.
pub proof fn found_update_finishes_only_by_restart(state: UpdateState, event: UpdateEvent)
    requires
        state is Notifying || state is Installing,
        update_step_spec(state, event).0 == UpdateState::Finished,
    ensures
        update_step_spec(state, event).1 is Restart,
        state is Installing,
        event == UpdateEvent::Installed(true),
{
}

/// Every step from a state after a found version leads to such a state again,
/// or to the restart.
pub proof fn found_update_stays_forced(state: UpdateState, event: UpdateEvent)
    requires
        state is Notifying || state is Installing,
    ensures
        ({
            let (next, action) = update_step_spec(state, event);
            next is Notifying || next is Installing || (next == UpdateState::Finished && action is Restart)
        }),
{
}

/// A newer version always leads to the notice that names it.
pub proof fn available_version_is_announced(version: String)
    ensures
        update_step_spec(UpdateState::Checking, UpdateEvent::Available(version))
            == (UpdateState::Notifying(version), UpdateActionModel::Notify { title: "有新版本"@, text: update_notice(version@) }),
{
}

/// Once finished, the flow stays finished and does nothing more.
pub proof fn finished_is_final(event: UpdateEvent)
    ensures
        update_step_spec(UpdateState::Finished, event) == (UpdateState::Finished, UpdateActionModel::Nothing),
{
}

} // verus!
