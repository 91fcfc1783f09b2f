//! The update check as a state machine: the application performs each
//! action (checking, asking, downloading, installing) and reports back what
//! happened; the machine decides what to show and what to do next.
//!
//! A background check at launch is quiet about "up to date" and about a
//! failed check; a check the user asked for reports every outcome.

use vstd::prelude::*;
use vstd::string::*;

verus! {

/// Whether a message reports information or an error.
#[derive(Clone, Copy, Debug, PartialEq, Eq, Structural)]
pub enum NoticeKind {
    Info,
    Error,
}

/// A message shown in a dialog with a single OK button.
#[derive(Clone, Debug, PartialEq, Eq)]
pub struct Notice {
    pub title: String,
    pub message: String,
    pub kind: NoticeKind,
}

/// Where the update flow stands.
#[derive(Clone, Debug, PartialEq, Eq)]
pub enum UpdateStage {
    /// Waiting for the result of the update check.
    Checking,
    /// Waiting for the user to accept downloading `version`.
    ConfirmingDownload(String),
    /// Waiting for the download of `version`.
    Downloading(String),
    /// Waiting for the user to accept restarting into the update.
    ConfirmingRestart,
    /// Waiting for the installation.
    Installing,
    /// Nothing more to do.
    Finished,
}

/// What the application reports back.
#[derive(Clone, Debug, PartialEq, Eq)]
pub enum UpdateEvent {
    /// The updater could not be set up; the error text.
    UpdaterUnavailable(String),
    /// The check failed, for example offline; the error text.
    CheckFailed(String),
    /// The running version is the latest.
    UpToDate,
    /// A newer version exists.
    UpdateFound { version: String, current: String },
    /// The user's answer to a question.
    Answered(bool),
    /// The update was downloaded.
    Downloaded,
    /// The download failed; the error text.
    DownloadFailed(String),
    /// The update was installed.
    Installed,
    /// The installation failed; the error text.
    InstallFailed(String),
}

/// What the application is to do next.
#[derive(Clone, Debug, PartialEq, Eq)]
pub enum UpdateAction {
    /// Stop, after writing `log` to the error stream and showing `notice`,
    /// where given.
    Finish { log: Option<String>, notice: Option<Notice> },
    /// Ask a question with two buttons and report the answer.
    Ask { title: String, message: String, confirm: String, cancel: String },
    /// Download the update that was found.
    Download,
    /// Install the downloaded update.
    Install,
    /// Restart into the installed update.
    Restart,
}

/// A notice as values.
pub struct NoticeView {
    pub title: Seq<char>,
    pub message: Seq<char>,
    pub kind: NoticeKind,
}

/// The stages as values.
pub enum StageView {
    Checking,
    ConfirmingDownload(Seq<char>),
    Downloading(Seq<char>),
    ConfirmingRestart,
    Installing,
    Finished,
}

/// The events as values.
pub enum EventView {
    UpdaterUnavailable(Seq<char>),
    CheckFailed(Seq<char>),
    UpToDate,
    UpdateFound { version: Seq<char>, current: Seq<char> },
    Answered(bool),
    Downloaded,
    DownloadFailed(Seq<char>),
    Installed,
    InstallFailed(Seq<char>),
}

/// The actions as values.
pub enum ActionView {
    Finish { log: Option<Seq<char>>, notice: Option<NoticeView> },
    Ask { title: Seq<char>, message: Seq<char>, confirm: Seq<char>, cancel: Seq<char> },
    Download,
    Install,
    Restart,
}

impl View for Notice {
    type V = NoticeView;

    open spec fn view(&self) -> NoticeView {
        NoticeView { title: self.title@, message: self.message@, kind: self.kind }
    }
}

impl View for UpdateStage {
    type V = StageView;

    open spec fn view(&self) -> StageView {
        match self {
            UpdateStage::Checking => StageView::Checking,
            UpdateStage::ConfirmingDownload(v) => StageView::ConfirmingDownload(v@),
            UpdateStage::Downloading(v) => StageView::Downloading(v@),
            UpdateStage::ConfirmingRestart => StageView::ConfirmingRestart,
            UpdateStage::Installing => StageView::Installing,
            UpdateStage::Finished => StageView::Finished,
        }
    }
}

impl View for UpdateEvent {
    type V = EventView;

    open spec fn view(&self) -> EventView {
        match self {
            UpdateEvent::UpdaterUnavailable(e) => EventView::UpdaterUnavailable(e@),
            UpdateEvent::CheckFailed(e) => EventView::CheckFailed(e@),
            UpdateEvent::UpToDate => EventView::UpToDate,
            UpdateEvent::UpdateFound { version, current } => EventView::UpdateFound {
                version: version@,
                current: current@,
            },
            UpdateEvent::Answered(yes) => EventView::Answered(*yes),
            UpdateEvent::Downloaded => EventView::Downloaded,
            UpdateEvent::DownloadFailed(e) => EventView::DownloadFailed(e@),
            UpdateEvent::Installed => EventView::Installed,
            UpdateEvent::InstallFailed(e) => EventView::InstallFailed(e@),
        }
    }
}

impl View for UpdateAction {
    type V = ActionView;

    open spec fn view(&self) -> ActionView {
        match self {
            UpdateAction::Finish { log, notice } => ActionView::Finish {
                log: match log {
                    Some(l) => Some(l@),
                    None => None,
                },
                notice: match notice {
                    Some(n) => Some(n@),
                    None => None,
                },
            },
            UpdateAction::Ask { title, message, confirm, cancel } => ActionView::Ask {
                title: title@,
                message: message@,
                confirm: confirm@,
                cancel: cancel@,
            },
            UpdateAction::Download => ActionView::Download,
            UpdateAction::Install => ActionView::Install,
            UpdateAction::Restart => ActionView::Restart,
        }
    }
}

/// Stop without a word.
pub open spec fn quiet_finish() -> ActionView {
    ActionView::Finish { log: None, notice: None }
}

/// An error dialog.
pub open spec fn error_notice(title: Seq<char>, message: Seq<char>) -> NoticeView {
    NoticeView { title, message, kind: NoticeKind::Error }
}

/// The question asked when an update is found.
pub open spec fn download_question(version: Seq<char>, current: Seq<char>) -> ActionView {
    ActionView::Ask {
        title: "Update available"@,
        message: "KeyAura "@ + version + " is available \u{2014} you have "@ + current
            + ".\n\nDownload it now?"@,
        confirm: "Download"@,
        cancel: "Later"@,
    }
}

/// The question asked once the update is downloaded.
pub open spec fn restart_question(version: Seq<char>) -> ActionView {
    ActionView::Ask {
        title: "Update downloaded"@,
        message: "KeyAura "@ + version + " is ready to install. Restart now to finish updating?"@,
        confirm: "Restart"@,
        cancel: "Later"@,
    }
}

/// One step of the update flow: from where it stands and what happened, the
/// next stage and what to do. An event that does not belong to the stage
/// ends the flow without a word.
pub open spec fn next_step(
    verbose: bool,
    app_version: Seq<char>,
    stage: StageView,
    event: EventView,
) -> (StageView, ActionView) {
    match (stage, event) {
        (StageView::Checking, EventView::UpdaterUnavailable(e)) => (
            StageView::Finished,
            ActionView::Finish {
                log: Some("KeyAura: updater unavailable: "@ + e),
                notice: if verbose {
                    Some(error_notice("Could not check for updates"@, e))
                } else {
                    None
                },
            },
        ),
        (StageView::Checking, EventView::CheckFailed(e)) => (
            StageView::Finished,
            ActionView::Finish {
                log: Some("KeyAura: update check failed: "@ + e),
                notice: if verbose {
                    Some(error_notice("Could not check for updates"@, e))
                } else {
                    None
                },
            },
        ),
        (StageView::Checking, EventView::UpToDate) => (
            StageView::Finished,
            ActionView::Finish {
                log: None,
                notice: if verbose {
                    Some(
                        NoticeView {
                            title: "You're up to date"@,
                            message: "KeyAura "@ + app_version + " is the latest version."@,
                            kind: NoticeKind::Info,
                        },
                    )
                } else {
                    None
                },
            },
        ),
        (StageView::Checking, EventView::UpdateFound { version, current }) => (
            StageView::ConfirmingDownload(version),
            download_question(version, current),
        ),
        (StageView::ConfirmingDownload(version), EventView::Answered(yes)) => if yes {
            (StageView::Downloading(version), ActionView::Download)
        } else {
            (StageView::Finished, quiet_finish())
        },
        (StageView::Downloading(version), EventView::Downloaded) => (
            StageView::ConfirmingRestart,
            restart_question(version),
        ),
        (StageView::Downloading(_), EventView::DownloadFailed(e)) => (
            StageView::Finished,
            ActionView::Finish {
                log: None,
                notice: Some(error_notice("Update failed"@, "Could not download the update: "@ + e)),
            },
        ),
        (StageView::ConfirmingRestart, EventView::Answered(yes)) => if yes {
            (StageView::Installing, ActionView::Install)
        } else {
            (StageView::Finished, quiet_finish())
        },
        (StageView::Installing, EventView::Installed) => (StageView::Finished, ActionView::Restart),
        (StageView::Installing, EventView::InstallFailed(e)) => (
            StageView::Finished,
            ActionView::Finish {
                log: None,
                notice: Some(error_notice("Update failed"@, "Could not install the update: "@ + e)),
            },
        ),
        _ => (StageView::Finished, quiet_finish()),
    }
}

/// The update flow of one check.
#[derive(Clone, Debug, PartialEq, Eq)]
pub struct UpdateFlow {
    /// Whether the user asked for this check, so that every outcome is
    /// reported.
    pub verbose: bool,
    /// The version of the running application.
    pub app_version: String,
    /// Where the flow stands.
    pub stage: UpdateStage,
}

fn joined(a: &str, b: &str) -> (r: String)
    ensures
        r@ == a@ + b@,
{
    let mut r = String::from_str(a);
    r.append(b);
    r
}

fn joined3(a: &str, b: &str, c: &str) -> (r: String)
    ensures
        r@ == a@ + b@ + c@,
{
    let mut r = String::from_str(a);
    r.append(b);
    r.append(c);
    r
}

fn error_message(title: &str, message: String) -> (n: Notice)
    ensures
        n@ == error_notice(title@, message@),
{
    Notice { title: String::from_str(title), message, kind: NoticeKind::Error }
}

impl UpdateFlow {
    /// A flow at its start, waiting for the update check.
    pub fn new(verbose: bool, app_version: String) -> (flow: Self)
        ensures
            flow.verbose == verbose,
            flow.app_version@ == app_version@,
            flow.stage@ == StageView::Checking,
    {
        UpdateFlow { verbose, app_version, stage: UpdateStage::Checking }
    }

    /// Whether the flow has ended.
    pub fn is_finished(&self) -> (r: bool)
        ensures
            r == (self.stage@ is Finished),
    {
        match self.stage {
            UpdateStage::Finished => true,
            _ => false,
        }
    }

    /// Takes what happened and says what to do next.
    pub fn step(&mut self, event: UpdateEvent) -> (action: UpdateAction)
        ensures
            final(self).verbose == old(self).verbose,
            final(self).app_version@ == old(self).app_version@,
            (final(self).stage@, action@) == next_step(
                old(self).verbose,
                old(self).app_version@,
                old(self).stage@,
                event@,
            ),
    {
        let mut stage = UpdateStage::Finished;
        std::mem::swap(&mut stage, &mut self.stage);
        match (stage, event) {
            (UpdateStage::Checking, UpdateEvent::UpdaterUnavailable(e)) => {
                let log = joined("KeyAura: updater unavailable: ", e.as_str());
                let notice = if self.verbose {
                    Some(error_message("Could not check for updates", e))
                } else {
                    None
                };
                UpdateAction::Finish { log: Some(log), notice }
            },
            (UpdateStage::Checking, UpdateEvent::CheckFailed(e)) => {
                let log = joined("KeyAura: update check failed: ", e.as_str());
                let notice = if self.verbose {
                    Some(error_message("Could not check for updates", e))
                } else {
                    None
                };
                UpdateAction::Finish { log: Some(log), notice }
            },
            (UpdateStage::Checking, UpdateEvent::UpToDate) => {
                let notice = if self.verbose {
                    Some(
                        Notice {
                            title: String::from_str("You're up to date"),
                            message: joined3(
                                "KeyAura ",
                                self.app_version.as_str(),
                                " is the latest version.",
                            ),
                            kind: NoticeKind::Info,
                        },
                    )
                } else {
                    None
                };
                UpdateAction::Finish { log: None, notice }
            },
            (UpdateStage::Checking, UpdateEvent::UpdateFound { version, current }) => {
                let mut message = joined3(
                    "KeyAura ",
                    version.as_str(),
                    " is available \u{2014} you have ",
                );
                message.append(current.as_str());
                message.append(".\n\nDownload it now?");
                self.stage = UpdateStage::ConfirmingDownload(version);
                UpdateAction::Ask {
                    title: String::from_str("Update available"),
                    message,
                    confirm: String::from_str("Download"),
                    cancel: String::from_str("Later"),
                }
            },
            (UpdateStage::ConfirmingDownload(version), UpdateEvent::Answered(yes)) => {
                if yes {
                    self.stage = UpdateStage::Downloading(version);
                    UpdateAction::Download
                } else {
                    UpdateAction::Finish { log: None, notice: None }
                }
            },
            (UpdateStage::Downloading(version), UpdateEvent::Downloaded) => {
                let message = joined3(
                    "KeyAura ",
                    version.as_str(),
                    " is ready to install. Restart now to finish updating?",
                );
                self.stage = UpdateStage::ConfirmingRestart;
                UpdateAction::Ask {
                    title: String::from_str("Update downloaded"),
                    message,
                    confirm: String::from_str("Restart"),
                    cancel: String::from_str("Later"),
                }
            },
            (UpdateStage::Downloading(_), UpdateEvent::DownloadFailed(e)) => {
                let message = joined("Could not download the update: ", e.as_str());
                UpdateAction::Finish {
                    log: None,
                    notice: Some(error_message("Update failed", message)),
                }
            },
            (UpdateStage::ConfirmingRestart, UpdateEvent::Answered(yes)) => {
                if yes {
                    self.stage = UpdateStage::Installing;
                    UpdateAction::Install
                } else {
                    UpdateAction::Finish { log: None, notice: None }
                }
            },
            (UpdateStage::Installing, UpdateEvent::Installed) => UpdateAction::Restart,
            (UpdateStage::Installing, UpdateEvent::InstallFailed(e)) => {
                let message = joined("Could not install the update: ", e.as_str());
                UpdateAction::Finish {
                    log: None,
                    notice: Some(error_message("Update failed", message)),
                }
            },
            _ => UpdateAction::Finish { log: None, notice: None },
        }
    }
}

/// A check that the user did not ask for shows nothing when the application
/// is up to date or the check fails; it only writes the failure to the log.
pub proof fn lemma_background_check_is_quiet(app_version: Seq<char>, event: EventView)
    requires
        event is UpToDate || event is CheckFailed || event is UpdaterUnavailable,
    ensures
        next_step(false, app_version, StageView::Checking, event).1 matches ActionView::Finish {
            notice,
            ..
        } && notice is None,
{
}

/// A check the user asked for always answers: up to date, a failed check and
/// an updater that cannot be set up are all shown.
pub proof fn lemma_requested_check_reports(app_version: Seq<char>, event: EventView)
    requires
        event is UpToDate || event is CheckFailed || event is UpdaterUnavailable,
    ensures
        next_step(true, app_version, StageView::Checking, event).1 matches ActionView::Finish {
            notice,
            ..
        } && notice is Some,
{
}

/// Nothing is downloaded or installed unless the user accepted it just
/// before, and the restart comes only after a successful installation.
pub proof fn lemma_consent_before_download_and_install(
    verbose: bool,
    app_version: Seq<char>,
    stage: StageView,
    event: EventView,
)
    ensures
        next_step(verbose, app_version, stage, event).1 is Download ==> stage is ConfirmingDownload
            && event == EventView::Answered(true),
        next_step(verbose, app_version, stage, event).1 is Install ==> stage is ConfirmingRestart
            && event == EventView::Answered(true),
        next_step(verbose, app_version, stage, event).1 is Restart ==> stage is Installing && event
            is Installed,
{
}

/// The version that is downloaded and offered for restart is the one the
/// user was asked about.
pub proof fn lemma_download_follows_question(
    verbose: bool,
    app_version: Seq<char>,
    version: Seq<char>,
    current: Seq<char>,
)
    ensures
        ({
            let (s1, a1) = next_step(
                verbose,
                app_version,
                StageView::Checking,
                EventView::UpdateFound { version, current },
            );
            let (s2, a2) = next_step(verbose, app_version, s1, EventView::Answered(true));
            let (s3, a3) = next_step(verbose, app_version, s2, EventView::Downloaded);
            &&& a1 == download_question(version, current)
            &&& a2 is Download
            &&& s2 == StageView::Downloading(version)
            &&& a3 == restart_question(version)
        }),
{
}

/// Once finished, the flow stays finished and does nothing more.
pub proof fn lemma_finished_is_final(verbose: bool, app_version: Seq<char>, event: EventView)
    ensures
        next_step(verbose, app_version, StageView::Finished, event) == (
            StageView::Finished,
            quiet_finish(),
        ),
{
}

/// Whatever the verbose flag, accepting moves the flow on: accepting the
/// download downloads the version that was offered, accepting the restart
/// installs, and a finished installation restarts. Declining stops quietly.
pub proof fn lemma_acceptance_proceeds(verbose: bool, app_version: Seq<char>, version: Seq<char>)
    ensures
        next_step(verbose, app_version, StageView::ConfirmingDownload(version), EventView::Answered(true))
            == (StageView::Downloading(version), ActionView::Download),
        next_step(verbose, app_version, StageView::ConfirmingRestart, EventView::Answered(true)) == (
            StageView::Installing,
            ActionView::Install,
        ),
        next_step(verbose, app_version, StageView::Installing, EventView::Installed) == (
            StageView::Finished,
            ActionView::Restart,
        ),
        next_step(verbose, app_version, StageView::ConfirmingDownload(version), EventView::Answered(false))
            == (StageView::Finished, ActionView::Finish { log: None, notice: None }),
        next_step(verbose, app_version, StageView::ConfirmingRestart, EventView::Answered(false)) == (
            StageView::Finished,
            ActionView::Finish { log: None, notice: None },
        ),
{
}

/// Whatever the verbose flag, a found update is offered with its version and
/// the running one, and a downloaded one is offered for restart.
pub proof fn lemma_questions_name_the_versions(
    verbose: bool,
    app_version: Seq<char>,
    version: Seq<char>,
    current: Seq<char>,
)
    ensures
        next_step(
            verbose,
            app_version,
            StageView::Checking,
            EventView::UpdateFound { version, current },
        ) == (
            StageView::ConfirmingDownload(version),
            ActionView::Ask {
                title: "Update available"@,
                message: "KeyAura "@ + version + " is available \u{2014} you have "@ + current
                    + ".\n\nDownload it now?"@,
                confirm: "Download"@,
                cancel: "Later"@,
            },
        ),
        next_step(verbose, app_version, StageView::Downloading(version), EventView::Downloaded) == (
            StageView::ConfirmingRestart,
            ActionView::Ask {
                title: "Update downloaded"@,
                message: "KeyAura "@ + version
                    + " is ready to install. Restart now to finish updating?"@,
                confirm: "Restart"@,
                cancel: "Later"@,
            },
        ),
{
}

/// Whatever the verbose flag, a failed download or installation ends with
/// an error dialog that carries the error text.
pub proof fn lemma_failures_are_reported(
    verbose: bool,
    app_version: Seq<char>,
    version: Seq<char>,
    error: Seq<char>,
)
    ensures
        next_step(verbose, app_version, StageView::Downloading(version), EventView::DownloadFailed(error))
            == (
            StageView::Finished,
            ActionView::Finish {
                log: None,
                notice: Some(
                    NoticeView {
                        title: "Update failed"@,
                        message: "Could not download the update: "@ + error,
                        kind: NoticeKind::Error,
                    },
                ),
            },
        ),
        next_step(verbose, app_version, StageView::Installing, EventView::InstallFailed(error)) == (
            StageView::Finished,
            ActionView::Finish {
                log: None,
                notice: Some(
                    NoticeView {
                        title: "Update failed"@,
                        message: "Could not install the update: "@ + error,
                        kind: NoticeKind::Error,
                    },
                ),
            },
        ),
{
}

/// The outcome of the check itself: failures are always logged and shown
/// only to a user who asked; "up to date" is shown only to a user who asked.
pub proof fn lemma_check_outcomes(verbose: bool, app_version: Seq<char>, error: Seq<char>)
    ensures
        next_step(verbose, app_version, StageView::Checking, EventView::CheckFailed(error)) == (
            StageView::Finished,
            ActionView::Finish {
                log: Some("KeyAura: update check failed: "@ + error),
                notice: if verbose {
                    Some(
                        NoticeView {
                            title: "Could not check for updates"@,
                            message: error,
                            kind: NoticeKind::Error,
                        },
                    )
                } else {
                    None
                },
            },
        ),
        next_step(verbose, app_version, StageView::Checking, EventView::UpdaterUnavailable(error)) == (
            StageView::Finished,
            ActionView::Finish {
                log: Some("KeyAura: updater unavailable: "@ + error),
                notice: if verbose {
                    Some(
                        NoticeView {
                            title: "Could not check for updates"@,
                            message: error,
                            kind: NoticeKind::Error,
                        },
                    )
                } else {
                    None
                },
            },
        ),
        next_step(verbose, app_version, StageView::Checking, EventView::UpToDate) == (
            StageView::Finished,
            ActionView::Finish {
                log: None,
                notice: if verbose {
                    Some(
                        NoticeView {
                            title: "You're up to date"@,
                            message: "KeyAura "@ + app_version + " is the latest version."@,
                            kind: NoticeKind::Info,
                        },
                    )
                } else {
                    None
                },
            },
        ),
{
}

} // verus!
