//! What the user is told: notices, prompts and toasts.

use vstd::prelude::*;
use vstd::string::*;
use crate::moment::{deadline_due, is_due, Moment};
use crate::geometry::Rect;
use crate::process::ProcessKind;

verus! {

/// How long an error notice stays up before it dismisses itself. Longer than a
/// toast, so that a failure has time to be read.
pub const NOTICE_MILLIS: u64 = 6_000;

/// How long a toast stays up before it dismisses itself.
pub const TOAST_MILLIS: u64 = 3_000;

/// Shown when durable agent-session state cannot be loaded or written.
pub const AGENT_SESSION_STORE_ERROR: &'static str = "could not update agent session history";

/// Shown when a failed pin could not be undone in the session history.
pub const AGENT_SESSION_ROLLBACK_ERROR: &'static str = "could not restore agent session history";

/// Shown when a closed session has no provider identity to resume.
pub const AGENT_SESSION_NOT_RESUMABLE: &'static str =
    "the provider session ID was not captured; run `muster hooks setup`";

/// Shown when there is no closed resumable session in this workspace.
pub const NO_RECENT_AGENT_SESSION: &'static str = "no closed agent session to reopen";

/// Shown when a session reopen has to wait for project teardown.
pub const PROJECT_SWITCH_IN_PROGRESS: &'static str =
    "project switch in progress; reopen after it completes";

/// Shown when removal is asked of the launched project's unsaved row.
pub const CANNOT_REMOVE_LAUNCHED: &'static str =
    "this project is not saved, so there is nothing to remove";

/// Shown when a row that is already shutting down is deleted again.
pub const DELETE_ALREADY_RETIRING: &'static str = "this process is already being removed";

/// Shown when the project changed while a deletion waited for confirmation.
pub const DELETE_PROJECT_CHANGED: &'static str = "nothing deleted: the project changed";

/// Shown when the entry vanished while its deletion waited for confirmation.
pub const DELETE_ENTRY_GONE: &'static str = "nothing deleted: the entry is no longer in the config";

/// Shown when a project's config file cannot be written.
pub const WORKSPACE_SAVE_ERROR: &'static str = "could not write the project config";

/// Shown when neither the requested signal nor a hard kill can be delivered.
pub const STOP_DELIVERY_FAILED_NOTICE: &'static str = "could not stop the process";

/// Shown when graceful signal delivery fails and an immediate kill is used.
pub const GRACEFUL_STOP_FALLBACK_NOTICE: &'static str = "graceful shutdown failed; force-killed";

/// Shown when a graceful shutdown deadline expires.
pub const FORCE_STOP_NOTICE: &'static str = "graceful shutdown timed out; force-killed";

/// Shown when autostart is requested for a runtime agent session.
pub const SESSION_AUTOSTART_UNAVAILABLE: &'static str =
    "open agent sessions restore automatically; use d to close one";

/// Shown when autostart cannot persist because the process has no config entry.
pub const AUTOSTART_UNTRACKED: &'static str = "autostart unchanged: process is not in the config";

/// Shown when no process waits for input.
pub const NO_ATTENTION_WAITING: &'static str = "no process is waiting for input";

/// Shown when a configured agent of the same name exists.
pub const AGENT_NAME_TAKEN: &'static str = "another agent already uses that name";

/// Shown when a custom agent session has no launch command.
pub const AGENT_COMMAND_REQUIRED: &'static str = "a custom agent needs a command";

/// Shown when a custom resume placeholder cannot be expanded safely.
pub const AGENT_RESUME_TEMPLATE_INVALID: &'static str =
    "resume placeholder must be an unquoted standalone shell word";

/// Shown when a shell composition needs an explicit provider resume command.
pub const AGENT_COMPOUND_RESUME_REQUIRED: &'static str =
    "shell compositions need an explicit resume command";

/// Shown when a conversation is pinned while its provider still runs.
pub const PIN_SOURCE_STILL_RUNNING: &'static str = "that conversation is still running";

/// Shown when close is requested for a configured process.
pub const CONFIGURED_AGENT_CLOSE_UNAVAILABLE: &'static str =
    "configured agents stay pinned in muster.yml";

/// Shown when settings could not be loaded and must not be overwritten.
pub const SETTINGS_LOAD_ERROR: &'static str = "could not load settings; file left unchanged";

/// Shown when the settings file cannot be written.
pub const SETTINGS_SAVE_ERROR: &'static str = "could not save settings";

/// Shown when settings have not been wired yet.
pub const SETTINGS_UNAVAILABLE: &'static str = "settings are unavailable";

/// Shown when desktop notifications are toggled on.
pub const DESKTOP_NOTIFICATIONS_ON: &'static str = "desktop notifications on";

/// Shown when desktop notifications are toggled off.
pub const DESKTOP_NOTIFICATIONS_OFF: &'static str = "desktop notifications off";

/// Shown for a bare bell that carried no text of its own.
pub const AWAITING_INPUT_NOTICE: &'static str = "awaiting input";

/// Stands between a subject and what is said of it.
pub const SEPARATOR: &'static str = ": ";

/// A message to the user.
#[derive(Debug)]
pub enum Message {
    /// The session history could not be read or written, and why.
    SessionStore(String),
    /// The session history could not be written.
    SessionStoreFailed,
    /// A pin could not be undone, and why.
    SessionRollback(String),
    /// The session has no provider identity.
    NotResumable,
    /// There is nothing to reopen.
    NoRecentSession,
    /// A project switch is under way.
    SwitchInProgress,
    /// A project could not be opened, and why.
    ProjectOpen {
        /// Name of the project.
        name: String,
        /// Reason.
        error: String,
    },
    /// The launched project is not saved.
    CannotRemoveLaunched,
    /// The row is already shutting down.
    DeleteAlreadyRetiring,
    /// The project changed meanwhile.
    DeleteProjectChanged,
    /// The entry vanished meanwhile.
    DeleteEntryGone,
    /// The config could not be written.
    WorkspaceSave,
    /// Nothing could be delivered to the process.
    StopDeliveryFailed,
    /// A kill took the place of the graceful signal.
    GracefulFallback,
    /// The graceful shutdown timed out.
    ForceStopped,
    /// Sessions restore by themselves.
    SessionAutostart,
    /// The process has no config entry.
    AutostartUntracked,
    /// No process waits for input.
    NoAttention,
    /// The name is taken.
    NameTaken,
    /// A command is needed.
    CommandRequired,
    /// The resume placeholder is not usable.
    ResumeTemplateInvalid,
    /// A resume command is needed.
    CompoundResumeRequired,
    /// The conversation still runs.
    PinSourceRunning,
    /// Configured agents stay.
    ConfiguredClose,
    /// The settings could not be loaded, and why.
    SettingsLoad(String),
    /// The settings could not be saved.
    SettingsSave,
    /// The settings are not wired.
    SettingsUnavailable,
    /// Desktop notifications are on.
    DesktopOn,
    /// Desktop notifications are off.
    DesktopOff,
    /// A process said something.
    Raised {
        /// Name of the process.
        name: String,
        /// What it said.
        text: String,
    },
    /// A process rang its bell.
    Rang(String),
    /// What a component outside this library said.
    Outside(String),
}

/// A subject and what is said of it.
pub open spec fn said_of(subject: Seq<char>, said: Seq<char>) -> Seq<char> {
    subject + SEPARATOR@ + said
}

/// Returns a subject and what is said of it.
fn say_of(subject: &str, said: &str) -> (text: String)
    ensures
        text@ == said_of(subject@, said@),
{
    let mut text: String = subject.to_string();
    text.append(SEPARATOR);
    text.append(said);
    text
}

impl Message {
    /// The text of a message.
    pub open spec fn words(self) -> Seq<char> {
        match self {
            Message::SessionStore(error) => said_of(AGENT_SESSION_STORE_ERROR@, error@),
            Message::SessionStoreFailed => AGENT_SESSION_STORE_ERROR@,
            Message::SessionRollback(error) => said_of(AGENT_SESSION_ROLLBACK_ERROR@, error@),
            Message::NotResumable => AGENT_SESSION_NOT_RESUMABLE@,
            Message::NoRecentSession => NO_RECENT_AGENT_SESSION@,
            Message::SwitchInProgress => PROJECT_SWITCH_IN_PROGRESS@,
            Message::ProjectOpen { name, error } => said_of(name@, error@),
            Message::CannotRemoveLaunched => CANNOT_REMOVE_LAUNCHED@,
            Message::DeleteAlreadyRetiring => DELETE_ALREADY_RETIRING@,
            Message::DeleteProjectChanged => DELETE_PROJECT_CHANGED@,
            Message::DeleteEntryGone => DELETE_ENTRY_GONE@,
            Message::WorkspaceSave => WORKSPACE_SAVE_ERROR@,
            Message::StopDeliveryFailed => STOP_DELIVERY_FAILED_NOTICE@,
            Message::GracefulFallback => GRACEFUL_STOP_FALLBACK_NOTICE@,
            Message::ForceStopped => FORCE_STOP_NOTICE@,
            Message::SessionAutostart => SESSION_AUTOSTART_UNAVAILABLE@,
            Message::AutostartUntracked => AUTOSTART_UNTRACKED@,
            Message::NoAttention => NO_ATTENTION_WAITING@,
            Message::NameTaken => AGENT_NAME_TAKEN@,
            Message::CommandRequired => AGENT_COMMAND_REQUIRED@,
            Message::ResumeTemplateInvalid => AGENT_RESUME_TEMPLATE_INVALID@,
            Message::CompoundResumeRequired => AGENT_COMPOUND_RESUME_REQUIRED@,
            Message::PinSourceRunning => PIN_SOURCE_STILL_RUNNING@,
            Message::ConfiguredClose => CONFIGURED_AGENT_CLOSE_UNAVAILABLE@,
            Message::SettingsLoad(error) => said_of(SETTINGS_LOAD_ERROR@, error@),
            Message::SettingsSave => SETTINGS_SAVE_ERROR@,
            Message::SettingsUnavailable => SETTINGS_UNAVAILABLE@,
            Message::DesktopOn => DESKTOP_NOTIFICATIONS_ON@,
            Message::DesktopOff => DESKTOP_NOTIFICATIONS_OFF@,
            Message::Raised { name, text } => said_of(name@, text@),
            Message::Rang(name) => said_of(name@, AWAITING_INPUT_NOTICE@),
            Message::Outside(text) => text@,
        }
    }

    /// Returns the text of the message.
    pub fn text(&self) -> (text: String)
        ensures
            text@ == self.words(),
    {
        match self {
            Message::SessionStore(error) => say_of(AGENT_SESSION_STORE_ERROR, error.as_str()),
            Message::SessionStoreFailed => AGENT_SESSION_STORE_ERROR.to_string(),
            Message::SessionRollback(error) => say_of(AGENT_SESSION_ROLLBACK_ERROR, error.as_str()),
            Message::NotResumable => AGENT_SESSION_NOT_RESUMABLE.to_string(),
            Message::NoRecentSession => NO_RECENT_AGENT_SESSION.to_string(),
            Message::SwitchInProgress => PROJECT_SWITCH_IN_PROGRESS.to_string(),
            Message::ProjectOpen { name, error } => say_of(name.as_str(), error.as_str()),
            Message::CannotRemoveLaunched => CANNOT_REMOVE_LAUNCHED.to_string(),
            Message::DeleteAlreadyRetiring => DELETE_ALREADY_RETIRING.to_string(),
            Message::DeleteProjectChanged => DELETE_PROJECT_CHANGED.to_string(),
            Message::DeleteEntryGone => DELETE_ENTRY_GONE.to_string(),
            Message::WorkspaceSave => WORKSPACE_SAVE_ERROR.to_string(),
            Message::StopDeliveryFailed => STOP_DELIVERY_FAILED_NOTICE.to_string(),
            Message::GracefulFallback => GRACEFUL_STOP_FALLBACK_NOTICE.to_string(),
            Message::ForceStopped => FORCE_STOP_NOTICE.to_string(),
            Message::SessionAutostart => SESSION_AUTOSTART_UNAVAILABLE.to_string(),
            Message::AutostartUntracked => AUTOSTART_UNTRACKED.to_string(),
            Message::NoAttention => NO_ATTENTION_WAITING.to_string(),
            Message::NameTaken => AGENT_NAME_TAKEN.to_string(),
            Message::CommandRequired => AGENT_COMMAND_REQUIRED.to_string(),
            Message::ResumeTemplateInvalid => AGENT_RESUME_TEMPLATE_INVALID.to_string(),
            Message::CompoundResumeRequired => AGENT_COMPOUND_RESUME_REQUIRED.to_string(),
            Message::PinSourceRunning => PIN_SOURCE_STILL_RUNNING.to_string(),
            Message::ConfiguredClose => CONFIGURED_AGENT_CLOSE_UNAVAILABLE.to_string(),
            Message::SettingsLoad(error) => say_of(SETTINGS_LOAD_ERROR, error.as_str()),
            Message::SettingsSave => SETTINGS_SAVE_ERROR.to_string(),
            Message::SettingsUnavailable => SETTINGS_UNAVAILABLE.to_string(),
            Message::DesktopOn => DESKTOP_NOTIFICATIONS_ON.to_string(),
            Message::DesktopOff => DESKTOP_NOTIFICATIONS_OFF.to_string(),
            Message::Raised { name, text } => say_of(name.as_str(), text.as_str()),
            Message::Rang(name) => say_of(name.as_str(), AWAITING_INPUT_NOTICE),
            Message::Outside(text) => text.clone(),
        }
    }
}

/// What a confirmation asks.
#[derive(Debug)]
pub enum Prompt {
    /// Remove a project whose config file is missing.
    MissingConfig(String),
    /// Remove a project.
    RemoveProject(String),
    /// Delete a process from the config.
    DeleteProcess {
        /// Kind of the process.
        kind: ProcessKind,
        /// Name of the process.
        name: String,
    },
    /// Close an agent session.
    CloseSession(String),
    /// Take over a folder that holds a config already.
    Overwrite,
}

/// Follows the name of a project whose config is missing.
pub const MISSING_CONFIG_TAIL: &'static str = "'s config file is missing.";

/// Precedes the name of a project to remove.
pub const REMOVE_PROJECT_HEAD: &'static str = "Remove project '";

/// Follows the name of a project to remove.
pub const REMOVE_PROJECT_TAIL: &'static str = "'?";

/// Precedes the kind of a process to delete.
pub const DELETE_PROCESS_HEAD: &'static str = "Delete ";

/// Stands between the kind and the name of a process to delete.
pub const DELETE_PROCESS_MIDDLE: &'static str = " '";

/// Follows the name of a process to delete.
pub const DELETE_PROCESS_TAIL: &'static str = "' from muster.yml?";

/// Precedes the name of a session to close.
pub const CLOSE_SESSION_HEAD: &'static str = "Close agent session ";

/// Follows the name of a session to close.
pub const CLOSE_SESSION_TAIL: &'static str = "?";

/// Shown before a config is taken over.
pub const OVERWRITE_CONFIRM: &'static str = "A muster.yml already exists in that folder.";

/// The process-kind option value for an agent.
pub const KIND_AGENT: &'static str = "agent";

/// The process-kind option value for a terminal.
pub const KIND_TERMINAL: &'static str = "terminal";

/// The process-kind option value for a command.
pub const KIND_COMMAND: &'static str = "command";

/// The word for a kind of process.
pub open spec fn kind_word(kind: ProcessKind) -> Seq<char> {
    match kind {
        ProcessKind::Agent => KIND_AGENT@,
        ProcessKind::Terminal => KIND_TERMINAL@,
        ProcessKind::Command => KIND_COMMAND@,
    }
}

/// Returns the word for a kind of process.
pub fn kind_name(kind: ProcessKind) -> (name: &'static str)
    ensures
        name@ == kind_word(kind),
{
    match kind {
        ProcessKind::Agent => KIND_AGENT,
        ProcessKind::Terminal => KIND_TERMINAL,
        ProcessKind::Command => KIND_COMMAND,
    }
}

impl Prompt {
    /// The text of a prompt.
    pub open spec fn words(self) -> Seq<char> {
        match self {
            Prompt::MissingConfig(name) => name@ + MISSING_CONFIG_TAIL@,
            Prompt::RemoveProject(name) => REMOVE_PROJECT_HEAD@ + name@ + REMOVE_PROJECT_TAIL@,
            Prompt::DeleteProcess { kind, name } => DELETE_PROCESS_HEAD@ + kind_word(kind)
                + DELETE_PROCESS_MIDDLE@ + name@ + DELETE_PROCESS_TAIL@,
            Prompt::CloseSession(name) => CLOSE_SESSION_HEAD@ + name@ + CLOSE_SESSION_TAIL@,
            Prompt::Overwrite => OVERWRITE_CONFIRM@,
        }
    }

    /// Returns the text of the prompt.
    pub fn text(&self) -> (text: String)
        ensures
            text@ == self.words(),
    {
        match self {
            Prompt::MissingConfig(name) => {
                let mut text: String = name.clone();
                text.append(MISSING_CONFIG_TAIL);
                text
            },
            Prompt::RemoveProject(name) => {
                let mut text: String = REMOVE_PROJECT_HEAD.to_string();
                text.append(name.as_str());
                text.append(REMOVE_PROJECT_TAIL);
                text
            },
            Prompt::DeleteProcess { kind, name } => {
                let mut text: String = DELETE_PROCESS_HEAD.to_string();
                text.append(kind_name(*kind));
                text.append(DELETE_PROCESS_MIDDLE);
                text.append(name.as_str());
                text.append(DELETE_PROCESS_TAIL);
                text
            },
            Prompt::CloseSession(name) => {
                let mut text: String = CLOSE_SESSION_HEAD.to_string();
                text.append(name.as_str());
                text.append(CLOSE_SESSION_TAIL);
                text
            },
            Prompt::Overwrite => OVERWRITE_CONFIRM.to_string(),
        }
    }
}

/// The tone of a toast.
#[derive(Debug, Clone, Copy, PartialEq, Eq, Structural)]
pub enum Tone {
    /// Something went well.
    Success,
    /// Something went wrong.
    Error,
}

/// Shown when a selection reached the clipboard.
pub const TOAST_COPIED: &'static str = "copied";

/// What a toast says.
#[derive(Debug, Clone, Copy, PartialEq, Eq, Structural)]
pub enum ToastText {
    /// A selection reached the clipboard.
    Copied,
}

impl ToastText {
    /// Returns the text.
    pub fn text(self) -> (text: &'static str)
        ensures
            text@ == TOAST_COPIED@,
    {
        TOAST_COPIED
    }
}

/// A transient message above the notice.
#[derive(Debug, Clone, Copy, PartialEq, Eq, Structural)]
pub struct Toast {
    /// Text.
    pub message: ToastText,
    /// Tone.
    pub tone: Tone,
    /// When it dismisses itself.
    pub expires_at: Moment,
}

/// The transient messages that are showing.
#[derive(Debug)]
pub struct Feedback {
    /// Failure notice.
    pub notice: Option<Message>,
    /// When the notice dismisses itself.
    pub notice_deadline: Option<Moment>,
    /// Toast.
    pub toast: Option<Toast>,
}

/// Whether a region, when there is one, holds a position.
pub open spec fn region_holds(region: Option<Rect>, column: u16, row: u16) -> bool {
    region matches Some(rect) && rect.holds(column, row)
}

/// Returns whether a region, when there is one, holds a position.
fn in_region(region: Option<Rect>, column: u16, row: u16) -> (inside: bool)
    ensures
        inside == region_holds(region, column, row),
{
    match region {
        Some(rect) => rect.contains(column, row),
        None => false,
    }
}

impl Feedback {
    /// Nothing is showing.
    pub open spec fn silent() -> Feedback {
        Feedback { notice: None, notice_deadline: None, toast: None }
    }

    /// The feedback with a notice that dismisses itself.
    pub open spec fn noted(self, message: Message, now: Moment) -> Feedback {
        Feedback {
            notice: Some(message),
            notice_deadline: Some(now.later(NOTICE_MILLIS)),
            toast: self.toast,
        }
    }

    /// The feedback without a notice.
    pub open spec fn unnoted(self) -> Feedback {
        Feedback { notice: None, notice_deadline: None, toast: self.toast }
    }

    /// The feedback with a toast that dismisses itself.
    pub open spec fn toasted(self, message: ToastText, tone: Tone, now: Moment) -> Feedback {
        Feedback {
            toast: Some(Toast { message, tone, expires_at: now.later(TOAST_MILLIS) }),
            notice: self.notice,
            notice_deadline: self.notice_deadline,
        }
    }

    /// The feedback without a toast.
    pub open spec fn untoasted(self) -> Feedback {
        Feedback { toast: None, notice: self.notice, notice_deadline: self.notice_deadline }
    }

    /// When the toast dismisses itself.
    pub open spec fn toast_deadline(self) -> Option<Moment> {
        match self.toast {
            Some(toast) => Some(toast.expires_at),
            None => None,
        }
    }

    /// Nothing is showing yet.
    pub fn new() -> (feedback: Self)
        ensures
            feedback == Feedback::silent(),
    {
        Feedback { notice: None, notice_deadline: None, toast: None }
    }

    /// Raises a transient toast, replacing any current one.
    pub fn show_toast(&mut self, message: ToastText, tone: Tone, now: Moment)
        ensures
            *final(self) == old(self).toasted(message, tone, now),
    {
        self.toast = Some(Toast { message, tone, expires_at: now.after_millis(TOAST_MILLIS) });
    }

    /// When the active toast should dismiss itself, if one is showing.
    pub fn next_toast_deadline(&self) -> (deadline: Option<Moment>)
        ensures
            deadline == self.toast_deadline(),
    {
        match &self.toast {
            Some(toast) => Some(toast.expires_at),
            None => None,
        }
    }

    /// Clears the toast once its deadline has passed. Returns whether a redraw
    /// is needed.
    pub fn expire_toast(&mut self, now: Moment) -> (changed: bool)
        ensures
            changed == is_due(old(self).toast_deadline(), now),
            *final(self) == if changed {
                old(self).untoasted()
            } else {
                *old(self)
            },
    {
        if deadline_due(self.next_toast_deadline(), now) {
            self.toast = None;
            return true;
        }
        false
    }

    /// Shows a transient failure notice and arms its deadline: a replacement
    /// always resets the deadline instead of inheriting the prior one.
    pub fn set_notice(&mut self, message: Message, now: Moment)
        ensures
            *final(self) == old(self).noted(message, now),
    {
        self.notice = Some(message);
        self.notice_deadline = Some(now.after_millis(NOTICE_MILLIS));
    }

    /// Dismisses the notice.
    pub fn clear_notice(&mut self)
        ensures
            *final(self) == old(self).unnoted(),
    {
        self.notice = None;
        self.notice_deadline = None;
    }

    /// When the current notice dismisses itself, if one is showing.
    pub fn next_notice_deadline(&self) -> (deadline: Option<Moment>)
        ensures
            deadline == self.notice_deadline,
    {
        self.notice_deadline
    }

    /// Clears the notice once its deadline has passed. Returns whether a redraw
    /// is needed.
    pub fn expire_notice(&mut self, now: Moment) -> (changed: bool)
        ensures
            changed == is_due(old(self).notice_deadline, now),
            *final(self) == if changed {
                old(self).unnoted()
            } else {
                *old(self)
            },
    {
        if deadline_due(self.notice_deadline, now) {
            self.clear_notice();
            return true;
        }
        false
    }

    /// Dismisses the box that contains a position: the notice at the bottom,
    /// else the toast above it. `notice_region` and `toast_region` are the boxes
    /// as they are drawn. Returns whether a box was dismissed, so that the click
    /// is consumed rather than reaching the pane beneath.
    pub fn dismiss_toast_at(
        &mut self,
        notice_region: Option<Rect>,
        toast_region: Option<Rect>,
        column: u16,
        row: u16,
    ) -> (dismissed: bool)
        ensures
            dismissed == ((old(self).notice is Some && region_holds(notice_region, column, row))
                || (old(self).toast is Some && region_holds(toast_region, column, row))),
            *final(self) == if old(self).notice is Some && region_holds(notice_region, column, row) {
                old(self).unnoted()
            } else if dismissed {
                old(self).untoasted()
            } else {
                *old(self)
            },
    {
        if self.notice.is_some() && in_region(notice_region, column, row) {
            self.clear_notice();
            return true;
        }
        if self.toast.is_some() && in_region(toast_region, column, row) {
            self.toast = None;
            return true;
        }
        false
    }
}

/// A notice stays up for its whole time and no longer, and a toast is not
/// touched by it.
pub proof fn notices_expire_on_time(feedback: Feedback, message: Message, at: Moment, now: Moment)
    ensures
        is_due(feedback.noted(message, at).notice_deadline, now) <==> at.later(NOTICE_MILLIS).due(
            now,
        ),
        feedback.noted(message, at).unnoted() == feedback.unnoted(),
        feedback.noted(message, at).toast == feedback.toast,
{
}

} // verus!
