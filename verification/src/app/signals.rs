//! Output of processes: activity, bells and notifications.

use vstd::prelude::*;
use crate::activity::evidence_deadline;
use crate::activity_frame::{next_frame, ActivityFrame, ACTIVITY_FRAME_INTERVAL_MILLIS};
use crate::app::{App, AppModel, SettingsState, Spinner};
use crate::effect::{Effect, EffectModel, Notification, NotificationModel, Task};
use crate::message::{Message, AWAITING_INPUT_NOTICE};
use crate::moment::{deadline_due, earliest, earliest_of, is_due, Moment};
use crate::pane::{pane_of, with_life, with_screen, PaneLife, PaneModel};
use crate::process::{
    ActivityState, AgentActivitySource, ExitOutcome, PaneId, Process, ProcessKind, ProcessState,
};
use crate::text::{copy_opt, opt_text};

verus! {

/// Minimum gap between bell notifications from one pane, absorbing a burst into
/// a single alert.
pub const BELL_THROTTLE_MILLIS: u64 = 3_000;

/// Quiet interval before a background terminal bell becomes a desktop alert.
pub const BELL_ESCALATION_DELAY_MILLIS: u64 = 2_000;

/// What a process signalled with its output.
#[allow(inconsistent_fields)]
#[derive(Debug)]
pub enum Signal {
    /// Ordinary output.
    Output,
    /// A title.
    Title(String),
    /// Progress that is under way, or has ended.
    Progress(bool),
    /// A notification; a bare bell where it has neither title nor body.
    Notify {
        /// Identifier.
        identifier: Option<String>,
        /// Title.
        title: Option<String>,
        /// Body.
        body: Option<String>,
    },
    /// An earlier notification is to be closed.
    Close {
        /// Identifier.
        identifier: String,
    },
}

impl Signal {
    /// Returns a copy of the signal.
    pub fn copied(&self) -> (copy: Signal)
        ensures
            copy == *self,
    {
        match self {
            Signal::Output => Signal::Output,
            Signal::Title(title) => Signal::Title(title.clone()),
            Signal::Progress(active) => Signal::Progress(*active),
            Signal::Notify { identifier, title, body } => Signal::Notify {
                identifier: copy_opt(identifier),
                title: copy_opt(title),
                body: copy_opt(body),
            },
            Signal::Close { identifier } => Signal::Close { identifier: identifier.clone() },
        }
    }
}

/// What came from a process.
pub enum ProcessOutput {
    /// A chunk of output.
    Chunk {
        /// The bytes.
        bytes: Vec<u8>,
        /// What they signal, in order.
        signals: Vec<Signal>,
        /// Negotiated keyboard protocol.
        protocol: u8,
        /// Changes between the main and the alternate screen.
        screen_epoch: u64,
    },
    /// The process exited.
    Exited(ExitOutcome),
}

/// What came from a process.
pub enum OutputModel {
    /// A chunk of output.
    Chunk {
        /// The bytes.
        bytes: Seq<u8>,
        /// What they signal, in order.
        signals: Seq<Signal>,
        /// Negotiated keyboard protocol.
        protocol: u8,
        /// Changes between the main and the alternate screen.
        screen_epoch: u64,
    },
    /// The process exited.
    Exited(ExitOutcome),
}

impl View for ProcessOutput {
    type V = OutputModel;

    open spec fn view(&self) -> OutputModel {
        match *self {
            ProcessOutput::Chunk { bytes, signals, protocol, screen_epoch } => OutputModel::Chunk {
                bytes: bytes@,
                signals: signals@,
                protocol,
                screen_epoch,
            },
            ProcessOutput::Exited(outcome) => OutputModel::Exited(outcome),
        }
    }
}

/// Whether a bell counts, after the last one that did.
pub open spec fn bell_counts(life: PaneLife, now: Moment) -> bool {
    match life.last_bell {
        Some(last) => now.is_past(last, BELL_THROTTLE_MILLIS),
        None => true,
    }
}

/// The identities of panes.
pub open spec fn pane_ids(panes: Seq<PaneModel>) -> Seq<PaneId> {
    panes.map_values(|pane: PaneModel| pane.id)
}

/// The nearest time at which a pane's activity or bell needs attention.
pub open spec fn nearest_deadline(panes: Seq<PaneModel>) -> Option<Moment>
    decreases panes.len(),
{
    if panes.len() == 0 {
        None
    } else {
        let life = panes.last().life;
        earliest(
            nearest_deadline(panes.drop_last()),
            earliest(evidence_deadline(life.activity.evidence), life.pending_bell),
        )
    }
}

/// Whether a process is an agent that works.
pub open spec fn working_agent(process: Process) -> bool {
    process.kind == ProcessKind::Agent && process.state == ProcessState::Running
        && process.activity == ActivityState::Working
}

/// Whether any process is an agent that works.
pub open spec fn any_working(processes: Seq<Process>) -> bool {
    exists|i: int| 0 <= i < processes.len() && working_agent(#[trigger] processes[i])
}

impl AppModel {
    /// Whether desktop notifications are on. Unavailable settings count as off,
    /// so that nothing leaves the machine unexpectedly.
    pub open spec fn desktop_notifications(self) -> bool {
        self.settings == SettingsState::Loaded(true)
    }

    /// The application after a pane raised a notification.
    pub open spec fn raised(
        self,
        pane: PaneId,
        identifier: Option<String>,
        title: Option<String>,
        body: Option<String>,
        now: Moment,
    ) -> AppModel {
        match (self.life(pane), self.roster.process(pane)) {
            (Some(life), Some(process)) => {
                let message = match (body, title) {
                    (Some(text), _) => Message::Raised { name: process.name, text },
                    (None, Some(text)) => Message::Raised { name: process.name, text },
                    (None, None) => Message::Rang(process.name),
                };
                let noted = self.noted(message, now);
                if self.desktop_notifications() && self.world.has_notifier {
                    noted.sent(
                        EffectModel::Notify(
                            NotificationModel {
                                pane,
                                scope: life.notification_scope,
                                source: process.name@,
                                title: opt_text(title),
                                body: if title is None && body is None {
                                    Some(AWAITING_INPUT_NOTICE@)
                                } else {
                                    opt_text(body)
                                },
                                identifier: opt_text(identifier),
                            },
                        ),
                    )
                } else {
                    noted
                }
            },
            _ => self,
        }
    }

    /// The application after ordinary output. While a bell waits to escalate,
    /// output only puts it off.
    pub open spec fn output_seen(self, pane: PaneId, now: Moment) -> AppModel {
        match self.life(pane) {
            None => self,
            Some(life) => if life.pending_bell is Some {
                self.with_life(
                    pane,
                    PaneLife {
                        pending_bell: Some(now.later(BELL_ESCALATION_DELAY_MILLIS)),
                        ..life
                    },
                )
            } else {
                let seen = self.with_life(
                    pane,
                    PaneLife { activity: life.activity.after_output(now), ..life },
                );
                if life.activity.strategy == AgentActivitySource::Output {
                    seen.with_activity(pane, ActivityState::Working)
                } else {
                    seen
                }
            },
        }
    }

    /// The application after a title.
    pub open spec fn title_seen(self, pane: PaneId, title: String, now: Moment) -> AppModel {
        match self.life(pane) {
            None => self,
            Some(life) => {
                let seen = self.with_life(
                    pane,
                    PaneLife { activity: life.activity.after_title(now, title), ..life },
                );
                if life.activity.notes_title(title@) {
                    seen.with_activity(pane, ActivityState::Working)
                } else {
                    seen
                }
            },
        }
    }

    /// The application after progress began or ended.
    pub open spec fn progress_seen(self, pane: PaneId, active: bool) -> AppModel {
        match self.life(pane) {
            None => self,
            Some(life) => self.with_life(
                pane,
                PaneLife { activity: life.activity.after_progress(active), ..life },
            ).with_activity(
                pane,
                if active {
                    ActivityState::Working
                } else {
                    ActivityState::AwaitingInput
                },
            ),
        }
    }

    /// The application after a bell that counts. The bell of a foreground
    /// terminal is suppressed, that of a background one waits; only an agent's
    /// bell is raised at once.
    pub open spec fn bell_rung(self, pane: PaneId, identifier: Option<String>, now: Moment) -> AppModel {
        match (self.life(pane), self.roster.process(pane)) {
            (Some(life), Some(process)) => if process.kind == ProcessKind::Agent {
                self.raised(pane, identifier, None, None, now)
            } else if self.roster.selected_id() != Some(pane) {
                self.with_life(
                    pane,
                    PaneLife {
                        pending_bell: Some(now.later(BELL_ESCALATION_DELAY_MILLIS)),
                        ..life
                    },
                )
            } else {
                self
            },
            _ => self,
        }
    }

    /// The application after a notification.
    pub open spec fn notification_seen(
        self,
        pane: PaneId,
        identifier: Option<String>,
        title: Option<String>,
        body: Option<String>,
        now: Moment,
    ) -> AppModel {
        match self.life(pane) {
            None => self,
            Some(life) => {
                let attentive = PaneLife { activity: life.activity.after_attention(), ..life };
                let seen = self.with_life(pane, attentive).with_activity(
                    pane,
                    ActivityState::AwaitingInput,
                );
                if title is None && body is None {
                    if bell_counts(life, now) {
                        seen.with_life(
                            pane,
                            PaneLife { last_bell: Some(now), ..attentive },
                        ).bell_rung(pane, identifier, now)
                    } else {
                        seen
                    }
                } else {
                    seen.raised(pane, identifier, title, body, now)
                }
            },
        }
    }

    /// The application that closes an earlier notification.
    pub open spec fn notification_closed(self, pane: PaneId, identifier: String) -> AppModel {
        match self.life(pane) {
            Some(life) => if self.world.has_notifier {
                self.told(
                    Effect::CloseNotification {
                        pane,
                        scope: life.notification_scope,
                        identifier,
                    },
                )
            } else {
                self
            },
            None => self,
        }
    }

    /// The application after a signal.
    pub open spec fn signalled(self, pane: PaneId, signal: Signal, now: Moment) -> AppModel {
        match signal {
            Signal::Output => self.output_seen(pane, now),
            Signal::Title(title) => self.title_seen(pane, title, now),
            Signal::Progress(active) => self.progress_seen(pane, active),
            Signal::Notify { identifier, title, body } => self.notification_seen(
                pane,
                identifier,
                title,
                body,
                now,
            ),
            Signal::Close { identifier } => self.notification_closed(pane, identifier),
        }
    }

    /// The application after signals in a row.
    pub open spec fn all_signalled(self, pane: PaneId, signals: Seq<Signal>, now: Moment) -> AppModel
        decreases signals.len(),
    {
        if signals.len() == 0 {
            self
        } else {
            self.all_signalled(pane, signals.drop_last(), now).signalled(pane, signals.last(), now)
        }
    }

    /// The application with output fed to a pane's terminal, and the keyboard
    /// protocol as it is after it.
    pub open spec fn fed(
        self,
        pane: PaneId,
        bytes: Seq<u8>,
        protocol: u8,
        screen_epoch: u64,
    ) -> AppModel {
        match pane_of(self.panes, pane) {
            Some(found) => AppModel {
                panes: with_life(
                    with_screen(self.panes, pane, found.screen.processed(bytes)),
                    pane,
                    PaneLife { protocol, screen_epoch, ..found.life },
                ),
                ..self
            },
            None => self,
        }
    }

    /// The application after something came from a process. What comes from a
    /// superseded spawn is ignored.
    #[verifier::opaque]
    pub open spec fn output_handled(
        self,
        pane: PaneId,
        generation: u64,
        output: OutputModel,
        now: Moment,
    ) -> AppModel {
        if self.ledger.generation(pane) != Some(generation) {
            self
        } else {
            match output {
                OutputModel::Chunk { bytes, signals, protocol, screen_epoch } => match self.life(
                    pane,
                ) {
                    Some(_) => self.fed(pane, bytes, protocol, screen_epoch).all_signalled(
                        pane,
                        signals,
                        now,
                    ),
                    None => self,
                },
                OutputModel::Exited(outcome) => self.exited(pane, outcome, now),
            }
        }
    }

    /// Whether a pane's output has been quiet long enough.
    pub open spec fn is_quiet(self, pane: PaneId, now: Moment) -> bool {
        self.life(pane) matches Some(life) && life.activity.expires(now)
    }

    /// The application with quiet panes idle.
    pub open spec fn quieted(self, ids: Seq<PaneId>, now: Moment) -> AppModel
        decreases ids.len(),
    {
        if ids.len() == 0 {
            self
        } else {
            let rest = self.quieted(ids.drop_last(), now);
            let pane = ids.last();
            if rest.is_quiet(pane, now) {
                let life = rest.life(pane)->0;
                rest.with_life(
                    pane,
                    PaneLife { activity: life.activity.after_expiry(now), ..life },
                ).with_activity(pane, ActivityState::Idle)
            } else {
                rest
            }
        }
    }

    /// Whether any pane became idle.
    pub open spec fn any_quieted(self, ids: Seq<PaneId>, now: Moment) -> bool
        decreases ids.len(),
    {
        ids.len() > 0 && (self.any_quieted(ids.drop_last(), now) || self.quieted(
            ids.drop_last(),
            now,
        ).is_quiet(ids.last(), now))
    }

    /// Whether a pane's bell has waited long enough.
    pub open spec fn bell_due(self, pane: PaneId, now: Moment) -> bool {
        self.life(pane) matches Some(life) && is_due(life.pending_bell, now)
    }

    /// The application with due bells raised, but for one in the foreground.
    pub open spec fn belled(self, ids: Seq<PaneId>, now: Moment) -> AppModel
        decreases ids.len(),
    {
        if ids.len() == 0 {
            self
        } else {
            let rest = self.belled(ids.drop_last(), now);
            let pane = ids.last();
            if rest.bell_due(pane, now) {
                let cleared = rest.with_life(
                    pane,
                    PaneLife { pending_bell: None, ..rest.life(pane)->0 },
                );
                if cleared.roster.selected_id() != Some(pane) {
                    cleared.raised(pane, None, None, None, now)
                } else {
                    cleared
                }
            } else {
                rest
            }
        }
    }

    /// Whether any bell was due.
    pub open spec fn any_belled(self, ids: Seq<PaneId>, now: Moment) -> bool
        decreases ids.len(),
    {
        ids.len() > 0 && (self.any_belled(ids.drop_last(), now) || self.belled(
            ids.drop_last(),
            now,
        ).bell_due(ids.last(), now))
    }

    /// The application after quiet output and due bells were looked at.
    pub open spec fn activity_expired(self, now: Moment) -> AppModel {
        let ids = pane_ids(self.panes);
        self.quieted(ids, now).belled(ids, now)
    }

    /// When the spinner turns next: only while an agent works.
    pub open spec fn spinner_deadline(self) -> Option<Moment> {
        if any_working(self.roster.processes) {
            Some(self.spinner.deadline)
        } else {
            None
        }
    }

    /// The application with its spinner turned, when that is due.
    pub open spec fn spun(self, now: Moment) -> AppModel {
        if is_due(self.spinner_deadline(), now) {
            AppModel {
                spinner: Spinner {
                    frame: ActivityFrame { index: next_frame(self.spinner.frame@) as usize },
                    deadline: now.later(ACTIVITY_FRAME_INTERVAL_MILLIS),
                },
                ..self
            }
        } else {
            self
        }
    }

    /// The application with loaded settings. A failure is kept, so that later
    /// toggles cannot overwrite an unreadable file.
    pub open spec fn settings_loaded(self, loaded: Result<bool, String>, now: Moment) -> AppModel {
        match loaded {
            Ok(desktop) => AppModel { settings: SettingsState::Loaded(desktop), ..self },
            Err(error) => (AppModel { settings: SettingsState::LoadFailed(error), ..self }).noted(
                Message::SettingsLoad(error),
                now,
            ),
        }
    }

    /// The application that flips the desktop-notifications setting.
    #[verifier::opaque]
    pub open spec fn desktop_toggling(self, now: Moment) -> AppModel {
        match self.settings {
            SettingsState::Loaded(desktop) => self.asked(
                EffectModel::Plain(Effect::SaveSettings(!desktop)),
                Task::SettingsSaved(!desktop),
            ),
            SettingsState::LoadFailed(error) => self.noted(Message::SettingsLoad(error), now),
            SettingsState::Unloaded => self.noted(Message::SettingsUnavailable, now),
        }
    }

    /// The application that learned whether the settings were saved: the toggle
    /// reflects what is saved.
    #[verifier::opaque]
    pub open spec fn settings_saved(
        self,
        desktop: bool,
        result: Result<(), String>,
        now: Moment,
    ) -> AppModel {
        match result {
            Ok(_) => (AppModel { settings: SettingsState::Loaded(desktop), ..self }).noted(
                if desktop {
                    Message::DesktopOn
                } else {
                    Message::DesktopOff
                },
                now,
            ),
            Err(_) => self.noted(Message::SettingsSave, now),
        }
    }
}

impl App {
    /// Applies one process output event unless a newer spawn superseded it.
    pub fn handle_output(
        &mut self,
        pane: PaneId,
        generation: u64,
        output: ProcessOutput,
        now: Moment,
    )
        ensures
            final(self)@ == old(self)@.output_handled(pane, generation, output@, now),
    {
        proof {
            reveal(AppModel::output_handled);
        }
        match self.ledger.generation(pane) {
            Some(current) => {
                if current != generation {
                    return;
                }
            },
            None => return,
        }
        match output {
            ProcessOutput::Chunk { bytes, signals, protocol, screen_epoch } => {
                let mut life: PaneLife = match self.panes.life(pane) {
                    Some(life) => life,
                    None => return,
                };
                life.protocol = protocol;
                life.screen_epoch = screen_epoch;
                self.panes.process(pane, &bytes);
                self.panes.set_life(pane, life);
                let ghost before = self@;
                let mut i: usize = 0;
                while i < signals.len()
                    invariant
                        i <= signals@.len(),
                        self@ == before.all_signalled(pane, signals@.take(i as int), now),
                    decreases signals@.len() - i,
                {
                    assert(signals@.take(i + 1).drop_last() =~= signals@.take(i as int));
                    assert(signals@.take(i + 1).last() == signals@[i as int]);
                    self.apply_signal(pane, signals[i].copied(), now);
                    i = i + 1;
                }
                assert(signals@.take(i as int) =~= signals@);
            },
            ProcessOutput::Exited(outcome) => self.handle_exit(pane, outcome, now),
        }
    }

    /// Applies one decoded terminal signal to a managed pane.
    pub fn apply_signal(&mut self, pane: PaneId, signal: Signal, now: Moment)
        ensures
            final(self)@ == old(self)@.signalled(pane, signal, now),
    {
        let mut life: PaneLife = match self.panes.life(pane) {
            Some(life) => life,
            None => return,
        };
        match signal {
            Signal::Output => {
                if life.pending_bell.is_some() {
                    life.pending_bell = Some(now.after_millis(BELL_ESCALATION_DELAY_MILLIS));
                    self.set_life(pane, life);
                } else {
                    let activity: Option<ActivityState> = life.activity.observe_output(now);
                    self.set_life(pane, life);
                    if let Some(activity) = activity {
                        self.workspace.set_activity(pane, activity);
                    }
                }
            },
            Signal::Title(title) => {
                let activity: Option<ActivityState> = life.activity.observe_title(now, title);
                self.set_life(pane, life);
                if let Some(activity) = activity {
                    self.workspace.set_activity(pane, activity);
                }
            },
            Signal::Progress(active) => {
                let activity: ActivityState = life.activity.observe_progress(active);
                self.set_life(pane, life);
                self.workspace.set_activity(pane, activity);
            },
            Signal::Notify { identifier, title, body } => {
                self.handle_notification(pane, identifier, title, body, now);
            },
            Signal::Close { identifier } => self.close_notification(pane, identifier),
        }
    }

    /// Applies one notification of a managed pane.
    fn handle_notification(
        &mut self,
        pane: PaneId,
        identifier: Option<String>,
        title: Option<String>,
        body: Option<String>,
        now: Moment,
    )
        ensures
            final(self)@ == old(self)@.notification_seen(pane, identifier, title, body, now),
    {
        let mut life: PaneLife = match self.panes.life(pane) {
            Some(life) => life,
            None => return,
        };
        let activity: ActivityState = life.activity.observe_attention();
        self.set_life(pane, life);
        self.workspace.set_activity(pane, activity);
        if title.is_some() || body.is_some() {
            self.raise_notification(pane, identifier, title, body, now);
            return;
        }
        proof {
            crate::pane::a_lifetime_change_touches_one_pane(old(self)@.panes, pane, life, pane);
        }
        assert(self@.life(pane) == Some(life));
        if self.accept_bell(pane, now) {
            proof {
                crate::pane::a_lifetime_change_touches_one_pane(
                    with_life(old(self)@.panes, pane, life),
                    pane,
                    PaneLife { last_bell: Some(now), ..life },
                    pane,
                );
            }
            if !self.defer_or_suppress_non_agent_bell(pane, now) {
                self.raise_notification(pane, identifier, None, None, now);
            }
        }
    }

    /// Accepts a bare bell unless another bell from this pane arrived too
    /// recently.
    fn accept_bell(&mut self, pane: PaneId, now: Moment) -> (accepted: bool)
        ensures
            match old(self)@.life(pane) {
                Some(life) => accepted == bell_counts(life, now) && final(self)@
                    == if accepted {
                    old(self)@.with_life(pane, PaneLife { last_bell: Some(now), ..life })
                } else {
                    old(self)@
                },
                None => !accepted && final(self)@ == old(self)@,
            },
    {
        let mut life: PaneLife = match self.panes.life(pane) {
            Some(life) => life,
            None => return false,
        };
        let counts: bool = match life.last_bell {
            Some(last) => now.elapsed_at_least(last, BELL_THROTTLE_MILLIS),
            None => true,
        };
        if counts {
            life.last_bell = Some(now);
            self.set_life(pane, life);
        }
        counts
    }

    /// Suppresses a foreground non-agent bell or delays its background desktop
    /// alert. Returns whether the bell is not to be raised now.
    fn defer_or_suppress_non_agent_bell(&mut self, pane: PaneId, now: Moment) -> (held: bool)
        ensures
            held == (old(self)@.roster.process(pane) matches Some(process) && process.kind
                != ProcessKind::Agent),
            final(self)@ == match (old(self)@.life(pane), old(self)@.roster.process(pane)) {
                (Some(life), Some(process)) => if process.kind != ProcessKind::Agent
                    && old(self)@.roster.selected_id() != Some(pane) {
                    old(self)@.with_life(
                        pane,
                        PaneLife {
                            pending_bell: Some(now.later(BELL_ESCALATION_DELAY_MILLIS)),
                            ..life
                        },
                    )
                } else {
                    old(self)@
                },
                _ => old(self)@,
            },
    {
        match self.workspace.process(pane) {
            Some(process) => {
                if process.kind == ProcessKind::Agent {
                    return false;
                }
            },
            None => return false,
        }
        let selected: bool = match self.selected_pane() {
            Some(current) => current == pane,
            None => false,
        };
        if !selected {
            if let Some(mut life) = self.panes.life(pane) {
                life.pending_bell = Some(now.after_millis(BELL_ESCALATION_DELAY_MILLIS));
                self.set_life(pane, life);
            }
        }
        true
    }

    /// Whether desktop notifications are currently enabled.
    pub fn desktop_notifications_enabled(&self) -> (enabled: bool)
        ensures
            enabled == self@.desktop_notifications(),
    {
        match &self.settings {
            SettingsState::Loaded(desktop) => *desktop,
            _ => false,
        }
    }

    /// Raises a scoped in-app and optional desktop notification from one pane.
    pub fn raise_notification(
        &mut self,
        pane: PaneId,
        identifier: Option<String>,
        title: Option<String>,
        body: Option<String>,
        now: Moment,
    )
        ensures
            final(self)@ == old(self)@.raised(pane, identifier, title, body, now),
    {
        let scope: u64 = match self.panes.get(pane) {
            Some(found) => found.life.notification_scope,
            None => return,
        };
        let name: String = match self.workspace.process(pane) {
            Some(process) => process.name.clone(),
            None => return,
        };
        let is_bell: bool = title.is_none() && body.is_none();
        let message: Message = match &body {
            Some(text) => Message::Raised { name: name.clone(), text: text.clone() },
            None => match &title {
                Some(text) => Message::Raised { name: name.clone(), text: text.clone() },
                None => Message::Rang(name.clone()),
            },
        };
        self.set_notice(message, now);
        if self.desktop_notifications_enabled() && self.world.has_notifier {
            let body: Option<String> = if is_bell {
                Some(AWAITING_INPUT_NOTICE.to_string())
            } else {
                body
            };
            self.send(
                Effect::Notify(
                    Notification { pane, scope, source: name, title, body, identifier },
                ),
            );
        }
    }

    /// Closes one prior identified desktop notification of a pane's lifetime.
    fn close_notification(&mut self, pane: PaneId, identifier: String)
        ensures
            final(self)@ == old(self)@.notification_closed(pane, identifier),
    {
        let scope: u64 = match self.panes.get(pane) {
            Some(found) => found.life.notification_scope,
            None => return,
        };
        if self.world.has_notifier {
            self.send(Effect::CloseNotification { pane, scope, identifier });
        }
    }

    /// Returns the nearest time at which ordinary output should become idle or
    /// a bell should escalate.
    pub fn next_activity_deadline(&self) -> (deadline: Option<Moment>)
        ensures
            deadline == nearest_deadline(self@.panes),
    {
        let mut deadline: Option<Moment> = None;
        let mut i: usize = 0;
        let ghost panes = self@.panes;
        assert(panes.take(0).len() == 0);
        while i < self.panes.list.len()
            invariant
                i <= panes.len(),
                panes == self@.panes,
                panes.len() == self.panes.list@.len(),
                deadline == nearest_deadline(panes.take(i as int)),
            decreases panes.len() - i,
        {
            assert(panes.take(i + 1).drop_last() =~= panes.take(i as int));
            assert(panes.take(i + 1).last() == self.panes.list@[i as int]@);
            let pane = &self.panes.list[i];
            deadline =
            earliest_of(
                deadline,
                earliest_of(pane.life.activity.deadline(), pane.life.pending_bell),
            );
            i = i + 1;
        }
        assert(panes.take(i as int) =~= panes);
        deadline
    }

    /// Returns the identities of the panes.
    fn ids_of_panes(&self) -> (ids: Vec<PaneId>)
        ensures
            ids@ == pane_ids(self@.panes),
    {
        let mut ids: Vec<PaneId> = Vec::new();
        let mut i: usize = 0;
        while i < self.panes.list.len()
            invariant
                i <= self.panes.list@.len(),
                ids@ == pane_ids(self@.panes).take(i as int),
            decreases self.panes.list@.len() - i,
        {
            ids.push(self.panes.list[i].id);
            i = i + 1;
            assert(ids@ =~= pane_ids(self@.panes).take(i as int));
        }
        assert(pane_ids(self@.panes).take(i as int) =~= pane_ids(self@.panes));
        ids
    }

    /// Expires quiet-output activity deadlines and due bells, and reports
    /// whether any pane changed.
    pub fn expire_quiet_activity(&mut self, now: Moment) -> (changed: bool)
        ensures
            final(self)@ == old(self)@.activity_expired(now),
            changed == (old(self)@.any_quieted(pane_ids(old(self)@.panes), now)
                || old(self)@.quieted(pane_ids(old(self)@.panes), now).any_belled(
                pane_ids(old(self)@.panes),
                now,
            )),
    {
        let ids: Vec<PaneId> = self.ids_of_panes();
        let mut changed: bool = false;
        let mut i: usize = 0;
        while i < ids.len()
            invariant
                i <= ids@.len(),
                ids@ == pane_ids(old(self)@.panes),
                self@ == old(self)@.quieted(ids@.take(i as int), now),
                changed == old(self)@.any_quieted(ids@.take(i as int), now),
            decreases ids@.len() - i,
        {
            assert(ids@.take(i + 1).drop_last() =~= ids@.take(i as int));
            assert(ids@.take(i + 1).last() == ids@[i as int]);
            let pane: PaneId = ids[i];
            if let Some(mut life) = self.panes.life(pane) {
                if let Some(activity) = life.activity.expire(now) {
                    self.set_life(pane, life);
                    self.workspace.set_activity(pane, activity);
                    changed = true;
                }
            }
            i = i + 1;
        }
        assert(ids@.take(i as int) =~= ids@);
        let ghost quiet = self@;
        let quieted: bool = changed;
        let mut k: usize = 0;
        let mut rang: bool = false;
        while k < ids.len()
            invariant
                k <= ids@.len(),
                ids@ == pane_ids(old(self)@.panes),
                self@ == quiet.belled(ids@.take(k as int), now),
                rang == quiet.any_belled(ids@.take(k as int), now),
            decreases ids@.len() - k,
        {
            assert(ids@.take(k + 1).drop_last() =~= ids@.take(k as int));
            assert(ids@.take(k + 1).last() == ids@[k as int]);
            let pane: PaneId = ids[k];
            if let Some(mut life) = self.panes.life(pane) {
                if deadline_due(life.pending_bell, now) {
                    life.pending_bell = None;
                    self.set_life(pane, life);
                    rang = true;
                    let selected: bool = match self.selected_pane() {
                        Some(current) => current == pane,
                        None => false,
                    };
                    if !selected {
                        self.raise_notification(pane, None, None, None, now);
                    }
                }
            }
            k = k + 1;
        }
        assert(ids@.take(k as int) =~= ids@);
        quieted || rang
    }

    /// Returns the next spinner frame deadline while a running agent is
    /// working.
    pub fn next_activity_frame_deadline(&self) -> (deadline: Option<Moment>)
        ensures
            deadline == self@.spinner_deadline(),
    {
        let mut i: usize = 0;
        while i < self.workspace.processes.len()
            invariant
                i <= self.workspace.processes@.len(),
                forall|j: int|
                    0 <= j < i ==> !working_agent(#[trigger] self@.roster.processes[j]),
            decreases self.workspace.processes@.len() - i,
        {
            let process: &Process = &self.workspace.processes[i];
            if process.kind == ProcessKind::Agent && process.state == ProcessState::Running
                && process.activity == ActivityState::Working {
                assert(working_agent(self@.roster.processes[i as int]));
                return Some(self.spinner.deadline);
            }
            i = i + 1;
        }
        None
    }

    /// Advances the working-agent spinner when its next frame is due.
    pub fn advance_activity_frame(&mut self, now: Moment) -> (changed: bool)
        ensures
            changed == is_due(old(self)@.spinner_deadline(), now),
            final(self)@ == old(self)@.spun(now),
    {
        if !deadline_due(self.next_activity_frame_deadline(), now) {
            return false;
        }
        self.spinner = Spinner {
            frame: self.spinner.frame.next(),
            deadline: now.after_millis(ACTIVITY_FRAME_INTERVAL_MILLIS),
        };
        true
    }

    /// Takes over loaded settings, or why they did not load.
    pub fn set_settings(&mut self, loaded: Result<bool, String>, now: Moment)
        ensures
            final(self)@ == old(self)@.settings_loaded(loaded, now),
    {
        match loaded {
            Ok(desktop) => {
                self.settings = SettingsState::Loaded(desktop);
            },
            Err(error) => {
                self.settings = SettingsState::LoadFailed(error.clone());
                self.set_notice(Message::SettingsLoad(error), now);
            },
        }
    }

    /// Flips the desktop-notifications setting, applying the change only when
    /// the write succeeds.
    pub fn toggle_desktop_notifications(&mut self, now: Moment)
        ensures
            final(self)@ == old(self)@.desktop_toggling(now),
    {
        proof {
            reveal(AppModel::desktop_toggling);
        }
        let failure: Option<String> = match &self.settings {
            SettingsState::Loaded(desktop) => {
                let enabled: bool = !*desktop;
                self.ask(Effect::SaveSettings(enabled), Task::SettingsSaved(enabled));
                return;
            },
            SettingsState::LoadFailed(error) => Some(error.clone()),
            SettingsState::Unloaded => None,
        };
        match failure {
            Some(error) => self.set_notice(Message::SettingsLoad(error), now),
            None => self.set_notice(Message::SettingsUnavailable, now),
        }
    }

    /// Goes on after the settings were saved, or were not.
    pub fn handle_settings_saved(
        &mut self,
        desktop: bool,
        result: Result<(), String>,
        now: Moment,
    )
        ensures
            final(self)@ == old(self)@.settings_saved(desktop, result, now),
    {
        proof {
            reveal(AppModel::settings_saved);
        }
        match result {
            Ok(_) => {
                self.settings = SettingsState::Loaded(desktop);
                self.set_notice(
                    if desktop {
                        Message::DesktopOn
                    } else {
                        Message::DesktopOff
                    },
                    now,
                );
            },
            Err(_) => self.set_notice(Message::SettingsSave, now),
        }
    }
}

/// What comes from a superseded spawn changes nothing.
pub proof fn superseded_output_changes_nothing(
    app: AppModel,
    pane: PaneId,
    generation: u64,
    output: OutputModel,
    now: Moment,
)
    requires
        app.ledger.generation(pane) != Some(generation),
    ensures
        app.output_handled(pane, generation, output, now) == app,
{
    reveal(AppModel::output_handled);
}

/// A burst of bells from one pane raises one alert: a second bell within the
/// throttle leaves the notice, and what the host is told, as they were.
pub proof fn a_burst_of_bells_is_one_alert(app: AppModel, pane: PaneId, now: Moment)
    requires
        app.life(pane) matches Some(life) && life.last_bell matches Some(last) && !now.is_past(
            last,
            BELL_THROTTLE_MILLIS,
        ),
    ensures
        ({
            let after = app.notification_seen(pane, None, None, None, now);
            after.feedback == app.feedback && after.outbox == app.outbox
        }),
{
}

/// Nothing leaves the machine while desktop notifications are off or their
/// setting is unknown.
pub proof fn notifications_stay_inside_unless_enabled(
    app: AppModel,
    pane: PaneId,
    identifier: Option<String>,
    title: Option<String>,
    body: Option<String>,
    now: Moment,
)
    requires
        !app.desktop_notifications(),
    ensures
        app.raised(pane, identifier, title, body, now).outbox == app.outbox,
{
}

/// Where desktop notifications are on, a bare bell is shown as the words that its
/// process awaits input, and any other notification with its own text.
pub proof fn a_bell_asks_for_input(
    app: AppModel,
    pane: PaneId,
    identifier: Option<String>,
    title: Option<String>,
    body: Option<String>,
    now: Moment,
)
    requires
        app.desktop_notifications(),
        app.world.has_notifier,
        app.life(pane) is Some,
        app.roster.process(pane) is Some,
    ensures
        ({
            let after = app.raised(pane, identifier, title, body, now);
            &&& after.outbox.len() == app.outbox.len() + 1
            &&& after.outbox.last() matches EffectModel::Notify(shown) && shown.pane == pane
                && shown.body == (if title is None && body is None {
                Some("awaiting input"@)
            } else {
                opt_text(body)
            })
        }),
{
}

} // verus!
