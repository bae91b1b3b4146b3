//! Stopping, pausing and restarting processes on request.

use vstd::prelude::*;
use crate::app::{App, AppModel};
use crate::effect::{Effect, EffectModel, LaunchPurpose, Task};
use crate::generation::successor;
use crate::message::Message;
use crate::moment::Moment;
use crate::pane::{alive_panes, PaneLife};
use crate::process::{
    effective_stop, effective_stop_of, ExitIntent, PaneId, ProcessState, StopPolicy,
};

verus! {

/// The kills of a list of panes, whatever comes of them.
pub open spec fn discards(panes: Seq<PaneId>) -> Seq<EffectModel> {
    panes.map_values(|pane: PaneId| EffectModel::Plain(Effect::Discard(pane)))
}

impl AppModel {
    /// The shutdown policy of a pane's process.
    pub open spec fn stop_policy_of(self, pane: PaneId) -> Option<StopPolicy> {
        match self.roster.process(pane) {
            Some(process) => effective_stop(process.kind, process.stop),
            None => None,
        }
    }

    /// The lifetime of a pane whose process is asked to stop.
    pub open spec fn asked_to_stop(life: PaneLife, restart: bool) -> PaneLife {
        PaneLife {
            exit_intent: ExitIntent::requested(restart, false),
            shutdown_generation: successor(life.shutdown_generation),
            ..life
        }
    }

    /// The application that sends a pane's process the signal of its policy, or
    /// kills it where it has none.
    pub open spec fn stop_requested(self, pane: PaneId, restart: bool, now: Moment) -> AppModel {
        match self.life(pane) {
            None => self.noted(Message::StopDeliveryFailed, now),
            Some(life) => {
                let asked = AppModel::asked_to_stop(life, restart);
                let marked = self.with_life(pane, asked);
                if !life.alive {
                    marked.noted(Message::StopDeliveryFailed, now)
                } else {
                    match self.stop_policy_of(pane) {
                        Some(policy) => marked.asked(
                            EffectModel::Plain(
                                Effect::Terminate {
                                    pane,
                                    signal: policy.signal,
                                    grace_millis: policy.grace_millis,
                                },
                            ),
                            Task::Terminated {
                                pane,
                                restart,
                                grace_millis: policy.grace_millis,
                                spawn_generation: self.ledger.generation(pane),
                                shutdown_generation: asked.shutdown_generation,
                            },
                        ),
                        None => marked.asked(
                            EffectModel::Plain(Effect::Kill(pane)),
                            Task::Killed { pane, restart, fallback: false },
                        ),
                    }
                }
            },
        }
    }

    /// The application with another exit intent in a pane.
    pub open spec fn intending(self, pane: PaneId, intent: ExitIntent) -> AppModel {
        match self.life(pane) {
            Some(life) => self.with_life(pane, PaneLife { exit_intent: intent, ..life }),
            None => self,
        }
    }

    /// The application that learned whether the graceful signal arrived. If it
    /// did, one matching escalation follows; if not, a kill takes its place.
    #[verifier::opaque]
    pub open spec fn terminate_answered(
        self,
        pane: PaneId,
        restart: bool,
        grace_millis: u64,
        spawn_generation: Option<u64>,
        shutdown_generation: u64,
        delivered: bool,
    ) -> AppModel {
        if delivered {
            let stopping = self.intending(pane, ExitIntent::requested(restart, true)).with_state(
                pane,
                ProcessState::Stopping,
            );
            match spawn_generation {
                Some(spawn_generation) => stopping.told(
                    Effect::ForceStopAfter {
                        pane,
                        spawn_generation,
                        shutdown_generation,
                        millis: grace_millis,
                    },
                ),
                None => stopping,
            }
        } else {
            self.asked(
                EffectModel::Plain(Effect::Kill(pane)),
                Task::Killed { pane, restart, fallback: true },
            )
        }
    }

    /// The application that learned whether a kill arrived.
    #[verifier::opaque]
    pub open spec fn kill_answered(
        self,
        pane: PaneId,
        restart: bool,
        fallback: bool,
        delivered: bool,
        now: Moment,
    ) -> AppModel {
        let marked = self.intending(pane, ExitIntent::requested(restart, delivered));
        if delivered {
            let stopping = marked.with_state(pane, ProcessState::Stopping);
            if fallback {
                stopping.noted(Message::GracefulFallback, now)
            } else {
                stopping
            }
        } else {
            marked.noted(Message::StopDeliveryFailed, now)
        }
    }

    /// The application in which a pane without a process counts as stopped, so
    /// that a pending respawn does not bring it back.
    pub open spec fn stopped_for_good(self, pane: PaneId) -> AppModel {
        self.bumped(pane).deactivated(pane).with_state(pane, ProcessState::Exited)
    }

    /// The application that stops a pane without letting it start again.
    pub open spec fn pane_stopped(self, pane: PaneId, now: Moment) -> AppModel {
        match self.life(pane) {
            Some(life) => if life.alive {
                if life.exit_intent.takes_stop() {
                    self.stop_requested(pane, false, now)
                } else {
                    self
                }
            } else {
                self.stopped_for_good(pane)
            },
            None => self.stopped_for_good(pane),
        }
    }

    /// The application that restarts a pane whatever its policy. One whose
    /// conversation another instance holds is left alone.
    pub open spec fn pane_restarted(self, pane: PaneId, now: Moment) -> AppModel {
        if self.held_elsewhere(pane) {
            self
        } else {
            self.pane_started_again(pane, now)
        }
    }

    /// The application that starts a pane again, or stops it first.
    pub open spec fn pane_started_again(self, pane: PaneId, now: Moment) -> AppModel {
        match self.command_of(pane) {
            Ok(Some(details)) => match self.life(pane) {
                Some(life) => if life.alive {
                    if life.exit_intent.takes_restart() {
                        self.stop_requested(pane, true, now)
                    } else {
                        self
                    }
                } else {
                    self.spawning(pane, details.0, details.1, now)
                },
                None => self.spawning(pane, details.0, details.1, now),
            },
            Ok(None) => self.noted(Message::NotResumable, now),
            Err(error) => self.noted(Message::SessionStore(error), now),
        }
    }

    /// The application that starts a pane.
    pub open spec fn pane_started(self, pane: PaneId, now: Moment) -> AppModel {
        self.launched(pane, LaunchPurpose::Requested, now)
    }

    /// The application that kills a pane at once and cancels a pending respawn.
    pub open spec fn pane_force_stopped(self, pane: PaneId) -> AppModel {
        match self.life(pane) {
            Some(life) => if life.alive {
                self.with_life(pane, AppModel::asked_to_stop(life, false)).asked(
                    EffectModel::Plain(Effect::Kill(pane)),
                    Task::ForceStopped(pane),
                )
            } else {
                self.stopped_for_good(pane)
            },
            None => self.stopped_for_good(pane),
        }
    }

    /// The application that pauses a pane's process, or resumes a paused one.
    pub open spec fn pane_pause_toggled(self, pane: PaneId) -> AppModel {
        match self.life(pane) {
            Some(life) => if life.alive && life.exit_intent == ExitIntent::FollowPolicy {
                let paused = self.roster.process(pane) matches Some(process) && process.state
                    == ProcessState::Paused;
                if paused {
                    self.asked(
                        EffectModel::Plain(Effect::Resume(pane)),
                        Task::Paused { pane, pause: false },
                    )
                } else {
                    self.asked(
                        EffectModel::Plain(Effect::Pause(pane)),
                        Task::Paused { pane, pause: true },
                    )
                }
            } else {
                self
            },
            None => self,
        }
    }

    /// The application that learned whether a process was paused or resumed.
    #[verifier::opaque]
    pub open spec fn pause_answered(self, pane: PaneId, pause: bool, done: bool) -> AppModel {
        if done {
            self.with_state(
                pane,
                if pause {
                    ProcessState::Paused
                } else {
                    ProcessState::Running
                },
            )
        } else {
            self
        }
    }

    /// The application after a backoff elapsed. Only the respawn that the pane
    /// still waits for counts.
    #[verifier::opaque]
    pub open spec fn respawned(self, pane: PaneId, generation: u64, now: Moment) -> AppModel {
        if self.ledger.generation(pane) == Some(generation) {
            self.launched(pane, LaunchPurpose::Restart, now)
        } else {
            self
        }
    }

    /// The application after the grace period of a stop elapsed. Only the
    /// deadline of the latest request counts, and only while that request is in
    /// flight.
    #[verifier::opaque]
    pub open spec fn force_stop_due(
        self,
        pane: PaneId,
        spawn_generation: u64,
        shutdown_generation: u64,
    ) -> AppModel {
        match self.life(pane) {
            Some(life) => if self.ledger.generation(pane) == Some(spawn_generation)
                && life.shutdown_generation == shutdown_generation && life.exit_intent.in_flight() {
                let marked = self.with_life(
                    pane,
                    PaneLife {
                        shutdown_generation: successor(life.shutdown_generation),
                        ..life
                    },
                );
                if life.alive {
                    marked.asked(
                        EffectModel::Plain(Effect::Kill(pane)),
                        Task::Escalated(pane),
                    )
                } else {
                    marked
                }
            } else {
                self
            },
            None => self,
        }
    }

    /// The application that learned whether the kill after a grace period
    /// arrived.
    #[verifier::opaque]
    pub open spec fn escalation_answered(self, pane: PaneId, delivered: bool, now: Moment) -> AppModel {
        if delivered {
            self.with_state(pane, ProcessState::Stopping).noted(Message::ForceStopped, now)
        } else {
            match self.life(pane) {
                Some(life) => self.intending(pane, life.exit_intent.retryable()).noted(
                    Message::StopDeliveryFailed,
                    now,
                ),
                None => self.noted(Message::StopDeliveryFailed, now),
            }
        }
    }

    /// The application that kills every live process.
    pub open spec fn all_discarded(self) -> AppModel {
        AppModel { outbox: self.outbox + discards(alive_panes(self.panes)), ..self }
    }

    /// The application with the selected process toggled.
    #[verifier::opaque]
    pub open spec fn selected_toggled(self, now: Moment) -> AppModel {
        match self.roster.selected_id() {
            Some(pane) => if self.alive(pane) {
                self.pane_stopped(pane, now)
            } else {
                self.pane_started(pane, now)
            },
            None => self,
        }
    }

    /// The application with the selected process restarted.
    #[verifier::opaque]
    pub open spec fn selected_restarted(self, now: Moment) -> AppModel {
        match self.roster.selected_id() {
            Some(pane) => self.pane_restarted(pane, now),
            None => self,
        }
    }

    /// The application with the selected process paused or resumed.
    #[verifier::opaque]
    pub open spec fn selected_pause_toggled(self) -> AppModel {
        match self.roster.selected_id() {
            Some(pane) => self.pane_pause_toggled(pane),
            None => self,
        }
    }

    /// The application with the selected process killed.
    #[verifier::opaque]
    pub open spec fn selected_force_stopped(self) -> AppModel {
        match self.roster.selected_id() {
            Some(pane) => self.pane_force_stopped(pane),
            None => self,
        }
    }
}

impl App {
    /// Returns the configured or default shutdown policy of a pane's process.
    fn stop_policy_of(&self, pane: PaneId) -> (policy: Option<StopPolicy>)
        ensures
            policy == self@.stop_policy_of(pane),
    {
        match self.workspace.process(pane) {
            Some(process) => effective_stop_of(process.kind, process.stop),
            None => None,
        }
    }

    /// Sends the configured graceful signal, or a kill where there is none.
    pub fn request_graceful_transition(&mut self, pane: PaneId, restart: bool, now: Moment)
        ensures
            final(self)@ == old(self)@.stop_requested(pane, restart, now),
    {
        let policy: Option<StopPolicy> = self.stop_policy_of(pane);
        let spawn_generation: Option<u64> = self.ledger.generation(pane);
        let mut life: PaneLife = match self.panes.life(pane) {
            Some(life) => life,
            None => {
                self.set_notice(Message::StopDeliveryFailed, now);
                return;
            },
        };
        let alive: bool = life.alive;
        let shutdown_generation: u64 = life.shutdown_generation.wrapping_add(1);
        life.exit_intent = ExitIntent::of_request(restart, false);
        life.shutdown_generation = shutdown_generation;
        self.set_life(pane, life);
        if !alive {
            self.set_notice(Message::StopDeliveryFailed, now);
            return;
        }
        match policy {
            Some(policy) => self.ask(
                Effect::Terminate {
                    pane,
                    signal: policy.signal,
                    grace_millis: policy.grace_millis,
                },
                Task::Terminated {
                    pane,
                    restart,
                    grace_millis: policy.grace_millis,
                    spawn_generation,
                    shutdown_generation,
                },
            ),
            None => self.ask(
                Effect::Kill(pane),
                Task::Killed { pane, restart, fallback: false },
            ),
        }
    }

    /// Records what a pane's exit is to lead to.
    pub fn set_intent(&mut self, pane: PaneId, intent: ExitIntent)
        ensures
            final(self)@ == old(self)@.intending(pane, intent),
    {
        if let Some(mut life) = self.panes.life(pane) {
            life.exit_intent = intent;
            self.set_life(pane, life);
        }
    }

    /// Goes on after the graceful signal was delivered, or was not.
    pub fn handle_terminated(
        &mut self,
        pane: PaneId,
        restart: bool,
        grace_millis: u64,
        spawn_generation: Option<u64>,
        shutdown_generation: u64,
        delivered: bool,
    )
        ensures
            final(self)@ == old(self)@.terminate_answered(
                pane,
                restart,
                grace_millis,
                spawn_generation,
                shutdown_generation,
                delivered,
            ),
    {
        proof {
            reveal(AppModel::terminate_answered);
        }
        if delivered {
            self.set_intent(pane, ExitIntent::of_request(restart, true));
            self.workspace.set_state(pane, ProcessState::Stopping);
            if let Some(spawn_generation) = spawn_generation {
                self.send(
                    Effect::ForceStopAfter {
                        pane,
                        spawn_generation,
                        shutdown_generation,
                        millis: grace_millis,
                    },
                );
            }
        } else {
            self.ask(Effect::Kill(pane), Task::Killed { pane, restart, fallback: true });
        }
    }

    /// Goes on after a kill was delivered, or was not.
    pub fn handle_killed(
        &mut self,
        pane: PaneId,
        restart: bool,
        fallback: bool,
        delivered: bool,
        now: Moment,
    )
        ensures
            final(self)@ == old(self)@.kill_answered(pane, restart, fallback, delivered, now),
    {
        proof {
            reveal(AppModel::kill_answered);
        }
        self.set_intent(pane, ExitIntent::of_request(restart, delivered));
        if delivered {
            self.workspace.set_state(pane, ProcessState::Stopping);
            if fallback {
                self.set_notice(Message::GracefulFallback, now);
            }
        } else {
            self.set_notice(Message::StopDeliveryFailed, now);
        }
    }

    /// Settles a pane without a process, so that nothing brings it back.
    fn settle_stopped(&mut self, pane: PaneId)
        ensures
            final(self)@ == old(self)@.stopped_for_good(pane),
    {
        self.bump_generation(pane);
        self.deactivate(pane);
        self.workspace.set_state(pane, ProcessState::Exited);
    }

    /// Stops a process without allowing its restart policy to respawn it.
    pub fn stop_pane(&mut self, pane: PaneId, now: Moment)
        ensures
            final(self)@ == old(self)@.pane_stopped(pane, now),
    {
        match self.panes.life(pane) {
            Some(life) => {
                if life.alive {
                    if life.exit_intent.accepts_stop_request() {
                        self.request_graceful_transition(pane, false, now);
                    }
                } else {
                    self.settle_stopped(pane);
                }
            },
            None => self.settle_stopped(pane),
        }
    }

    /// Restarts a process regardless of its configured restart policy.
    pub fn restart_pane(&mut self, pane: PaneId, now: Moment)
        ensures
            final(self)@ == old(self)@.pane_restarted(pane, now),
    {
        if self.is_held_elsewhere(pane) {
            return;
        }
        match self.command_of(pane) {
            Ok(Some((command, working_dir))) => {
                match self.panes.life(pane) {
                    Some(life) => {
                        if life.alive {
                            if life.exit_intent.accepts_restart_request() {
                                self.request_graceful_transition(pane, true, now);
                            }
                        } else {
                            self.spawn(pane, command, working_dir, now);
                        }
                    },
                    None => self.spawn(pane, command, working_dir, now),
                }
            },
            Ok(None) => self.set_notice(Message::NotResumable, now),
            Err(error) => self.set_notice(Message::SessionStore(error), now),
        }
    }

    /// Starts a process.
    pub fn start_pane(&mut self, pane: PaneId, now: Moment)
        ensures
            final(self)@ == old(self)@.pane_started(pane, now),
    {
        self.launch(pane, LaunchPurpose::Requested, now);
    }

    /// Toggles the selected process: stop it if alive, start it if not.
    pub fn toggle_selected(&mut self, now: Moment)
        ensures
            final(self)@ == old(self)@.selected_toggled(now),
    {
        proof {
            reveal(AppModel::selected_toggled);
        }
        if let Some(pane) = self.selected_pane() {
            if self.panes.is_alive(pane) {
                self.stop_pane(pane, now);
            } else {
                self.start_pane(pane, now);
            }
        }
    }

    /// Starts the selected process.
    pub fn start_selected(&mut self, now: Moment)
        ensures
            final(self)@ == match old(self)@.roster.selected_id() {
                Some(pane) => old(self)@.pane_started(pane, now),
                None => old(self)@,
            },
    {
        if let Some(pane) = self.selected_pane() {
            self.start_pane(pane, now);
        }
    }

    /// Stops the selected process.
    pub fn stop_selected(&mut self, now: Moment)
        ensures
            final(self)@ == match old(self)@.roster.selected_id() {
                Some(pane) => old(self)@.pane_stopped(pane, now),
                None => old(self)@,
            },
    {
        if let Some(pane) = self.selected_pane() {
            self.stop_pane(pane, now);
        }
    }

    /// Restarts the selected process.
    pub fn restart_selected(&mut self, now: Moment)
        ensures
            final(self)@ == old(self)@.selected_restarted(now),
    {
        proof {
            reveal(AppModel::selected_restarted);
        }
        if let Some(pane) = self.selected_pane() {
            self.restart_pane(pane, now);
        }
    }

    /// Toggles the selected child between paused and running.
    pub fn toggle_pause_selected(&mut self)
        ensures
            final(self)@ == old(self)@.selected_pause_toggled(),
    {
        proof {
            reveal(AppModel::selected_pause_toggled);
        }
        let pane: PaneId = match self.selected_pane() {
            Some(pane) => pane,
            None => return,
        };
        let paused: bool = match self.workspace.process(pane) {
            Some(process) => process.state == ProcessState::Paused,
            None => false,
        };
        if let Some(life) = self.panes.life(pane) {
            if life.alive && life.exit_intent == ExitIntent::FollowPolicy {
                if paused {
                    self.ask(Effect::Resume(pane), Task::Paused { pane, pause: false });
                } else {
                    self.ask(Effect::Pause(pane), Task::Paused { pane, pause: true });
                }
            }
        }
    }

    /// Goes on after a process was paused or resumed, or was not.
    pub fn handle_paused(&mut self, pane: PaneId, pause: bool, done: bool)
        ensures
            final(self)@ == old(self)@.pause_answered(pane, pause, done),
    {
        proof {
            reveal(AppModel::pause_answered);
        }
        if done {
            self.workspace.set_state(
                pane,
                if pause {
                    ProcessState::Paused
                } else {
                    ProcessState::Running
                },
            );
        }
    }

    /// Immediately force-kills the selected process and cancels a pending
    /// respawn.
    pub fn force_stop_selected(&mut self)
        ensures
            final(self)@ == old(self)@.selected_force_stopped(),
    {
        proof {
            reveal(AppModel::selected_force_stopped);
        }
        let pane: PaneId = match self.selected_pane() {
            Some(pane) => pane,
            None => return,
        };
        match self.panes.life(pane) {
            Some(mut life) => {
                if life.alive {
                    life.exit_intent = ExitIntent::of_request(false, false);
                    life.shutdown_generation = life.shutdown_generation.wrapping_add(1);
                    self.set_life(pane, life);
                    self.ask(Effect::Kill(pane), Task::ForceStopped(pane));
                } else {
                    self.settle_stopped(pane);
                }
            },
            None => self.settle_stopped(pane),
        }
    }

    /// Respawns a pane only when its delayed restart still belongs to this
    /// generation.
    pub fn handle_respawn(&mut self, pane: PaneId, generation: u64, now: Moment)
        ensures
            final(self)@ == old(self)@.respawned(pane, generation, now),
    {
        proof {
            reveal(AppModel::respawned);
        }
        if let Some(current) = self.ledger.generation(pane) {
            if current == generation {
                self.launch(pane, LaunchPurpose::Restart, now);
            }
        }
    }

    /// Escalates an elapsed graceful stop only when no newer lifecycle action
    /// superseded it.
    pub fn handle_force_stop(
        &mut self,
        pane: PaneId,
        spawn_generation: u64,
        shutdown_generation: u64,
    )
        ensures
            final(self)@ == old(self)@.force_stop_due(pane, spawn_generation, shutdown_generation),
    {
        proof {
            reveal(AppModel::force_stop_due);
        }
        match self.ledger.generation(pane) {
            Some(current) => {
                if current != spawn_generation {
                    return;
                }
            },
            None => return,
        }
        if let Some(mut life) = self.panes.life(pane) {
            if life.shutdown_generation == shutdown_generation
                && life.exit_intent.awaits_force_stop() {
                let alive: bool = life.alive;
                life.shutdown_generation = life.shutdown_generation.wrapping_add(1);
                self.set_life(pane, life);
                if alive {
                    self.ask(Effect::Kill(pane), Task::Escalated(pane));
                }
            }
        }
    }

    /// Goes on after the kill behind a grace period was delivered, or was not.
    pub fn handle_escalated(&mut self, pane: PaneId, delivered: bool, now: Moment)
        ensures
            final(self)@ == old(self)@.escalation_answered(pane, delivered, now),
    {
        proof {
            reveal(AppModel::escalation_answered);
        }
        if delivered {
            self.workspace.set_state(pane, ProcessState::Stopping);
            self.set_notice(Message::ForceStopped, now);
        } else {
            if let Some(life) = self.panes.life(pane) {
                self.set_intent(pane, life.exit_intent.force_stop_delivery_failed());
            }
            self.set_notice(Message::StopDeliveryFailed, now);
        }
    }

    /// Kills every live process, whatever comes of it.
    pub fn discard_all(&mut self)
        ensures
            final(self)@ == old(self)@.all_discarded(),
    {
        let ids: Vec<PaneId> = self.panes.alive();
        let mut i: usize = 0;
        assert(old(self)@.outbox + discards(ids@.take(0)) =~= self@.outbox);
        while i < ids.len()
            invariant
                i <= ids@.len(),
                ids@ == alive_panes(old(self)@.panes),
                self@ == (AppModel {
                    outbox: old(self)@.outbox + discards(ids@.take(i as int)),
                    ..old(self)@
                }),
            decreases ids@.len() - i,
        {
            let ghost before = self@;
            self.send(Effect::Discard(ids[i]));
            i = i + 1;
            assert(self@.outbox =~= old(self)@.outbox + discards(ids@.take(i as int)));
        }
        assert(ids@.take(i as int) =~= ids@);
    }

    /// Kills every live process; called during shutdown.
    pub fn shutdown(&mut self)
        ensures
            final(self)@ == old(self)@.all_discarded(),
    {
        self.discard_all();
    }
}

/// A deadline or a backoff that a newer action superseded changes nothing.
pub proof fn stale_events_change_nothing(
    app: AppModel,
    pane: PaneId,
    generation: u64,
    shutdown_generation: u64,
    now: Moment,
)
    ensures
        app.ledger.generation(pane) != Some(generation) ==> app.respawned(pane, generation, now)
            == app,
        app.ledger.generation(pane) != Some(generation) ==> app.force_stop_due(
            pane,
            generation,
            shutdown_generation,
        ) == app,
        app.life(pane) matches Some(life) && life.shutdown_generation != shutdown_generation
            ==> app.force_stop_due(pane, generation, shutdown_generation) == app,
{
    reveal(AppModel::respawned);
    reveal(AppModel::force_stop_due);
}

/// Stopping a pane that waits for its respawn cancels the respawn: when the
/// backoff elapses, the pane stays stopped.
pub proof fn a_stop_cancels_a_pending_respawn(
    app: AppModel,
    pane: PaneId,
    generation: u64,
    now: Moment,
    later: Moment,
)
    requires
        app.ledger.generation(pane) == Some(generation),
        !app.alive(pane),
    ensures
        app.pane_stopped(pane, now).respawned(pane, generation, later) == app.pane_stopped(
            pane,
            now,
        ),
{
    reveal(AppModel::respawned);
    crate::ledger::a_new_generation_makes_old_events_stale(app.ledger, pane, pane);
}

/// A process that is already being stopped is not sent a second signal.
pub proof fn a_stop_in_flight_is_not_repeated(app: AppModel, pane: PaneId, now: Moment)
    requires
        app.life(pane) matches Some(life) && life.alive && life.exit_intent
            == ExitIntent::StopInFlight,
    ensures
        app.pane_stopped(pane, now) == app,
{
}

} // verus!
