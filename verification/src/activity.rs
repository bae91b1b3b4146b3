//! What a terminal's output says about whether its process is at work.

use vstd::prelude::*;
use crate::moment::Moment;
use crate::process::{ActivityState, AgentActivitySource, Process, ProcessKind};
use crate::text::{opt_text, same_text};

verus! {

/// Quiet period, in milliseconds, after activity evidence before a process
/// returns to idle.
pub const OUTPUT_IDLE_TIMEOUT_MILLIS: u64 = 1_000;

/// Evidence currently governing inferred process activity.
#[derive(Debug, Clone, Copy, PartialEq, Eq, Structural)]
pub enum ActivityEvidence {
    /// No inferred timeout is scheduled.
    Unscheduled,
    /// Recent provider evidence keeps the process working until it expires.
    Recent(Moment),
    /// Explicit protocol progress keeps the process working until completion.
    ExplicitProgress,
}

/// Tracks provider-specific activity evidence for one terminal lifetime.
#[derive(Debug)]
pub struct ActivityTracker {
    /// Which terminal evidence counts.
    pub strategy: AgentActivitySource,
    /// The evidence that currently governs.
    pub evidence: ActivityEvidence,
    /// The last title seen.
    pub last_title: Option<String>,
}

/// The evidence after a sign of work at `now`: explicit progress outranks it.
pub open spec fn refreshed(evidence: ActivityEvidence, now: Moment) -> ActivityEvidence {
    if evidence == ActivityEvidence::ExplicitProgress {
        evidence
    } else {
        ActivityEvidence::Recent(now)
    }
}

/// When evidence runs out, if it does.
pub open spec fn evidence_deadline(evidence: ActivityEvidence) -> Option<Moment> {
    match evidence {
        ActivityEvidence::Recent(seen) => Some(seen.later(OUTPUT_IDLE_TIMEOUT_MILLIS)),
        ActivityEvidence::Unscheduled | ActivityEvidence::ExplicitProgress => None,
    }
}

/// The evidence source that counts for a process.
pub open spec fn strategy_of(process: Process) -> AgentActivitySource {
    if process.kind == ProcessKind::Agent && process.agent_tool is Some {
        process.agent_tool->0.evidence()
    } else {
        AgentActivitySource::Output
    }
}

impl ActivityTracker {
    /// A tracker that has seen nothing yet.
    pub open spec fn fresh(strategy: AgentActivitySource) -> ActivityTracker {
        ActivityTracker { strategy, evidence: ActivityEvidence::Unscheduled, last_title: None }
    }

    /// The tracker after a sign of work through `source` at `now`.
    pub open spec fn after_output(self, now: Moment) -> ActivityTracker {
        if self.strategy == AgentActivitySource::Output {
            ActivityTracker { evidence: refreshed(self.evidence, now), ..self }
        } else {
            self
        }
    }

    /// Whether `title` is news to a tracker that goes by titles.
    pub open spec fn notes_title(self, title: Seq<char>) -> bool {
        self.strategy == AgentActivitySource::Title && opt_text(self.last_title) != Some(title)
    }

    /// The tracker after `title` was shown at `now`.
    pub open spec fn after_title(self, now: Moment, title: String) -> ActivityTracker {
        if self.notes_title(title@) {
            ActivityTracker {
                strategy: self.strategy,
                evidence: refreshed(self.evidence, now),
                last_title: Some(title),
            }
        } else {
            self
        }
    }

    /// The tracker after progress was reported as active or as over.
    pub open spec fn after_progress(self, active: bool) -> ActivityTracker {
        ActivityTracker {
            evidence: if active {
                ActivityEvidence::ExplicitProgress
            } else {
                ActivityEvidence::Unscheduled
            },
            ..self
        }
    }

    /// The tracker after a call for attention.
    pub open spec fn after_attention(self) -> ActivityTracker {
        ActivityTracker { evidence: ActivityEvidence::Unscheduled, ..self }
    }

    /// The tracker of a new or exited child.
    pub open spec fn cleared(self) -> ActivityTracker {
        ActivityTracker::fresh(self.strategy)
    }

    /// Whether the evidence has run out by `now`.
    pub open spec fn expires(self, now: Moment) -> bool {
        crate::moment::is_due(evidence_deadline(self.evidence), now)
    }

    /// The tracker once evidence that has run out by `now` is dropped.
    pub open spec fn after_expiry(self, now: Moment) -> ActivityTracker {
        if self.expires(now) {
            ActivityTracker { evidence: ActivityEvidence::Unscheduled, ..self }
        } else {
            self
        }
    }

    /// Creates a tracker that goes by any output.
    pub fn new() -> (tracker: Self)
        ensures
            tracker == ActivityTracker::fresh(AgentActivitySource::Output),
    {
        ActivityTracker {
            strategy: AgentActivitySource::Output,
            evidence: ActivityEvidence::Unscheduled,
            last_title: None,
        }
    }

    /// Creates a tracker using the selected process's agent preset.
    pub fn for_process(process: &Process) -> (tracker: Self)
        ensures
            tracker == ActivityTracker::fresh(strategy_of(*process)),
    {
        let strategy = if process.kind == ProcessKind::Agent {
            match process.agent_tool {
                Some(tool) => tool.activity_source(),
                None => AgentActivitySource::Output,
            }
        } else {
            AgentActivitySource::Output
        };
        ActivityTracker { strategy, evidence: ActivityEvidence::Unscheduled, last_title: None }
    }

    /// Records ordinary terminal output when the provider uses output activity.
    pub fn observe_output(&mut self, now: Moment) -> (activity: Option<ActivityState>)
        ensures
            *final(self) == old(self).after_output(now),
            activity == (if old(self).strategy == AgentActivitySource::Output {
                Some(ActivityState::Working)
            } else {
                None
            }),
    {
        if self.strategy != AgentActivitySource::Output {
            return None;
        }
        if self.evidence != ActivityEvidence::ExplicitProgress {
            self.evidence = ActivityEvidence::Recent(now);
        }
        Some(ActivityState::Working)
    }

    /// Records a terminal-title change when the provider uses title activity.
    pub fn observe_title(&mut self, now: Moment, title: String) -> (activity: Option<ActivityState>)
        ensures
            *final(self) == old(self).after_title(now, title),
            activity == (if old(self).notes_title(title@) {
                Some(ActivityState::Working)
            } else {
                None
            }),
    {
        if self.strategy != AgentActivitySource::Title {
            return None;
        }
        let known = match &self.last_title {
            Some(last) => same_text(last, &title),
            None => false,
        };
        if known {
            return None;
        }
        self.last_title = Some(title);
        if self.evidence != ActivityEvidence::ExplicitProgress {
            self.evidence = ActivityEvidence::Recent(now);
        }
        Some(ActivityState::Working)
    }

    /// Records a protocol progress transition and returns the resulting activity.
    pub fn observe_progress(&mut self, active: bool) -> (activity: ActivityState)
        ensures
            *final(self) == old(self).after_progress(active),
            activity == (if active {
                ActivityState::Working
            } else {
                ActivityState::AwaitingInput
            }),
    {
        if active {
            self.evidence = ActivityEvidence::ExplicitProgress;
            ActivityState::Working
        } else {
            self.evidence = ActivityEvidence::Unscheduled;
            ActivityState::AwaitingInput
        }
    }

    /// Records a notification or bell and returns the resulting activity.
    pub fn observe_attention(&mut self) -> (activity: ActivityState)
        ensures
            *final(self) == old(self).after_attention(),
            activity == ActivityState::AwaitingInput,
    {
        self.evidence = ActivityEvidence::Unscheduled;
        ActivityState::AwaitingInput
    }

    /// Clears all inferred activity for a new or exited child.
    pub fn reset(&mut self)
        ensures
            *final(self) == old(self).cleared(),
    {
        self.evidence = ActivityEvidence::Unscheduled;
        self.last_title = None;
    }

    /// Returns when recent provider evidence should become idle, if scheduled.
    pub fn deadline(&self) -> (deadline: Option<Moment>)
        ensures
            deadline == evidence_deadline(self.evidence),
    {
        match self.evidence {
            ActivityEvidence::Recent(seen) => Some(seen.after_millis(OUTPUT_IDLE_TIMEOUT_MILLIS)),
            ActivityEvidence::Unscheduled | ActivityEvidence::ExplicitProgress => None,
        }
    }

    /// Expires recent provider evidence at `now`, returning the new activity only
    /// when a transition to idle occurred.
    pub fn expire(&mut self, now: Moment) -> (activity: Option<ActivityState>)
        ensures
            *final(self) == old(self).after_expiry(now),
            activity == (if old(self).expires(now) {
                Some(ActivityState::Idle)
            } else {
                None
            }),
    {
        match self.deadline() {
            Some(deadline) => if deadline.reached_by(now) {
                self.evidence = ActivityEvidence::Unscheduled;
                Some(ActivityState::Idle)
            } else {
                None
            },
            None => None,
        }
    }
}

/// Explicit progress outlives every sign of ordinary work and never runs out on
/// its own.
pub proof fn explicit_progress_never_expires(
    tracker: ActivityTracker,
    seen: Moment,
    title: String,
    now: Moment,
)
    ensures
        !tracker.after_progress(true).expires(now),
        !tracker.after_progress(true).after_output(seen).expires(now),
        !tracker.after_progress(true).after_title(seen, title).expires(now),
        tracker.after_progress(true).after_output(seen).evidence
            == ActivityEvidence::ExplicitProgress,
        tracker.after_progress(true).after_title(seen, title).evidence
            == ActivityEvidence::ExplicitProgress,
{
}

/// Output seen at `seen` keeps a process working for exactly the quiet period:
/// it expires at the first moment that lies that long after it.
pub proof fn output_expires_after_the_quiet_period(
    tracker: ActivityTracker,
    seen: Moment,
    now: Moment,
)
    requires
        tracker.strategy == AgentActivitySource::Output,
        tracker.evidence != ActivityEvidence::ExplicitProgress,
    ensures
        tracker.after_output(seen).expires(now) <==> seen.later(OUTPUT_IDLE_TIMEOUT_MILLIS).due(now),
        tracker.after_output(seen).expires(seen.later(OUTPUT_IDLE_TIMEOUT_MILLIS)),
        !tracker.after_output(seen).after_expiry(seen.later(OUTPUT_IDLE_TIMEOUT_MILLIS)).expires(now),
{
}

/// Attention supersedes a pending quiet-period timeout, and a repeated title is
/// no news.
pub proof fn attention_and_repeats(tracker: ActivityTracker, title: String, at: Moment, now: Moment)
    ensures
        !tracker.after_attention().expires(now),
        tracker.notes_title(title@) ==> !tracker.after_title(at, title).notes_title(title@),
        tracker.after_title(at, title).after_title(now, title)
            == tracker.after_title(at, title),
{
}

} // verus!
