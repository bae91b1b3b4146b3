use muster::activity::{ActivityEvidence, ActivityTracker, OUTPUT_IDLE_TIMEOUT_MILLIS};
use muster::activity_frame::{ActivityFrame, ACTIVITY_FRAME_COUNT};
use muster::generation::CompletionGeneration;
use muster::moment::Moment;
use muster::process::{ActivityState, AgentTool, Process, ProcessKind, ProcessOrigin};

/// A moment that many milliseconds after the start.
fn at(millis: u64) -> Moment {
    Moment::new(millis * 1_000_000)
}

/// Builds an agent session for an activity strategy test.
fn agent(tool: AgentTool) -> Process {
    let mut process = Process::new(1, format!("{tool:?}"), ProcessKind::Agent);
    process.agent_tool = Some(tool);
    process.origin = ProcessOrigin::Session;
    process
}

/// Output-based work becomes idle after the quiet timeout.
#[test]
fn ordinary_output_expires_to_idle() {
    let observed_at = at(5_000);
    let mut tracker = ActivityTracker::new();

    assert_eq!(tracker.observe_output(observed_at), Some(ActivityState::Working));
    assert_eq!(
        tracker.expire(observed_at.after_millis(OUTPUT_IDLE_TIMEOUT_MILLIS)),
        Some(ActivityState::Idle)
    );
    assert_eq!(tracker.evidence, ActivityEvidence::Unscheduled);
}

/// Title-based providers ignore visible output and deduplicate titles.
#[test]
fn title_strategy_ignores_output_and_observes_title_changes() {
    let observed_at = at(5_000);
    let mut tracker = ActivityTracker::for_process(&agent(AgentTool::Codex));

    assert_eq!(tracker.observe_output(observed_at), None);
    assert_eq!(
        tracker.observe_title(observed_at, "working".to_string()),
        Some(ActivityState::Working)
    );
    assert_eq!(tracker.observe_title(observed_at, "working".to_string()), None);
}

/// Explicit progress cannot be expired by ordinary provider evidence.
#[test]
fn explicit_progress_has_no_provider_deadline() {
    let mut tracker = ActivityTracker::new();
    tracker.observe_progress(true);
    tracker.observe_output(at(5_000));

    assert_eq!(tracker.evidence, ActivityEvidence::ExplicitProgress);
    assert!(tracker.deadline().is_none());
    assert_eq!(tracker.expire(at(5_000).after_millis(OUTPUT_IDLE_TIMEOUT_MILLIS)), None);
}

/// An attention signal supersedes a pending output timeout.
#[test]
fn attention_clears_an_output_deadline() {
    let mut tracker = ActivityTracker::new();
    tracker.observe_output(at(5_000));

    assert_eq!(tracker.observe_attention(), ActivityState::AwaitingInput);
    assert_eq!(tracker.evidence, ActivityEvidence::Unscheduled);
}

/// Evidence lasts up to its timeout and not a nanosecond less.
#[test]
fn evidence_lasts_exactly_its_timeout() {
    let mut tracker = ActivityTracker::new();
    tracker.observe_output(at(1_000));
    assert_eq!(tracker.deadline(), Some(at(2_000)));
    assert_eq!(tracker.expire(Moment::new(2_000_000_000 - 1)), None);
    assert_eq!(tracker.expire(at(2_000)), Some(ActivityState::Idle));
}

/// Progress that ended asks for attention.
#[test]
fn ended_progress_awaits_input() {
    let mut tracker = ActivityTracker::new();
    assert_eq!(tracker.observe_progress(true), ActivityState::Working);
    assert_eq!(tracker.observe_progress(false), ActivityState::AwaitingInput);
    assert_eq!(tracker.evidence, ActivityEvidence::Unscheduled);
}

/// A full cycle returns to the initial frame.
#[test]
fn spinner_wraps_after_its_last_frame() {
    let mut frame = ActivityFrame::initial();
    for _ in 0..ACTIVITY_FRAME_COUNT {
        frame = frame.next();
    }

    assert_eq!(frame, ActivityFrame::initial());
}

/// Every frame of the cycle has a glyph of its own.
#[test]
fn frames_have_distinct_glyphs() {
    let mut frame = ActivityFrame::initial();
    let mut glyphs = Vec::new();
    for _ in 0..ACTIVITY_FRAME_COUNT {
        assert!(!glyphs.contains(&frame.glyph()));
        glyphs.push(frame.glyph());
        frame = frame.next();
    }
    assert_eq!(glyphs[0], '\u{280b}');
    assert_eq!(glyphs.len(), 10);
}

#[test]
fn next_advances_the_generation() {
    assert_eq!(CompletionGeneration::initial().next(), CompletionGeneration::new(1));
}

/// The generation after the last one is the first.
#[test]
fn generations_wrap() {
    assert_eq!(CompletionGeneration::new(u64::MAX).next(), CompletionGeneration::initial());
}
