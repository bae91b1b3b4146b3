use muster::clipboard::{
    write_native, ClipboardCommand, ClipboardEnvironment, ClipboardStep, Platform,
};
use muster::config::{
    append_spec, starter_config, ProcessSpec, ProcessSpecMatcher, WorkspaceConfig,
    STARTER_TERMINAL,
};
use muster::generation::{newest_request, CompletionGeneration, CompletionRequest};
use muster::geometry::{areas, pane_size_of, Rect, MIN_PANE_DIMENSION};
use muster::ledger::{backoff_millis, Ledger};
use muster::location::{
    absolute, components_of, find_project, join_paths, label_from_config, parent, paths_agree,
    register_project,
    rollback_registration, without_project, Location, Project, APP_NAME,
};
use muster::message::{Feedback, Message, Prompt, ToastText, Tone, NOTICE_MILLIS, TOAST_MILLIS};
use muster::moment::{deadline_due, earliest_of, Moment};
use muster::names::{
    agent_name_from, configured_name_from, draw_names, generate_configured_agent_name,
    generated_agent_name, pick_name,
};
use muster::palette::{cube_color, gray_of, resolve_color, HostColors};
use muster::emulator::Rgb;
use muster::process::{
    after_exit, effective_stop_of, policy_restarts, AgentTool, ExitDecision, ExitIntent,
    ExitOutcome, Preset, Presets, Process, ProcessKind, ProcessOrigin, ProcessState,
    RestartPolicy, StopPolicy,
};
use muster::reconcile::Reconciliation;
use muster::selection::{
    cell_at, nearest_cell, word_bounds, BufferCell, GridCell, ScrollMetrics, Selection,
};
use muster::session::{find_session, has_closed, recent_of, AgentSession, AgentSessionState};
use muster::workspace::Workspace;

fn text(value: &str) -> String {
    value.to_string()
}

fn place(path: &str) -> Location {
    Location::new(text(path), text(path), text(path), text(path))
}

fn project(name: &str, path: &str) -> Project {
    Project { name: text(name), config: place(path), opens_at: Ok(place(path)) }
}

fn spec(name: &str, command: &str) -> ProcessSpec {
    ProcessSpec::new(text(name), Some(text(command)), None)
}

fn commands(specs: Vec<ProcessSpec>) -> WorkspaceConfig {
    WorkspaceConfig { agents: vec![], terminals: vec![], commands: specs }
}

fn names_of(workspace: &Workspace) -> Vec<String> {
    workspace.processes.iter().map(|process| process.name.clone()).collect()
}

fn ids_of(workspace: &Workspace) -> Vec<u64> {
    workspace.processes.iter().map(|process| process.id).collect()
}

fn running(id: u64, name: &str, kind: ProcessKind) -> Process {
    let mut process = Process::new(id, text(name), kind);
    process.state = ProcessState::Running;
    process
}

// Time.

#[test]
fn moments_stop_at_the_end_of_the_clock() {
    assert_eq!(Moment::new(5).after_millis(2), Moment::new(2_000_005));
    assert_eq!(Moment::new(u64::MAX).after_millis(1), Moment::new(u64::MAX));
    assert_eq!(Moment::new(0).after_millis(u64::MAX), Moment::new(u64::MAX));
    assert!(Moment::new(3).reached_by(Moment::new(3)));
    assert!(!Moment::new(4).reached_by(Moment::new(3)));
    assert!(Moment::new(1_000_000).elapsed_at_least(Moment::new(0), 1));
    assert!(!Moment::new(999_999).elapsed_at_least(Moment::new(0), 1));
}

#[test]
fn the_earliest_deadline_wins() {
    let (early, late) = (Some(Moment::new(1)), Some(Moment::new(2)));
    assert_eq!(earliest_of(late, early), early);
    assert_eq!(earliest_of(None, late), late);
    assert_eq!(earliest_of(None, None), None);
    assert!(deadline_due(early, Moment::new(1)));
    assert!(!deadline_due(late, Moment::new(1)));
    assert!(!deadline_due(None, Moment::new(1)));
}

// Layout.

#[test]
fn a_frame_is_divided() {
    let parts = areas(Rect::new(0, 0, 80, 24));
    assert_eq!(parts.status, Rect::new(0, 23, 80, 1));
    assert_eq!(parts.sidebar, Rect::new(0, 0, 32, 23));
    assert_eq!(parts.main, Rect::new(32, 0, 48, 23));
    let size = pane_size_of(Rect::new(0, 0, 80, 24));
    assert_eq!((size.rows, size.cols), (21, 46));
}

/// The division of frames of every shape, corners of the coordinate range among
/// them: the status bar and the sidebar give way to the main pane's last cell.
#[test]
fn frames_of_every_size_are_divided_without_gaps() {
    let sides: Vec<u16> = (0..70).chain([100, 255, 256, 1000, 32_767, 40_000, 65_535]).collect();
    for corner in [0u16, 1, 7, 500, 65_500, 65_535] {
        for &width in &sides {
            for &height in &[0u16, 1, 2, 3, 24, 200, 65_535] {
                let frame = Rect::new(corner, corner, width, height);
                let parts = areas(frame);
                let across = width.min(u16::MAX - corner);
                let down = height.min(u16::MAX - corner);
                let rows = down.saturating_sub(1).max(down.min(1));
                let main = across.saturating_sub(32).max(across.min(1));
                let side = across - main;
                assert_eq!(parts.sidebar, Rect::new(corner, corner, side, rows));
                assert_eq!(parts.main, Rect::new(corner + side, corner, main, rows));
                assert_eq!(parts.status, Rect::new(corner, corner + rows, width, down - rows));
            }
        }
    }
}

#[test]
fn a_tiny_frame_keeps_its_main_pane() {
    let parts = areas(Rect::new(0, 0, 20, 1));
    assert_eq!(parts.status, Rect::new(0, 1, 20, 0));
    assert_eq!(parts.sidebar, Rect::new(0, 0, 19, 1));
    assert_eq!(parts.main, Rect::new(19, 0, 1, 1));
}

#[test]
fn tiny_frames_still_have_a_pane() {
    for side in 0..16 {
        let size = pane_size_of(Rect::new(0, 0, side, side));
        assert!(size.rows >= MIN_PANE_DIMENSION && size.cols >= MIN_PANE_DIMENSION);
    }
}

// Selections.

#[test]
fn cells_are_found_and_clamped() {
    let grid = Rect::new(10, 5, 4, 3);
    assert_eq!(cell_at(grid, 11, 7), Some(GridCell { row: 2, column: 1 }));
    assert_eq!(cell_at(grid, 14, 5), None);
    assert_eq!(nearest_cell(grid, 0, 0), Some(GridCell { row: 0, column: 0 }));
    assert_eq!(nearest_cell(grid, 90, 90), Some(GridCell { row: 2, column: 3 }));
    assert_eq!(nearest_cell(Rect::new(0, 0, 0, 3), 0, 0), None);
}

#[test]
fn the_view_sits_above_the_end_of_history() {
    let metrics = ScrollMetrics { offset: 3, len: 10 };
    assert_eq!(metrics.viewport_top(), 7);
    assert_eq!(
        metrics.buffer_cell(GridCell { row: 2, column: 4 }),
        BufferCell { row: 9, column: 4 }
    );
}

#[test]
fn words_are_bounded_by_blanks() {
    assert_eq!(word_bounds(&text("hello world"), 7), Some((6, 10)));
    assert_eq!(word_bounds(&text("hello world"), 0), Some((0, 4)));
    assert_eq!(word_bounds(&text("hello world"), 5), None);
    assert_eq!(word_bounds(&text("hello"), 5), None);
}

#[test]
fn selections_run_forward_whatever_the_drag() {
    let mut selection = Selection::anchored(0, BufferCell { row: 4, column: 2 });
    assert!(selection.is_click());
    selection.extend_to(BufferCell { row: 4, column: 2 });
    assert!(selection.is_click(), "staying put is still a press");
    selection.extend_to(BufferCell { row: 1, column: 6 });
    assert!(selection.is_dragging());
    let (start, end) = selection.span();
    assert_eq!(start, BufferCell { row: 1, column: 6 });
    assert_eq!(end, BufferCell { row: 4, column: 2 });
    assert_eq!(
        selection.viewport_span(2, 10, 20),
        Some((GridCell { row: 0, column: 0 }, GridCell { row: 2, column: 2 }))
    );
    assert_eq!(selection.viewport_span(5, 10, 20), None);
}

// Processes.

#[test]
fn policies_decide_about_restarts() {
    assert!(!policy_restarts(RestartPolicy::Never, ExitOutcome::Failed));
    assert!(policy_restarts(RestartPolicy::OnFailure, ExitOutcome::Failed));
    assert!(!policy_restarts(RestartPolicy::OnFailure, ExitOutcome::Succeeded));
    assert!(policy_restarts(RestartPolicy::Always, ExitOutcome::Succeeded));
}

#[test]
fn exits_are_decided_in_order() {
    let decide = |intent, retiring, restarting, outcome| {
        after_exit(intent, retiring, restarting, outcome)
    };
    let (failed, succeeded) = (ExitOutcome::Failed, ExitOutcome::Succeeded);
    assert_eq!(decide(ExitIntent::RestartInFlight, true, true, failed), ExitDecision::Retire);
    assert_eq!(decide(ExitIntent::StopRetryable, false, true, failed), ExitDecision::Stop);
    assert_eq!(
        decide(ExitIntent::RestartRetryable, false, false, succeeded),
        ExitDecision::RestartNow
    );
    assert_eq!(
        decide(ExitIntent::FollowPolicy, false, true, failed),
        ExitDecision::RestartLater
    );
    assert_eq!(
        decide(ExitIntent::FollowPolicy, false, false, failed),
        ExitDecision::Settle(ProcessState::Crashed)
    );
    assert_eq!(
        decide(ExitIntent::FollowPolicy, false, false, succeeded),
        ExitDecision::Settle(ProcessState::Exited)
    );
}

#[test]
fn only_commands_stop_gracefully_by_default() {
    assert_eq!(
        effective_stop_of(ProcessKind::Command, None),
        Some(StopPolicy::default_policy())
    );
    assert_eq!(effective_stop_of(ProcessKind::Terminal, None), None);
    assert_eq!(effective_stop_of(ProcessKind::Agent, None), None);
}

#[test]
fn backoff_doubles_up_to_a_bound() {
    let delays: Vec<u64> = (0..8).map(backoff_millis).collect();
    assert_eq!(delays, [200, 400, 800, 1_600, 3_200, 5_000, 5_000, 5_000]);
}

#[test]
fn generations_and_scopes_move_on() {
    let mut ledger = Ledger::new();
    assert_eq!(ledger.generation(3), None);
    let first = ledger.bump_generation(3);
    let second = ledger.bump_generation(3);
    assert_ne!(first, second);
    assert_eq!(ledger.generation(3), Some(second));
    assert_ne!(ledger.allocate_notification_scope(), ledger.allocate_notification_scope());
    ledger.put_reopen(3, text("session"));
    assert_eq!(ledger.take_reopen(3), Some(text("session")));
    assert_eq!(ledger.take_reopen(3), None);
}

// Workspaces.

#[test]
fn rows_stand_section_by_section() {
    let mut workspace = Workspace::new(vec![
        Process::new(0, text("agent"), ProcessKind::Agent),
        Process::new(1, text("command"), ProcessKind::Command),
    ]);
    workspace.select_at(1);
    let id = workspace.next_pane_id();
    assert_eq!(id, 2);
    workspace.insert_in_section(Process::new(id, text("terminal"), ProcessKind::Terminal));
    assert_eq!(names_of(&workspace), ["agent", "terminal", "command"]);
    assert_eq!(workspace.selected_process().expect("a process").name, "command");

    workspace.remove(2);
    assert_eq!(names_of(&workspace), ["agent", "command"]);
    assert_eq!(workspace.selected_process().expect("a process").name, "command");
    workspace.remove(1);
    assert_eq!(workspace.selected_process().expect("a process").name, "agent");
}

#[test]
fn selection_goes_round() {
    let mut workspace = Workspace::new(vec![
        Process::new(0, text("a"), ProcessKind::Terminal),
        Process::new(1, text("b"), ProcessKind::Terminal),
    ]);
    workspace.select_previous();
    assert_eq!(workspace.selected, 1);
    workspace.select_next();
    assert_eq!(workspace.selected, 0);
    workspace.select_at(9);
    assert_eq!(workspace.selected, 0);
    assert!(Workspace::new(vec![]).selected_process().is_none());
}

#[test]
fn the_next_identity_is_unused_at_the_end_of_the_numbers() {
    let workspace = Workspace::new(vec![
        Process::new(u64::MAX, text("a"), ProcessKind::Terminal),
        Process::new(0, text("b"), ProcessKind::Terminal),
    ]);
    assert_eq!(workspace.next_pane_id(), 1);
}

// Configurations.

#[test]
fn a_config_becomes_numbered_rows() {
    let config = WorkspaceConfig {
        agents: vec![spec("a", "one")],
        terminals: vec![spec("t", "two")],
        commands: vec![spec("c", "three")],
    };
    let processes = config.to_processes();
    let rows: Vec<(u64, &str, ProcessKind, bool)> = processes
        .iter()
        .map(|process| (process.id, process.name.as_str(), process.kind, process.autostart))
        .collect();
    assert_eq!(
        rows,
        [
            (0, "a", ProcessKind::Agent, true),
            (1, "t", ProcessKind::Terminal, true),
            (2, "c", ProcessKind::Command, false),
        ]
    );
    assert_eq!(
        config.config_preview(),
        [
            (ProcessKind::Agent, text("a")),
            (ProcessKind::Terminal, text("t")),
            (ProcessKind::Command, text("c")),
        ]
    );
}

#[test]
fn the_starter_is_one_login_shell() {
    let config = starter_config();
    assert!(config.agents.is_empty() && config.commands.is_empty());
    assert_eq!(config.terminals.len(), 1);
    assert_eq!(config.terminals[0].name, STARTER_TERMINAL);
    assert_eq!(config.terminals[0].command, None);
}

#[test]
fn an_appended_entry_can_be_taken_out_again() {
    let config = commands(vec![spec("x", "run"), spec("y", "walk")]);
    let added = spec("x", "run");
    let (longer, occurrence) = append_spec(config.copied(), ProcessKind::Command, &added);
    assert_eq!(occurrence, 1, "it is the second of its identity");
    assert_eq!(longer.commands.len(), 3);

    let matcher = ProcessSpecMatcher::of_spec(ProcessKind::Command, &added);
    let (shorter, found) = matcher.without(longer, occurrence);
    assert!(found);
    let names: Vec<String> = shorter.commands.iter().map(|spec| spec.name.clone()).collect();
    assert_eq!(names, ["x", "y"]);
    let (same, found) = matcher.without(shorter, 1);
    assert!(!found, "there is no second one left");
    assert_eq!(same.commands.len(), 2);
}

#[test]
fn autostart_is_edited_in_one_entry() {
    let config = commands(vec![spec("x", "run"), spec("x", "run")]);
    let matcher = ProcessSpecMatcher::of_spec(ProcessKind::Command, &config.commands[0]);
    let (edited, found) = matcher.with_autostart(config, 1, Some(true));
    assert!(found);
    assert_eq!(edited.commands[0].autostart, None);
    assert_eq!(edited.commands[1].autostart, Some(true));
}

#[test]
fn a_reload_touches_what_changed_only() {
    let mut session = running(5, "session", ProcessKind::Agent);
    session.origin = ProcessOrigin::Session;
    let workspace = Workspace::new(vec![
        session,
        spec("kept", "k").to_process(0, ProcessKind::Command),
        spec("gone", "g").to_process(1, ProcessKind::Command),
        spec("live", "l").to_process(2, ProcessKind::Command),
        spec("deleted", "d").to_process(3, ProcessKind::Command),
    ]);
    let config = commands(vec![spec("kept", "k"), spec("deleted", "d"), spec("new", "n")]);

    let outcome = Reconciliation::apply(&workspace, &config, &vec![2, 3], &vec![3]);

    assert_eq!(
        names_of(&outcome.workspace),
        ["session", "kept", "live", "deleted", "deleted", "new"]
    );
    assert_eq!(outcome.matched, [0]);
    assert_eq!(outcome.retiring, [2, 3]);
    assert_eq!(outcome.removed, [1]);
    let mut ids = ids_of(&outcome.workspace);
    ids.sort();
    ids.dedup();
    assert_eq!(ids.len(), 6, "identities stay unique");

    let again = Reconciliation::apply(&outcome.workspace, &config, &vec![2, 3], &vec![3]);
    assert_eq!(ids_of(&again.workspace), ids_of(&outcome.workspace), "a second reload adds nothing");
}

// Projects.

#[test]
fn paths_are_joined_below_a_folder() {
    assert!(absolute(&text("/a")));
    assert!(!absolute(&text("a/b")));
    assert_eq!(join_paths(&text("/a"), &text("b/c")), "/a/b/c");
    assert_eq!(join_paths(&text("/a/"), &text("b")), "/a/b");
}

#[test]
fn a_config_is_labeled_by_its_folder() {
    assert_eq!(label_from_config(&text("/x/proj/muster.yml")), "proj");
    assert_eq!(label_from_config(&text("/x//proj/./muster.yml")), "proj");
    assert_eq!(label_from_config(&text("/muster.yml")), APP_NAME);
    assert_eq!(label_from_config(&text("/x/../muster.yml")), APP_NAME);
    assert_eq!(label_from_config(&text("./muster.yml")), APP_NAME);
    assert_eq!(label_from_config(&text("/")), APP_NAME);
}

/// The expected values are those of the standard library's paths.
#[test]
fn paths_are_compared_by_component() {
    let paths = [
        "", ".", "./", "/", "//", "/.", "a", "./a", "a/", "a/.", "a//b", "a/./b", "a/b", "/a/b",
        "/a/./b/", "/./a/b", "../a", "a/../b", "/a b/c", "//a/b", "./.", "a/b/..",
    ];
    for one in paths {
        for other in paths {
            assert_eq!(
                paths_agree(&text(one), &text(other)),
                std::path::Path::new(one) == std::path::Path::new(other),
                "{one:?} and {other:?}"
            );
        }
        let folder = parent(&text(one));
        let expected = std::path::Path::new(one).parent();
        assert_eq!(folder.as_deref().map(std::path::Path::new), expected, "{one:?}");
    }
    assert_eq!(parent(&text("/link/workspace/muster.yml")).as_deref(), Some("/link/workspace"));
    assert_eq!(parent(&text("/muster.yml")).as_deref(), Some("/"));
    assert_eq!(components_of(&text("/a//./b/")), ["a", "b"]);
}

#[test]
fn a_registration_can_be_rolled_back() {
    let before = vec![project("one", "/a/muster.yml"), project("two", "/b/muster.yml")];
    let (after, displaced) = register_project(
        before.iter().map(|project| project.copied()).collect(),
        project("renamed", "/a/muster.yml"),
    );
    let names: Vec<String> = after.iter().map(|project| project.name.clone()).collect();
    assert_eq!(names.len(), 2);
    assert!(names.contains(&text("renamed")) && names.contains(&text("two")));
    assert_eq!(displaced.len(), 1);

    let restored =
        rollback_registration(after, &text("renamed"), &place("/a/muster.yml"), &displaced);
    let mut names: Vec<String> = restored.iter().map(|project| project.name.clone()).collect();
    names.sort();
    assert_eq!(names, ["one", "two"]);
    assert!(find_project(&restored, &place("/b/muster.yml")).is_some());
    assert_eq!(without_project(restored, &place("/b/muster.yml")).len(), 1);
}

// Sessions.

fn session(id: &str, state: AgentSessionState, reopen: Option<&str>) -> AgentSession {
    AgentSession {
        id: text(id),
        name: text(id),
        tool: AgentTool::Codex,
        project: place("/a/muster.yml"),
        launch_command: text("codex"),
        working_dir: None,
        resume_command: None,
        native_id: None,
        configured_key: None,
        state,
        restore: None,
        reopen: reopen.map(text),
        owner_process: None,
        owner_token: None,
        running_token: None,
        inferred_tool: AgentTool::Codex,
    }
}

#[test]
fn the_picker_offers_the_newest_resumable_conversations() {
    let mut sessions: Vec<AgentSession> = (0..7)
        .map(|number| session(&format!("s{number}"), AgentSessionState::Closed, Some("resume")))
        .collect();
    sessions.push(session("open", AgentSessionState::Open, Some("resume")));
    sessions.push(session("stuck", AgentSessionState::Closed, None));
    let mut configured = session("configured", AgentSessionState::Closed, Some("resume"));
    configured.configured_key = Some(text("agent"));
    sessions.push(configured);

    let here = place("/a/muster.yml");
    let recent: Vec<String> =
        recent_of(&sessions, &here, 5).iter().map(|session| session.id.clone()).collect();
    assert_eq!(recent, ["s6", "s5", "s4", "s3", "s2"]);
    assert!(has_closed(&sessions, &here));
    assert!(!has_closed(&sessions, &place("/elsewhere/muster.yml")));
    assert!(find_session(&sessions, &text("open")).is_some());
    assert!(find_session(&sessions, &text("nobody")).is_none());
}

#[test]
fn an_owner_is_known_by_its_token() {
    let mut session = session("s", AgentSessionState::Open, None);
    assert!(!session.session_owner_is_live());
    session.owner_process = Some(12);
    session.running_token = Some(text("t1"));
    assert!(!session.session_owner_is_live(), "a number alone proves nothing");
    session.owner_token = Some(text("t0"));
    assert!(!session.session_owner_is_live(), "another process has the number now");
    session.owner_token = Some(text("t1"));
    assert!(session.session_owner_is_live());
    session.running_token = None;
    assert!(!session.session_owner_is_live(), "the process is gone");
}

// Names.

#[test]
fn drawn_names_are_names() {
    let names = draw_names();
    assert!(!names.is_empty());
    assert!(names.iter().all(|name| !name.trim().is_empty()));
}

#[test]
fn used_names_are_not_picked() {
    let workspace = Workspace::new(vec![Process::new(0, text("Ada"), ProcessKind::Agent)]);
    let names = vec![text("Ada"), text("  "), text("Grace")];
    assert_eq!(pick_name(&names, &workspace), Some(text("Grace")));
    assert_eq!(pick_name(&vec![text("Ada")], &workspace), None);

    let (label, id) = (text("Codex"), text("0123456789abcdef"));
    assert_eq!(agent_name_from(&names, &workspace, &label, &id), "Grace");
    let fallback = agent_name_from(&vec![text("Ada")], &workspace, &label, &id);
    assert!(fallback.starts_with("Codex 0"));
    assert_eq!(
        configured_name_from(&vec![text("Ada")], &workspace),
        Some(text("Agent 1"))
    );
}

#[test]
fn numbered_names_skip_used_ones() {
    let workspace = Workspace::new(vec![
        Process::new(0, text("Agent 1"), ProcessKind::Agent),
        Process::new(1, text("Agent 2"), ProcessKind::Agent),
    ]);
    assert_eq!(configured_name_from(&vec![], &workspace), Some(text("Agent 3")));
    let generated = generate_configured_agent_name(&workspace).expect("a name");
    assert!(!workspace.name_in_use(&generated));
    let label = text("Codex");
    assert!(!generated_agent_name(&workspace, &label, &text("id")).trim().is_empty());
}

#[test]
fn presets_name_their_providers() {
    let preset = |label: &str| Preset { label: text(label), command: label.to_lowercase() };
    let presets = Presets {
        claude: preset("First"),
        codex: preset("Second"),
        gemini: preset("Third"),
        copilot: preset("Fourth"),
    };
    assert_eq!(presets.name(AgentTool::Codex), "Second");
    assert_eq!(presets.default_command(AgentTool::Copilot), Some(text("fourth")));
    assert_eq!(presets.name(AgentTool::Custom), "Custom");
    assert_eq!(presets.default_command(AgentTool::Custom), None);
}

// Messages.

#[test]
fn messages_say_what_happened() {
    let said = Message::SessionStore(text("disk full")).text();
    assert_eq!(said, "could not update agent session history: disk full");
    assert_eq!(Message::Rang(text("api")).text(), "api: awaiting input");
    assert_eq!(
        Message::ProjectOpen { name: text("one"), error: text("no file") }.text(),
        "one: no file"
    );
    assert_eq!(Message::Outside(text("as is")).text(), "as is");
    assert_eq!(
        Prompt::DeleteProcess { kind: ProcessKind::Command, name: text("build") }.text(),
        "Delete command 'build' from muster.yml?"
    );
    assert_eq!(Prompt::RemoveProject(text("one")).text(), "Remove project 'one'?");
    assert_eq!(Prompt::CloseSession(text("Ada")).text(), "Close agent session Ada?");
    assert_eq!(Prompt::MissingConfig(text("one")).text(), "one's config file is missing.");
    assert_eq!(Prompt::Overwrite.text(), "A muster.yml already exists in that folder.");
}

#[test]
fn feedback_dismisses_itself() {
    let mut feedback = Feedback::new();
    let start = Moment::new(0);
    feedback.set_notice(Message::NoAttention, start);
    feedback.show_toast(ToastText::Copied, Tone::Success, start);
    assert_eq!(feedback.next_notice_deadline(), Some(start.after_millis(NOTICE_MILLIS)));
    assert_eq!(feedback.next_toast_deadline(), Some(start.after_millis(TOAST_MILLIS)));
    let early = Moment::new(start.after_millis(NOTICE_MILLIS).nanos - 1);
    assert!(!feedback.expire_notice(early));
    assert!(feedback.expire_notice(start.after_millis(NOTICE_MILLIS)));
    assert!(feedback.notice.is_none());
    assert!(feedback.toast.is_some(), "the toast is its own");
    assert!(feedback.expire_toast(start.after_millis(TOAST_MILLIS)));
    assert!(feedback.toast.is_none());
}

#[test]
fn a_click_dismisses_the_box_it_hits() {
    let mut feedback = Feedback::new();
    feedback.set_notice(Message::NoAttention, Moment::new(0));
    feedback.show_toast(ToastText::Copied, Tone::Success, Moment::new(0));
    let (notice, toast) = (Some(Rect::new(0, 5, 4, 2)), Some(Rect::new(0, 0, 4, 2)));
    assert!(!feedback.dismiss_toast_at(notice, toast, 9, 9));
    assert!(feedback.dismiss_toast_at(notice, toast, 1, 1));
    assert!(feedback.toast.is_none() && feedback.notice.is_some());
    assert!(feedback.dismiss_toast_at(notice, toast, 1, 6));
    assert!(feedback.notice.is_none());
    assert!(!feedback.dismiss_toast_at(notice, toast, 1, 6));
}

// The clipboard.

#[test]
fn clipboard_tools_follow_the_environment() {
    let mut here = ClipboardEnvironment {
        platform: Platform::Unix,
        ssh_connection: false,
        ssh_tty: false,
        wayland: true,
        x11: true,
    };
    assert_eq!(
        here.clipboard_commands(),
        [ClipboardCommand::WlCopy, ClipboardCommand::XClip, ClipboardCommand::XSel]
    );
    assert_eq!(ClipboardCommand::WlCopy.program(), "wl-copy");
    assert_eq!(ClipboardCommand::XClip.args(), ["-selection", "clipboard", "-in"]);
    assert_eq!(write_native(here, &vec![]), ClipboardStep::Run(ClipboardCommand::WlCopy));
    assert_eq!(
        write_native(here, &vec![false, false]),
        ClipboardStep::Run(ClipboardCommand::XSel)
    );
    assert_eq!(write_native(here, &vec![false, true]), ClipboardStep::Written);
    assert_eq!(write_native(here, &vec![false, false, false]), ClipboardStep::Unavailable);
    here.ssh_tty = true;
    assert!(here.prefers_osc52());
    assert_eq!(write_native(here, &vec![]), ClipboardStep::Unavailable);
    here.platform = Platform::MacOs;
    assert_eq!(here.clipboard_commands(), [ClipboardCommand::PbCopy]);
    here.platform = Platform::Elsewhere;
    assert!(here.clipboard_commands().is_empty());
}

// Colors.

#[test]
fn the_palette_has_a_cube_and_grays() {
    assert_eq!(cube_color(0), Rgb { r: 0, g: 0, b: 0 });
    assert_eq!(cube_color(215), Rgb { r: 255, g: 255, b: 255 });
    assert_eq!(cube_color(1), Rgb { r: 0, g: 0, b: 95 });
    assert_eq!(resolve_color(16, None), cube_color(0));
    assert_eq!(gray_of(8), Rgb { r: 8, g: 8, b: 8 });
    let host = HostColors::of_background(Rgb { r: 1, g: 2, b: 3 }, false);
    assert_eq!(host.background, Rgb { r: 1, g: 2, b: 3 });
    assert_ne!(host.foreground, host.background);
}

// Completion requests.

#[test]
fn the_newest_request_is_served() {
    let request = |number: u64, partial: &str| CompletionRequest {
        generation: CompletionGeneration::new(number),
        partial: text(partial),
    };
    let newest = newest_request(vec![request(1, "~/w"), request(2, "~/wo")]).expect("a request");
    assert_eq!(newest.generation, CompletionGeneration::new(2));
    assert_eq!(newest.partial, "~/wo");
    assert!(newest_request(vec![]).is_none());
}
