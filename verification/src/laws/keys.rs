//! The keys of the sidebar and the chords of an attached terminal.

use vstd::prelude::*;
use crate::app::sidebar::awaiting_after;
use crate::app::{AppModel, Focus, SettingsState};
use crate::effect::{Effect, EffectModel, Reply, Task};
use crate::event::{InputEvent, RuntimeEvent};
use crate::form::ring_next;
use crate::input::{KeyCode, KeyEvent, KeyEventKind, KeyModifiers};
use crate::laws::{answers, answers_arrive, fresh, in_sidebar, pressed, sidebar_presses, told};
use crate::message::Message;
use crate::moment::Moment;
use crate::overlay::{OverlayModel, PickerModel};
use crate::process::{ActivityState, PaneId, Process, ProcessKind, ProcessOrigin};

verus! {

/// `q` quits, and does nothing else.
pub proof fn q_quits(app: AppModel, now: Moment)
    requires
        in_sidebar(app),
    ensures
        pressed(app, KeyCode::Char('q'), now) == (AppModel { running: false, ..fresh(app) }),
        app.handled(RuntimeEvent::InputClosed, now) == (AppModel { running: false, ..app }),
{
    reveal(AppModel::sidebar_key);
    reveal(AppModel::common_shortcut);
    reveal(AppModel::handled);
    sidebar_presses(app, KeyCode::Char('q'), now);
}

/// `?` shows the keys, and does nothing else.
pub proof fn question_mark_shows_the_keys(app: AppModel, now: Moment)
    requires
        in_sidebar(app),
    ensures
        pressed(app, KeyCode::Char('?'), now) == (AppModel {
            overlay: Some(OverlayModel::Help),
            ..fresh(app)
        }),
{
    reveal(AppModel::sidebar_key);
    reveal(AppModel::common_shortcut);
    sidebar_presses(app, KeyCode::Char('?'), now);
}

/// `e` opens the editor for the selected process.
pub proof fn e_edits_the_selected_process(app: AppModel, pane: PaneId, now: Moment)
    requires
        in_sidebar(app),
        app.roster.selected_id() == Some(pane),
    ensures
        pressed(app, KeyCode::Char('e'), now) == (AppModel {
            outbox: app.outbox.push(EffectModel::Plain(Effect::OpenEditor(pane))),
            ..fresh(app)
        }),
{
    reveal(AppModel::sidebar_key);
    sidebar_presses(app, KeyCode::Char('e'), now);
}

/// Enter, the right arrow and `l` hand the keys to the selected process.
pub proof fn a_chosen_process_takes_the_keys(app: AppModel, code: KeyCode, now: Moment)
    requires
        in_sidebar(app),
        app.catalog.cursor is None,
        code == KeyCode::Enter || code == KeyCode::Right || code == KeyCode::Char('l'),
    ensures
        pressed(app, code, now) == (AppModel { focus: Focus::Terminal, ..fresh(app) }),
{
    reveal(AppModel::sidebar_key);
    reveal(AppModel::sidebar_chosen);
    sidebar_presses(app, code, now);
}

/// The left arrow and `h` leave the projects for the processes.
pub proof fn left_returns_to_the_processes(app: AppModel, code: KeyCode, now: Moment)
    requires
        in_sidebar(app),
        code == KeyCode::Left || code == KeyCode::Char('h'),
    ensures
        pressed(app, code, now).catalog.cursor is None,
        pressed(app, code, now).roster == app.roster,
        pressed(app, code, now).outbox == app.outbox,
        pressed(app, code, now).focus == Focus::Sidebar,
{
    reveal(AppModel::sidebar_key);
    sidebar_presses(app, code, now);
}

/// The row of the sidebar that is chosen, counted through the processes and then
/// the other projects.
pub open spec fn sidebar_place(app: AppModel) -> int {
    match app.catalog.cursor {
        Some(cursor) => app.roster.processes.len() + cursor,
        None => app.roster.selected as int,
    }
}

/// The number of rows in the sidebar.
pub open spec fn sidebar_rows(app: AppModel) -> int {
    app.roster.processes.len() as int + app.catalog.other_count() as int
}

/// The processes and the other projects are one list: down moves to the next row
/// and from the last one to the first, up moves to the previous row, and from the
/// first one to the last project where there is one.
pub proof fn the_sidebar_is_one_list(app: AppModel, code: KeyCode, now: Moment)
    requires
        in_sidebar(app),
        app.roster.selected < app.roster.processes.len() <= usize::MAX,
        app.catalog.other_count() <= usize::MAX,
        app.catalog.cursor is Some ==> app.catalog.cursor->0 < app.catalog.other_count(),
    ensures
        ({
            let moved = pressed(app, code, now);
            let place = sidebar_place(app);
            let rows = sidebar_rows(app);
            let down = code == KeyCode::Down || code == KeyCode::Char('j');
            let up = code == KeyCode::Up || code == KeyCode::Char('k');
            &&& down || up ==> moved.roster.processes == app.roster.processes && moved.outbox
                == app.outbox && moved.catalog.projects == app.catalog.projects
            &&& down && place + 1 < rows ==> sidebar_place(moved) == place + 1
            &&& down && place + 1 == rows ==> sidebar_place(moved) == 0
            &&& up && place > 0 ==> sidebar_place(moved) == place - 1
            &&& up && place == 0 && app.catalog.other_count() > 0 ==> sidebar_place(moved) == rows
                - 1
            &&& up && place == 0 && app.catalog.other_count() == 0 ==> sidebar_place(moved) == 0
        }),
{
    reveal(AppModel::sidebar_key);
    reveal(AppModel::moved_down);
    reveal(AppModel::moved_up);
    sidebar_presses(app, code, now);
    assert(fresh(app).catalog == app.catalog);
}

/// On a project, the keys of a process do nothing.
pub proof fn process_keys_spare_the_projects(app: AppModel, c: char, now: Moment)
    requires
        in_sidebar(app),
        app.catalog.cursor is Some,
        c == 's' || c == 'r' || c == 'p' || c == 'x' || c == 't',
    ensures
        pressed(app, KeyCode::Char(c), now) == fresh(app),
{
    reveal(AppModel::sidebar_key);
    sidebar_presses(app, KeyCode::Char(c), now);
}

/// `!` selects the first process after the selected one, round the end, that waits
/// for input; where none does, it says so.
pub proof fn attention_goes_to_the_next_that_waits(app: AppModel, k: nat, now: Moment)
    requires
        in_sidebar(app),
        app.roster.selected < app.roster.processes.len() <= usize::MAX,
        1 <= k <= app.roster.processes.len(),
        forall|j: int|
            1 <= j < k ==> (#[trigger] app.roster.processes[(app.roster.selected + j)
                % app.roster.processes.len() as int]).activity != ActivityState::AwaitingInput,
    ensures
        ({
            let count = app.roster.processes.len() as int;
            let index = (app.roster.selected + k) % count;
            let after = pressed(app, KeyCode::Char('!'), now);
            let waits = app.roster.processes[index].activity == ActivityState::AwaitingInput;
            &&& waits ==> after.roster.selected == index && after.catalog.cursor is None
            &&& waits ==> after.roster.processes == app.roster.processes
            &&& !waits && k == count ==> after.roster == app.roster && after.feedback.notice
                == Some(Message::NoAttention)
            &&& after.outbox == app.outbox
        }),
{
    reveal(AppModel::sidebar_key);
    reveal(AppModel::attended);
    sidebar_presses(app, KeyCode::Char('!'), now);
    let count = app.roster.processes.len();
    let index = (app.roster.selected + k) % count as int;
    next_waiting(app.roster.processes, app.roster.selected, count, k);
    assert(0 <= index < count) by (nonlinear_arith)
        requires
            index == (app.roster.selected + k) % count as int,
            count > 0,
    ;
}

proof fn next_waiting(processes: Seq<Process>, index: usize, count: nat, k: nat)
    requires
        index < processes.len() <= usize::MAX,
        1 <= k <= count,
        forall|j: int|
            1 <= j < k ==> (#[trigger] processes[(index + j) % processes.len() as int]).activity
                != ActivityState::AwaitingInput,
    ensures
        ({
            let at = (index + k) % processes.len() as int;
            &&& processes[at].activity == ActivityState::AwaitingInput ==> awaiting_after(
                processes,
                index,
                count,
            ) == Some(at as usize)
            &&& processes[at].activity != ActivityState::AwaitingInput && k == count
                ==> awaiting_after(processes, index, count) is None
        }),
    decreases k,
{
    let len = processes.len() as int;
    let next = ring_next(index, processes.len());
    assert(0 <= (index + 1) % len < len) by (nonlinear_arith)
        requires
            len > 0,
    ;
    if k == 1 {
        assert(awaiting_after(processes, next, 0) is None);
        reveal_with_fuel(awaiting_after, 2);
    } else {
        assert(processes[(index + 1) % len].activity != ActivityState::AwaitingInput);
        assert forall|j: int| 1 <= j < k - 1 implies (#[trigger] processes[(next + j)
            % len]).activity != ActivityState::AwaitingInput by {
            assert((next + j) % len == (index + (j + 1)) % len) by {
                wraps(index as int, j, len);
            }
        }
        next_waiting(processes, next, (count - 1) as nat, (k - 1) as nat);
        wraps(index as int, k - 1, len);
    }
}

proof fn wraps(index: int, step: int, len: int)
    requires
        len > 0,
        0 <= index,
        0 <= step,
    ensures
        ((index + 1) % len + step) % len == (index + (step + 1)) % len,
{
    vstd::arithmetic::div_mod::lemma_add_mod_noop(index + 1, step, len);
    vstd::arithmetic::div_mod::lemma_add_mod_noop((index + 1) % len, step, len);
    vstd::arithmetic::div_mod::lemma_mod_twice(index + 1, len);
    assert(index + 1 + step == index + (step + 1));
}

/// `N` turns the desktop notifications over: the opposite of the setting is saved,
/// and once it is, it holds and the user reads which it is.
pub proof fn a_saved_setting_is_the_opposite_one(
    app: AppModel,
    later: AppModel,
    desktop: bool,
    error: String,
    now: Moment,
)
    requires
        in_sidebar(app),
        app.settings == SettingsState::Loaded(desktop),
        answers(later, pressed(app, KeyCode::Char('N'), now)),
    ensures
        ({
            let asked = pressed(app, KeyCode::Char('N'), now);
            let done = told(later, Reply::Wrote(Ok(())), now);
            let failed = told(later, Reply::Wrote(Err(error)), now);
            &&& asked.outbox == app.outbox.push(EffectModel::Plain(Effect::SaveSettings(!desktop)))
            &&& asked.settings == app.settings
            &&& done.settings == SettingsState::Loaded(!desktop)
            &&& desktop ==> done.feedback.notice == Some(Message::DesktopOff)
            &&& !desktop ==> done.feedback.notice == Some(Message::DesktopOn)
            &&& failed.settings == later.settings
            &&& failed.feedback.notice == Some(Message::SettingsSave)
        }),
{
    reveal(AppModel::sidebar_key);
    reveal(AppModel::common_shortcut);
    reveal(AppModel::desktop_toggling);
    reveal(AppModel::entry_answered);
    reveal(AppModel::settings_saved);
    sidebar_presses(app, KeyCode::Char('N'), now);
    let task = Task::SettingsSaved(!desktop);
    answers_arrive(later, task, Reply::Wrote(Ok(())), now);
    answers_arrive(later, task, Reply::Wrote(Err(error)), now);
}

/// Settings that were not read are not written.
pub proof fn unread_settings_are_not_written(app: AppModel, error: String, now: Moment)
    requires
        in_sidebar(app),
    ensures
        app.settings == SettingsState::Unloaded ==> {
            let after = pressed(app, KeyCode::Char('N'), now);
            after.outbox == app.outbox && after.feedback.notice == Some(
                Message::SettingsUnavailable,
            )
        },
        app.settings == SettingsState::LoadFailed(error) ==> {
            let after = pressed(app, KeyCode::Char('N'), now);
            after.outbox == app.outbox && after.feedback.notice == Some(
                Message::SettingsLoad(error),
            )
        },
        app.settings_loaded(Ok(true), now).desktop_notifications(),
        !app.settings_loaded(Ok(false), now).desktop_notifications(),
        !app.settings_loaded(Err(error), now).desktop_notifications(),
        app.settings_loaded(Err(error), now).feedback.notice == Some(Message::SettingsLoad(error)),
{
    reveal(AppModel::sidebar_key);
    reveal(AppModel::common_shortcut);
    reveal(AppModel::desktop_toggling);
    sidebar_presses(app, KeyCode::Char('N'), now);
}

/// Whether an attached terminal waits for the second key of a chord.
pub open spec fn in_chord(app: AppModel) -> bool {
    app.overlay is None && app.focus == Focus::Leader
}

proof fn chord_presses(app: AppModel, code: KeyCode, now: Moment)
    requires
        in_chord(app),
    ensures
        pressed(app, code, now) == fresh(app).focused(Focus::Terminal).leader_command(
            crate::laws::press(code),
            None,
            now,
        ),
{
    reveal(AppModel::handled);
    reveal(AppModel::input_handled);
    reveal(AppModel::key_handled);
    reveal(AppModel::focused_key);
}

/// The leader takes the next key from the terminal.
pub proof fn the_leader_begins_a_chord(app: AppModel, escape: Option<u32>, now: Moment)
    requires
        app.overlay is None,
        app.focus == Focus::Terminal,
    ensures
        ({
            let leader = KeyEvent {
                code: KeyCode::Char('a'),
                modifiers: KeyModifiers { shift: false, alt: false, control: true },
                kind: KeyEventKind::Press,
            };
            app.handled(
                RuntimeEvent::Input(InputEvent::Key { key: leader, escape }),
                now,
            ) == (AppModel { focus: Focus::Leader, ..fresh(app) })
        }),
{
    reveal(AppModel::handled);
    reveal(AppModel::input_handled);
    reveal(AppModel::key_handled);
    reveal(AppModel::focused_key);
}

/// The chords that leave the terminal and that change its process: the left arrow,
/// escape and `h` return to the sidebar; the down arrow and `j` select the next
/// process, the up arrow and `k` the previous one, round the ends.
pub proof fn chords_leave_and_change_the_terminal(app: AppModel, code: KeyCode, now: Moment)
    requires
        in_chord(app),
        app.roster.selected < app.roster.processes.len() <= usize::MAX,
    ensures
        ({
            let after = pressed(app, code, now);
            let count = app.roster.processes.len() as int;
            let leaves = code == KeyCode::Left || code == KeyCode::Esc || code == KeyCode::Char(
                'h',
            );
            let down = code == KeyCode::Down || code == KeyCode::Char('j');
            let up = code == KeyCode::Up || code == KeyCode::Char('k');
            &&& leaves ==> after == (AppModel { focus: Focus::Sidebar, ..fresh(app) })
            &&& down || up ==> after.focus == Focus::Terminal && after.outbox == app.outbox
            &&& down || up ==> after.roster.processes == app.roster.processes
            &&& down && app.roster.selected + 1 < count ==> after.roster.selected
                == app.roster.selected + 1
            &&& down && app.roster.selected + 1 == count ==> after.roster.selected == 0
            &&& up && app.roster.selected > 0 ==> after.roster.selected == app.roster.selected - 1
            &&& up && app.roster.selected == 0 ==> after.roster.selected == count - 1
        }),
{
    reveal(AppModel::leader_command);
    chord_presses(app, code, now);
}

/// The chord of `d` closes a conversation as `d` does in the sidebar; a configured
/// agent stays, and the user is told so.
pub proof fn a_chord_closes_only_conversations(app: AppModel, process: Process, now: Moment)
    requires
        in_chord(app),
        app.roster.selected_process() == Some(process),
    ensures
        ({
            let after = pressed(app, KeyCode::Char('d'), now);
            let agent = process.kind == ProcessKind::Agent;
            let session = process.origin == ProcessOrigin::Session;
            &&& !agent ==> after == (AppModel { focus: Focus::Terminal, ..fresh(app) })
            &&& agent && !session ==> after.outbox == app.outbox && after.overlay is None
                && after.feedback.notice == Some(Message::ConfiguredClose)
            &&& agent && session && app.alive(process.id) ==> after.overlay == Some(
                OverlayModel::ConfirmSessionClose {
                    prompt: crate::message::Prompt::CloseSession(process.name),
                    pane: process.id,
                },
            )
        }),
{
    reveal(AppModel::leader_command);
    reveal(AppModel::selected_close_confirmation);
    chord_presses(app, KeyCode::Char('d'), now);
}

/// A key that is not part of a chord is dropped, and the terminal has the keys
/// again.
pub proof fn an_unknown_chord_is_dropped(app: AppModel, code: KeyCode, now: Moment)
    requires
        in_chord(app),
        code == KeyCode::Tab || code == KeyCode::Enter || code == KeyCode::Right || code
            == KeyCode::Char('z'),
    ensures
        pressed(app, code, now) == (AppModel { focus: Focus::Terminal, ..fresh(app) }),
{
    reveal(AppModel::leader_command);
    reveal(AppModel::common_shortcut);
    chord_presses(app, code, now);
}

/// In the picker, down and `j` move to the next item, up and `k` to the previous
/// one, round the ends.
pub proof fn the_picker_is_a_ring(app: AppModel, picker: PickerModel, code: KeyCode, now: Moment)
    requires
        app.overlay == Some(OverlayModel::AgentPicker(picker)),
        picker.selected < picker.items.len() <= usize::MAX,
    ensures
        ({
            let after = pressed(app, code, now);
            let count = picker.items.len() as int;
            let down = code == KeyCode::Down || code == KeyCode::Char('j');
            let up = code == KeyCode::Up || code == KeyCode::Char('k');
            let at = |row: int| (AppModel {
                overlay: Some(
                    OverlayModel::AgentPicker(PickerModel { selected: row as usize, ..picker }),
                ),
                ..fresh(app)
            });
            &&& down && picker.selected + 1 < count ==> after == at(picker.selected + 1)
            &&& down && picker.selected + 1 == count ==> after == at(0)
            &&& up && picker.selected > 0 ==> after == at(picker.selected - 1)
            &&& up && picker.selected == 0 ==> after == at(count - 1)
        }),
{
    reveal(AppModel::handled);
    reveal(AppModel::input_handled);
    reveal(AppModel::key_handled);
    reveal(AppModel::picker_key);
    steps_round(picker.selected, picker.items.len());
}

/// A step round a ring goes to the next place, and from the last to the first.
pub proof fn steps_round(index: usize, len: nat)
    requires
        index < len <= usize::MAX,
    ensures
        index + 1 < len ==> ring_next(index, len) == index + 1,
        index + 1 == len ==> ring_next(index, len) == 0,
        index > 0 ==> crate::form::ring_previous(index, len) == index - 1,
        index == 0 ==> crate::form::ring_previous(index, len) == len - 1,
{
    let count = len as int;
    if index + 1 < len {
        assert((index + 1) % count == index + 1) by (nonlinear_arith)
            requires
                0 <= index,
                index + 1 < count,
        ;
    } else {
        assert((index + 1) % count == 0) by (nonlinear_arith)
            requires
                index + 1 == count,
        ;
    }
}

/// A key that is held down in a chord does nothing until it is pressed anew, and a
/// release is never a command.
pub proof fn chords_take_presses_only(app: AppModel, key: KeyEvent, escape: Option<u32>, now: Moment)
    requires
        in_chord(app),
    ensures
        key.kind == KeyEventKind::Repeat ==> app.handled(
            RuntimeEvent::Input(InputEvent::Key { key, escape }),
            now,
        ) == fresh(app),
        key.kind == KeyEventKind::Release ==> app.handled(
            RuntimeEvent::Input(InputEvent::Key { key, escape }),
            now,
        ).focus == Focus::Leader,
        key.kind == KeyEventKind::Release ==> app.handled(
            RuntimeEvent::Input(InputEvent::Key { key, escape }),
            now,
        ).roster == app.roster,
{
    reveal(AppModel::handled);
    reveal(AppModel::input_handled);
    reveal(AppModel::key_handled);
    reveal(AppModel::focused_key);
    reveal(AppModel::released);
}

/// A key press takes the notice and the text selection away, and leaves the toast.
pub proof fn a_press_clears_the_notice(app: AppModel)
    ensures
        fresh(app).feedback.notice is None,
        fresh(app).feedback.notice_deadline is None,
        fresh(app).feedback.toast == app.feedback.toast,
        fresh(app).pointer.selection is None,
        fresh(app).pointer.last_click is None,
        fresh(app).pointer.clear_deadline is None && fresh(app).pointer.autoscroll is None,
        fresh(app).pointer.clipboard == app.pointer.clipboard,
        fresh(app).roster == app.roster && fresh(app).panes == app.panes,
        fresh(app).outbox == app.outbox && fresh(app).waiting == app.waiting,
{
}

} // verus!
