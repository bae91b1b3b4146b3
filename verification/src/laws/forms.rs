//! Forms: what they ask, and what submitting them asks of the host.

use vstd::prelude::*;
use vstd::string::*;
use crate::app::entries::NameChoice;
use crate::app::{AppModel, CompletionMode};
use crate::config::WorkspaceConfig;
use crate::effect::{Effect, EffectModel, Reply, SpecModel, Task};
use crate::form::{texts, FieldModel, FormModel, Line};
use crate::generation::CompletionGeneration;
use crate::input::KeyCode;
use crate::laws::projects::lists_projects;
use crate::laws::{answers, answers_arrive, fresh, in_sidebar, pressed, sidebar_presses, told};
use crate::location::{Location, Project};
use crate::message::Message;
use crate::moment::Moment;
use crate::overlay::{FormIntent, FormOverlayModel, OverlayModel, SwitcherModel};
use crate::process::{AgentTool, ProcessKind};
use crate::session::AgentSession;
use crate::text::trimmed;

verus! {

/// Whether a form is shown, with no list of completions open in it.
pub open spec fn fills_in(app: AppModel, form: FormOverlayModel) -> bool {
    app.overlay == Some(OverlayModel::Form(form)) && !form.form.dropdown()
}

/// Enter submits a form.
proof fn enter_submits(app: AppModel, form: FormOverlayModel, now: Moment)
    requires
        fills_in(app, form),
    ensures
        pressed(app, KeyCode::Enter, now) == fresh(app).form_submitted(now),
{
    reveal(AppModel::handled);
    reveal(AppModel::input_handled);
    reveal(AppModel::key_handled);
    reveal(AppModel::form_key);
}

/// `a` asks for the kind of the new process: an agent, a terminal or a command, in
/// this order, with the first one chosen.
pub proof fn a_new_process_is_of_one_of_three_kinds(app: AppModel, now: Moment)
    requires
        in_sidebar(app),
    ensures
        pressed(app, KeyCode::Char('a'), now).overlay == Some(
            OverlayModel::Form(
                FormOverlayModel {
                    form: FormModel {
                        title: "Add process"@,
                        fields: seq![
                            FieldModel::Choice {
                                label: "Kind"@,
                                options: seq!["agent"@, "terminal"@, "command"@],
                                selected: 0,
                            },
                        ],
                        active: 0,
                    },
                    intent: FormIntent::ChooseProcessKind,
                    error: None,
                    switcher: None,
                },
            ),
        ),
        pressed(app, KeyCode::Char('a'), now).outbox == app.outbox,
{
    reveal(AppModel::sidebar_key);
    reveal(AppModel::common_shortcut);
    reveal(AppModel::form_opened);
    sidebar_presses(app, KeyCode::Char('a'), now);
}

/// What is asked of the host for a new entry: that it be appended to the current
/// project, in the section of its kind, with its name and, unless it was left
/// blank, its command.
pub open spec fn appends(
    before: AppModel,
    after: AppModel,
    kind: ProcessKind,
    name: Seq<char>,
    command: Seq<char>,
) -> bool {
    &&& after.outbox == before.outbox.push(
        EffectModel::Append {
            place: before.catalog.current->0,
            kind,
            spec: SpecModel {
                name,
                command: if command.len() == 0 {
                    None
                } else {
                    Some(command)
                },
                working_dir: None,
                restart: None,
                autostart: None,
                stop: None,
                agent_tool: None,
            },
        },
    )
    &&& after.waiting == before.waiting.push(Task::Appended(kind))
    &&& after.overlay == before.overlay
}

/// The kind that is appended is the one whose word was chosen: a form submitted
/// with `terminal` leads to a form for the name and the command of a terminal,
/// and one with `command` to that of a command, whose submission appends an entry
/// of exactly that kind to the current project.
pub proof fn the_kind_appended_is_the_kind_chosen(
    app: AppModel,
    form: FormOverlayModel,
    word: Seq<char>,
    filled: AppModel,
    entry: FormOverlayModel,
    now: Moment,
    later: Moment,
)
    requires
        fills_in(app, form),
        form.intent == FormIntent::ChooseProcessKind,
        form.form.values().len() > 0,
        form.form.values()[0] == word,
        word == "terminal"@ || word == "command"@,
        fills_in(filled, entry),
        entry.intent == pressed(app, KeyCode::Enter, now).overlay->0->Form_0.intent,
        entry.form.values().len() == 2,
        trimmed(trimmed(entry.form.values()[0])).len() > 0,
        filled.catalog.current is Some,
    ensures
        ({
            let shown = pressed(app, KeyCode::Enter, now);
            let kind = if word == "terminal"@ {
                ProcessKind::Terminal
            } else {
                ProcessKind::Command
            };
            &&& shown.overlay is Some && shown.overlay->0 is Form
            &&& shown.outbox == app.outbox
            &&& shown.overlay->0->Form_0.form == (FormModel {
                title: "Add process"@,
                fields: seq![
                    FieldModel::Text {
                        label: "Name"@,
                        input: Line { value: Seq::empty(), cursor: 0 },
                    },
                    FieldModel::Text {
                        label: "Command"@,
                        input: Line { value: Seq::empty(), cursor: 0 },
                    },
                ],
                active: 0,
            })
            &&& shown.overlay->0->Form_0.switcher == form.switcher
            &&& appends(
                filled,
                pressed(filled, KeyCode::Enter, later),
                kind,
                trimmed(entry.form.values()[0]),
                trimmed(entry.form.values()[1]),
            )
        }),
{
    reveal(AppModel::form_opened);
    reveal_strlit("agent");
    reveal_strlit("terminal");
    reveal_strlit("command");
    enter_submits(app, form, now);
    enter_submits(filled, entry, later);
}

/// With `agent` chosen, the agents are shown instead.
pub proof fn an_agent_is_picked_from_the_agents(app: AppModel, form: FormOverlayModel, now: Moment)
    requires
        fills_in(app, form),
        form.intent == FormIntent::ChooseProcessKind,
        form.form.values().len() > 0,
        form.form.values()[0] == "agent"@,
    ensures
        pressed(app, KeyCode::Enter, now).overlay is Some,
        pressed(app, KeyCode::Enter, now).overlay->0 is AgentPicker,
        pressed(app, KeyCode::Enter, now).outbox == app.outbox,
{
    reveal(AppModel::picker_shown);
    enter_submits(app, form, now);
}

/// A configured agent needs a name that no other configured agent has, and a
/// command. A blank name is filled in; a name that is taken or a missing command
/// is reported in the form, and nothing is written.
pub proof fn a_configured_agent_needs_a_free_name_and_a_command(
    app: AppModel,
    form: FormOverlayModel,
    now: Moment,
)
    requires
        fills_in(app, form),
        form.intent == FormIntent::AddConfiguredProcess(ProcessKind::Agent),
        form.form.values().len() == 2,
        trimmed(trimmed(form.form.values()[0])).len() > 0,
        app.catalog.current is Some,
    ensures
        ({
            let name = trimmed(form.form.values()[0]);
            let command = trimmed(form.form.values()[1]);
            let after = pressed(app, KeyCode::Enter, now);
            let taken = exists|i: int|
                0 <= i < app.roster.processes.len() && (#[trigger] app.roster.processes[i]).kind
                    == ProcessKind::Agent && app.roster.processes[i].origin
                    == crate::process::ProcessOrigin::Configured
                    && app.roster.processes[i].name@ == name;
            let complaint = |message: Message| OverlayModel::Form(
                FormOverlayModel { error: Some(message), ..form },
            );
            &&& taken ==> after.outbox == app.outbox && after.overlay == Some(
                complaint(Message::NameTaken),
            )
            &&& !taken && command.len() == 0 ==> after.outbox == app.outbox && after.overlay
                == Some(complaint(Message::CommandRequired))
            &&& !taken && command.len() > 0 ==> appends(
                app,
                after,
                ProcessKind::Agent,
                name,
                command,
            )
        }),
{
    enter_submits(app, form, now);
    let complaint = |message: Message| OverlayModel::Form(
        FormOverlayModel { error: Some(message), ..form },
    );
    assert(fresh(app).roster == app.roster);
}

/// A terminal or a command without a name is not added, and nothing happens.
pub proof fn an_entry_needs_a_name(app: AppModel, form: FormOverlayModel, kind: ProcessKind, now: Moment)
    requires
        fills_in(app, form),
        form.intent == FormIntent::AddConfiguredProcess(kind),
        kind != ProcessKind::Agent,
        form.form.values().len() == 2,
        trimmed(trimmed(form.form.values()[0])).len() == 0,
    ensures
        pressed(app, KeyCode::Enter, now) == fresh(app),
{
    enter_submits(app, form, now);
}

/// An entry that the host could not write is reported in the form, and the
/// workspace stays as it is.
pub proof fn a_failed_append_is_reported(
    later: AppModel,
    form: FormOverlayModel,
    kind: ProcessKind,
    error: String,
    now: Moment,
)
    requires
        later.waiting.len() > 0,
        later.waiting[0] == Task::Appended(kind),
        later.overlay == Some(OverlayModel::Form(form)),
    ensures
        ({
            let after = told(later, Reply::Appended(Err(error)), now);
            &&& after.roster == later.roster
            &&& after.outbox == later.outbox
            &&& after.overlay == Some(
                OverlayModel::Form(
                    FormOverlayModel { error: Some(Message::WorkspaceSave), ..form },
                ),
            )
        }),
{
    reveal(AppModel::entry_answered);
    reveal(AppModel::append_answered);
    answers_arrive(later, Task::Appended(kind), Reply::Appended(Err(error)), now);
}

/// `s` in the switcher asks for a name, and saving registers the current project
/// under that name, without the blanks around it.
pub proof fn a_saved_project_is_the_current_one(
    app: AppModel,
    form: FormOverlayModel,
    later: AppModel,
    added: (Project, Vec<Project>),
    error: String,
    now: Moment,
    after: Moment,
)
    requires
        fills_in(app, form),
        form.intent == FormIntent::SaveCurrentProject,
        form.form.values().len() > 0,
        trimmed(form.form.values()[0]).len() > 0,
        app.catalog.current is Some,
        answers(later, pressed(app, KeyCode::Enter, now)),
        later.overlay == Some(OverlayModel::Form(form)),
    ensures
        ({
            let asked = pressed(app, KeyCode::Enter, now);
            let done = told(later, Reply::Registered(Ok(added)), after);
            let failed = told(later, Reply::Registered(Err(error)), after);
            &&& asked.outbox == app.outbox.push(
                EffectModel::Register {
                    name: trimmed(form.form.values()[0]),
                    place: app.catalog.current->0,
                },
            )
            &&& asked.overlay == app.overlay
            &&& lists_projects(later, done)
            &&& form.switcher is None ==> done.overlay is None
            &&& form.switcher is Some ==> done.overlay is Some && done.overlay->0 is Switcher
            &&& failed.catalog == later.catalog
            &&& failed.overlay == Some(
                OverlayModel::Form(
                    FormOverlayModel { error: Some(Message::Outside(error)), ..form },
                ),
            )
        }),
{
    reveal(AppModel::project_answered);
    reveal(AppModel::save_answered);
    reveal(AppModel::overlay_closed);
    reveal(AppModel::projects_refreshed);
    reveal(AppModel::previewing);
    enter_submits(app, form, now);
    answers_arrive(later, Task::SavedProject, Reply::Registered(Ok(added)), after);
    answers_arrive(later, Task::SavedProject, Reply::Registered(Err(error)), after);
    finishing(AppModel { waiting: later.waiting.skip(1), ..later });
}

proof fn finishing(app: AppModel)
    ensures
        lists_projects(app, app.project_done()),
{
    reveal(AppModel::overlay_closed);
    reveal(AppModel::projects_refreshed);
    reveal(AppModel::previewing);
    crate::location::project_at_is_the_first(
        crate::laws::projects::registry(app),
        app.catalog.launched,
    );
}

/// A name of blanks alone saves nothing.
pub proof fn a_saved_project_needs_a_name(app: AppModel, form: FormOverlayModel, now: Moment)
    requires
        fills_in(app, form),
        form.intent == FormIntent::SaveCurrentProject,
        form.form.values().len() > 0,
        trimmed(form.form.values()[0]).len() == 0,
    ensures
        pressed(app, KeyCode::Enter, now) == fresh(app),
{
    enter_submits(app, form, now);
}

/// A new project is located by the name and the folder that were typed. Where its
/// config does not exist, the located place is registered under that name, the
/// registered project's config is created, and then the projects are listed.
pub proof fn a_new_project_is_made_where_it_was_typed(
    app: AppModel,
    form: FormOverlayModel,
    found: AppModel,
    entered: AppModel,
    made: AppModel,
    name: String,
    place: Location,
    project: Project,
    preimage: Vec<Project>,
    now: Moment,
)
    requires
        fills_in(app, form),
        form.intent == FormIntent::NewProject,
        form.form.values().len() == 2,
        trimmed(form.form.values()[0]).len() > 0,
        trimmed(form.form.values()[1]).len() > 0,
        answers(found, pressed(app, KeyCode::Enter, now)),
        answers(entered, told(found, Reply::Located { name, place, exists: false }, now)),
        answers(made, told(entered, Reply::Registered(Ok((project, preimage))), now)),
    ensures
        ({
            let asked = pressed(app, KeyCode::Enter, now);
            let registering = told(found, Reply::Located { name, place, exists: false }, now);
            let creating = told(entered, Reply::Registered(Ok((project, preimage))), now);
            &&& asked.outbox == app.outbox.push(
                EffectModel::Locate {
                    name: trimmed(form.form.values()[0]),
                    folder: trimmed(form.form.values()[1]),
                },
            )
            &&& registering.outbox == found.outbox.push(
                EffectModel::Register { name: name@, place },
            )
            &&& creating.outbox == entered.outbox.push(
                EffectModel::Plain(Effect::CreateWorkspace(project.config)),
            )
            &&& lists_projects(made, told(made, Reply::Created(Ok(true)), now))
            &&& told(made, Reply::Created(Ok(false)), now).outbox == made.outbox.push(
                EffectModel::Plain(Effect::OpenWorkspace(project.config)),
            )
        }),
{
    reveal(AppModel::project_answered);
    reveal(AppModel::project_located);
    reveal(AppModel::scaffold_registered);
    reveal(AppModel::scaffold_answered);
    enter_submits(app, form, now);
    answers_arrive(found, Task::Located, Reply::Located { name, place, exists: false }, now);
    answers_arrive(
        entered,
        Task::ScaffoldRegistered,
        Reply::Registered(Ok((project, preimage))),
        now,
    );
    let task = Task::Scaffolded { project, preimage };
    answers_arrive(made, task, Reply::Created(Ok(true)), now);
    answers_arrive(made, task, Reply::Created(Ok(false)), now);
    finishing(AppModel { waiting: made.waiting.skip(1), ..made });
}

/// Where a config exists already, it is replaced only after a confirmation, and
/// then at the place that was asked about.
pub proof fn an_overwrite_replaces_the_confirmed_config(
    app: AppModel,
    form: FormOverlayModel,
    name: String,
    place: Location,
    code: KeyCode,
    entered: AppModel,
    saved: AppModel,
    project: Project,
    preimage: Vec<Project>,
    error: String,
    now: Moment,
)
    requires
        app.overlay == Some(OverlayModel::ConfirmOverwrite { form, name, place }),
        code == KeyCode::Enter || code == KeyCode::Char('y'),
        answers(entered, pressed(app, code, now)),
        answers(saved, told(entered, Reply::Registered(Ok((project, preimage))), now)),
        saved.overlay == Some(OverlayModel::Form(form)),
    ensures
        ({
            let asked = pressed(app, code, now);
            let saving = told(entered, Reply::Registered(Ok((project, preimage))), now);
            let failed = told(saved, Reply::Wrote(Err(error)), now);
            &&& asked.outbox == app.outbox.push(EffectModel::Register { name: name@, place })
            &&& asked.overlay == Some(OverlayModel::Form(form))
            &&& saving.outbox == entered.outbox.push(
                EffectModel::Plain(Effect::SaveWorkspace(project.config)),
            )
            &&& lists_projects(saved, told(saved, Reply::Wrote(Ok(())), now))
            &&& failed.overlay == Some(
                OverlayModel::Form(
                    FormOverlayModel { error: Some(Message::WorkspaceSave), ..form },
                ),
            )
            &&& pressed(app, KeyCode::Esc, now) == fresh(app).with_overlay(
                Some(OverlayModel::Form(form)),
            )
            &&& pressed(app, KeyCode::Char('n'), now) == fresh(app).with_overlay(
                Some(OverlayModel::Form(form)),
            )
        }),
{
    reveal(AppModel::handled);
    reveal(AppModel::input_handled);
    reveal(AppModel::key_handled);
    reveal(AppModel::confirm_key);
    reveal(AppModel::confirmed);
    reveal(AppModel::overlay_closed);
    reveal(AppModel::overwriting);
    reveal(AppModel::project_answered);
    reveal(AppModel::overwrite_registered);
    reveal(AppModel::overwrite_answered);
    assert(pressed(app, code, now).waiting.last() == Task::OverwriteRegistered);
    answers_arrive(
        entered,
        Task::OverwriteRegistered,
        Reply::Registered(Ok((project, preimage))),
        now,
    );
    answers_arrive(saved, Task::Overwritten, Reply::Wrote(Ok(())), now);
    answers_arrive(saved, Task::Overwritten, Reply::Wrote(Err(error)), now);
    finishing(AppModel { waiting: saved.waiting.skip(1), ..saved });
}

/// An agent session is prepared for the tool whose label was chosen, with the
/// name, the command and the resume command that were typed; a blank one is left
/// to the host, but for the command, where the tool's own is used.
pub proof fn a_session_is_prepared_for_the_chosen_tool(
    app: AppModel,
    form: FormOverlayModel,
    tool: AgentTool,
    now: Moment,
)
    requires
        fills_in(app, form),
        form.intent == FormIntent::LaunchAgentSession,
        form.form.values().len() == 4,
        form.form.values()[0] == app.world.presets.label(tool),
        forall|other: AgentTool|
            other != tool ==> #[trigger] app.world.presets.label(other)
                != app.world.presets.label(tool),
    ensures
        ({
            let values = form.form.values();
            let given = |i: int| if trimmed(values[i]).len() == 0 {
                None::<Seq<char>>
            } else {
                Some(values[i])
            };
            let after = pressed(app, KeyCode::Enter, now);
            &&& after.outbox.len() == app.outbox.len() + 1
            &&& after.outbox.last() == (EffectModel::Prepare {
                tool,
                name: given(1),
                command: if trimmed(values[2]).len() > 0 {
                    Some(values[2])
                } else {
                    app.world.presets.command(tool)
                },
                resume: given(3),
            })
            &&& after.waiting == app.waiting.push(Task::Prepared)
        }),
{
    reveal(AppModel::session_preparing);
    enter_submits(app, form, now);
    let presets = app.world.presets;
    assert(presets.label(AgentTool::Claude) == presets.label(tool) ==> tool == AgentTool::Claude);
    assert(presets.label(AgentTool::Codex) == presets.label(tool) ==> tool == AgentTool::Codex);
    assert(presets.label(AgentTool::Gemini) == presets.label(tool) ==> tool == AgentTool::Gemini);
    assert(presets.label(AgentTool::Copilot) == presets.label(tool) ==> tool
        == AgentTool::Copilot);
    assert(presets.label(AgentTool::Custom) == presets.label(tool) ==> tool == AgentTool::Custom);
}

/// An agent of a tool is added with that tool's own command; a tool without one
/// cannot be added so.
pub proof fn an_agent_is_added_with_its_tools_command(
    app: AppModel,
    form: FormOverlayModel,
    tool: AgentTool,
    now: Moment,
)
    requires
        fills_in(app, form),
        form.intent == FormIntent::AddConfiguredAgent(tool),
        form.form.values().len() > 0,
        trimmed(trimmed(form.form.values()[0])).len() > 0,
        app.catalog.current is Some,
        forall|i: int|
            0 <= i < app.roster.processes.len() ==> (#[trigger] app.roster.processes[i]).name@
                != trimmed(form.form.values()[0]),
    ensures
        ({
            let after = pressed(app, KeyCode::Enter, now);
            let command = app.world.presets.command(tool);
            &&& command is Some && trimmed(command->0).len() > 0 ==> appends(
                app,
                after,
                ProcessKind::Agent,
                trimmed(form.form.values()[0]),
                trimmed(command->0),
            )
            &&& app.world.presets.command(tool) is None ==> after.outbox == app.outbox
                && after.overlay == Some(
                OverlayModel::Form(
                    FormOverlayModel { error: Some(Message::CommandRequired), ..form },
                ),
            )
        }),
{
    enter_submits(app, form, now);
}

/// Typing in a path asks for the completions of what the path then says, and the
/// answer is what the field offers. A worker is asked under a new number, and only
/// the answer to that number counts.
pub proof fn completions_are_those_of_the_typed_path(
    app: AppModel,
    form: FormOverlayModel,
    label: Seq<char>,
    c: char,
    later: AppModel,
    found: Vec<String>,
    generation: CompletionGeneration,
    now: Moment,
)
    requires
        fills_in(app, form),
        form.form.active < form.form.fields.len(),
        form.form.fields[form.form.active as int] == (FieldModel::Path {
            label,
            input: form.form.fields[form.form.active as int]->Path_input,
            candidates: Seq::empty(),
            highlighted: 0,
        }),
        ({
            let input = form.form.fields[form.form.active as int]->Path_input;
            input.cursor == input.value.len()
        }),
        later.overlay == Some(OverlayModel::Form(form)),
    ensures
        ({
            let value = form.form.fields[form.form.active as int]->Path_input.value;
            let after = pressed(app, KeyCode::Char(c), now);
            let shown = form_of_overlay(after).form.fields[form.form.active as int];
            &&& after.overlay is Some && after.overlay->0 is Form
            &&& shown.value() == value.push(c)
            &&& app.completion == CompletionMode::Inline ==> after.outbox == app.outbox.push(
                EffectModel::Complete(value.push(c)),
            ) && after.waiting == app.waiting.push(Task::Completed)
            &&& app.completion matches CompletionMode::Worker(before) ==> {
                &&& after.outbox.len() == app.outbox.len() + 1
                &&& after.outbox.last() matches EffectModel::RequestCompletions {
                    generation,
                    partial,
                } && partial == value.push(c) && generation != before && after.completion
                    == CompletionMode::Worker(generation)
                &&& after.waiting == app.waiting
            }
            &&& later.waiting.len() > 0 && later.waiting[0] == Task::Completed ==> {
                let told = told(later, Reply::Completions(found), now);
                &&& told.overlay is Some && told.overlay->0 is Form
                &&& form_of_overlay(told).form.fields[form.form.active as int].candidates()
                    == texts(found@)
                &&& form_of_overlay(told).form.fields[form.form.active as int].value() == value
            }
            &&& later.completion == CompletionMode::Worker(generation) ==> {
                let told = later.handled(
                    crate::event::RuntimeEvent::Completions { generation, candidates: found },
                    now,
                );
                &&& told.overlay is Some && told.overlay->0 is Form
                &&& form_of_overlay(told).form.fields[form.form.active as int].candidates()
                    == texts(found@)
            }
        }),
{
    reveal(AppModel::handled);
    reveal(AppModel::input_handled);
    reveal(AppModel::key_handled);
    reveal(AppModel::form_key);
    reveal(AppModel::entry_answered);
    reveal(AppModel::completions_arrived);
    let active = form.form.active as int;
    let input = form.form.fields[active]->Path_input;
    assert(input.value.insert(input.value.len() as int, c) =~= input.value.push(c));
    assert(input.value.push(c).len() != input.value.len());
    if later.waiting.len() > 0 && later.waiting[0] == Task::Completed {
        answers_arrive(later, Task::Completed, Reply::Completions(found), now);
    }
}

/// The form that an application shows.
pub open spec fn form_of_overlay(app: AppModel) -> FormOverlayModel {
    app.overlay->0->Form_0
}

/// Escape leaves a form for the switcher that it was opened from, or for nothing,
/// and nothing is sent.
pub proof fn escape_leaves_a_form(app: AppModel, form: FormOverlayModel, now: Moment)
    requires
        app.overlay == Some(OverlayModel::Form(form)),
    ensures
        form.switcher matches Some(switcher) ==> pressed(app, KeyCode::Esc, now) == fresh(
            app,
        ).with_overlay(Some(OverlayModel::Switcher(switcher))),
        form.switcher is None ==> pressed(app, KeyCode::Esc, now) == fresh(app).with_overlay(None),
{
    reveal(AppModel::handled);
    reveal(AppModel::input_handled);
    reveal(AppModel::key_handled);
    reveal(AppModel::form_key);
    reveal(AppModel::overlay_closed);
}

/// `n` asks for the name and the folder of a new project, with the current folder
/// filled in; `s`, in the switcher, for the name to save the current project under.
pub proof fn projects_are_asked_for_by_form(app: AppModel, switcher: SwitcherModel, now: Moment)
    requires
        in_sidebar(app) || app.overlay == Some(OverlayModel::Switcher(switcher)),
    ensures
        ({
            let shown = pressed(app, KeyCode::Char('n'), now);
            let form = form_of_overlay(shown);
            let folder = app.world.folder@;
            &&& shown.overlay is Some && shown.overlay->0 is Form
            &&& shown.outbox == app.outbox
            &&& form.intent == FormIntent::NewProject
            &&& form.form == (FormModel {
                title: "New project"@,
                fields: seq![
                    FieldModel::Text {
                        label: "Name"@,
                        input: Line { value: Seq::empty(), cursor: 0 },
                    },
                    FieldModel::Path {
                        label: "Folder"@,
                        input: Line { value: folder, cursor: folder.len() },
                        candidates: Seq::empty(),
                        highlighted: 0,
                    },
                ],
                active: 0,
            })
            &&& app.overlay is Some ==> form.switcher == Some(switcher)
            &&& app.overlay is None ==> form.switcher is None
        }),
        app.overlay is Some ==> {
            let shown = pressed(app, KeyCode::Char('s'), now);
            let form = form_of_overlay(shown);
            &&& shown.overlay is Some && shown.overlay->0 is Form
            &&& shown.outbox == app.outbox
            &&& form.intent == FormIntent::SaveCurrentProject
            &&& form.switcher == Some(switcher)
            &&& form.form == (FormModel {
                title: "Save project"@,
                fields: seq![
                    FieldModel::Text {
                        label: "Name"@,
                        input: Line { value: Seq::empty(), cursor: 0 },
                    },
                ],
                active: 0,
            })
        },
        app.overlay is Some ==> {
            let shown = pressed(app, KeyCode::Char('a'), now);
            &&& shown.overlay is Some && shown.overlay->0 is Form
            &&& form_of_overlay(shown).intent == FormIntent::ChooseProcessKind
            &&& form_of_overlay(shown).switcher == Some(switcher)
        },
{
    reveal(AppModel::form_opened);
    if in_sidebar(app) {
        reveal(AppModel::sidebar_key);
        reveal(AppModel::common_shortcut);
        sidebar_presses(app, KeyCode::Char('n'), now);
    } else {
        reveal(AppModel::handled);
        reveal(AppModel::input_handled);
        reveal(AppModel::key_handled);
        reveal(AppModel::switcher_key);
    }
}

/// A project that cannot be registered, created or written is reported in the form,
/// and nothing more is asked.
pub proof fn a_failed_project_is_reported(
    later: AppModel,
    form: FormOverlayModel,
    project: Project,
    preimage: Vec<Project>,
    error: String,
    now: Moment,
)
    requires
        later.waiting.len() > 0,
        later.overlay == Some(OverlayModel::Form(form)),
    ensures
        ({
            let reports = |after: AppModel, message: Message| {
                &&& after.outbox == later.outbox
                &&& after.catalog == later.catalog
                &&& after.overlay == Some(
                    OverlayModel::Form(FormOverlayModel { error: Some(message), ..form }),
                )
            };
            let refused = told(later, Reply::Registered(Err(error)), now);
            let unmade = told(later, Reply::Created(Err(error)), now);
            &&& later.waiting[0] == Task::ScaffoldRegistered ==> reports(
                refused,
                Message::Outside(error),
            )
            &&& later.waiting[0] == Task::OverwriteRegistered ==> reports(
                refused,
                Message::Outside(error),
            )
            &&& later.waiting[0] == (Task::Scaffolded { project, preimage }) ==> reports(
                unmade,
                Message::WorkspaceSave,
            )
        }),
{
    reveal(AppModel::project_answered);
    reveal(AppModel::scaffold_registered);
    reveal(AppModel::overwrite_registered);
    reveal(AppModel::scaffold_answered);
    answers_arrive(later, later.waiting[0], Reply::Registered(Err(error)), now);
    answers_arrive(later, later.waiting[0], Reply::Created(Err(error)), now);
}

/// A project whose config was made by somebody else is adopted where that config can
/// be read, and given up, with its registration taken back, where it cannot.
pub proof fn a_forestalled_project_is_adopted_or_given_up(
    later: AppModel,
    form: FormOverlayModel,
    project: Project,
    preimage: Vec<Project>,
    config: WorkspaceConfig,
    error: String,
    now: Moment,
)
    requires
        later.waiting.len() > 0,
        later.waiting[0] == (Task::ScaffoldAdopted { project, preimage }),
        later.overlay == Some(OverlayModel::Form(form)),
    ensures
        ({
            let adopted = told(later, Reply::Opened { config: Ok(config), exists: true }, now);
            let dropped = told(later, Reply::Opened { config: Err(error), exists: true }, now);
            &&& lists_projects(later, adopted)
            &&& dropped.outbox == later.outbox.push(
                EffectModel::Plain(Effect::RollBack { project, preimage }),
            )
            &&& dropped.agenda == later.agenda.push(Task::RefreshProjects)
            &&& dropped.overlay == Some(
                OverlayModel::Form(
                    FormOverlayModel { error: Some(Message::Outside(error)), ..form },
                ),
            )
        }),
{
    reveal(AppModel::project_answered);
    reveal(AppModel::adoption_answered);
    let task = Task::ScaffoldAdopted { project, preimage };
    answers_arrive(later, task, Reply::Opened { config: Ok(config), exists: true }, now);
    answers_arrive(later, task, Reply::Opened { config: Err(error), exists: true }, now);
    finishing(AppModel { waiting: later.waiting.skip(1), ..later });
}

/// A new project whose config exists is not touched before it is confirmed.
pub proof fn an_existing_config_is_confirmed_first(
    later: AppModel,
    form: FormOverlayModel,
    name: String,
    place: Location,
    now: Moment,
)
    requires
        later.waiting.len() > 0,
        later.waiting[0] == Task::Located,
        later.overlay == Some(OverlayModel::Form(form)),
    ensures
        ({
            let after = told(later, Reply::Located { name, place, exists: true }, now);
            &&& after.outbox == later.outbox
            &&& after.overlay == Some(OverlayModel::ConfirmOverwrite { form, name, place })
        }),
{
    reveal(AppModel::project_answered);
    reveal(AppModel::project_located);
    answers_arrive(later, Task::Located, Reply::Located { name, place, exists: true }, now);
}

/// A pinned conversation becomes an agent of the current project: under the name
/// that was typed, with its own id, commands and directory. One that still runs, or
/// that was never captured, is not pinned.
pub proof fn a_pin_keeps_the_conversation(
    app: AppModel,
    form: FormOverlayModel,
    source: AgentSession,
    now: Moment,
)
    requires
        fills_in(app, form),
        form.intent == FormIntent::PinConversation(source),
        form.form.values().len() > 0,
        trimmed(trimmed(form.form.values()[0])).len() > 0,
        app.catalog.current is Some,
        app.world.has_store,
        forall|i: int|
            0 <= i < app.roster.processes.len() ==> (#[trigger] app.roster.processes[i]).name@
                != trimmed(form.form.values()[0]),
    ensures
        ({
            let after = pressed(app, KeyCode::Enter, now);
            let record = after.outbox.last()->Pin_0;
            let name = trimmed(form.form.values()[0]);
            &&& source.owned() ==> after.outbox == app.outbox && after.overlay == Some(
                OverlayModel::Form(
                    FormOverlayModel { error: Some(Message::PinSourceRunning), ..form },
                ),
            )
            &&& !source.owned() && source.native_id is None ==> after.outbox == app.outbox
                && after.feedback.notice == Some(Message::NotResumable)
            &&& !source.owned() && source.native_id is Some ==> {
                &&& after.outbox == app.outbox.push(EffectModel::Pin(record))
                &&& record.id == source.id@
                &&& record.name == name
                &&& record.configured_key == Some(name)
                &&& record.tool == source.inferred_tool
                &&& record.project == app.catalog.current->0
                &&& record.launch_command == source.launch_command@
                &&& record.resume_command == crate::text::opt_text(source.resume_command)
                &&& record.native_id == crate::text::opt_text(source.native_id)
                &&& record.state == crate::session::AgentSessionState::Closed
                &&& source.working_dir is None && source.project.folder is Some
                    ==> record.working_dir == Some(source.project.folder->0@)
                &&& source.working_dir is Some && crate::location::is_absolute(
                    source.working_dir->0@,
                ) ==> record.working_dir == Some(source.working_dir->0@)
                &&& after.waiting == app.waiting.push(Task::PinTransferred)
            }
        }),
{
    enter_submits(app, form, now);
}

/// Once the conversation is handed over, an agent of its name, its launch command
/// and its directory is appended to the current project.
pub proof fn a_handed_over_pin_is_appended(
    later: AppModel,
    seeded: AgentSession,
    displaced: Vec<AgentSession>,
    now: Moment,
)
    requires
        later.waiting.len() > 0,
        later.waiting[0] == Task::PinTransferred,
        later.catalog.current is Some,
    ensures
        ({
            let after = told(later, Reply::Pinned(Ok((seeded, displaced))), now);
            &&& after.outbox == later.outbox.push(
                EffectModel::Append {
                    place: later.catalog.current->0,
                    kind: ProcessKind::Agent,
                    spec: SpecModel {
                        name: seeded.name@,
                        command: Some(seeded.launch_command@),
                        working_dir: crate::text::opt_text(seeded.working_dir),
                        restart: None,
                        autostart: None,
                        stop: None,
                        agent_tool: None,
                    },
                },
            )
            &&& after.waiting == later.waiting.skip(1).push(
                Task::PinAppended { seeded, displaced },
            )
        }),
{
    reveal(AppModel::entry_answered);
    reveal(AppModel::pin_transferred);
    answers_arrive(
        later,
        Task::PinTransferred,
        Reply::Pinned(Ok((seeded, displaced))),
        now,
    );
}

/// An agent without a typed name is given one that no process has.
pub proof fn an_unnamed_agent_is_named(
    app: AppModel,
    form: FormOverlayModel,
    now: Moment,
)
    requires
        fills_in(app, form),
        form.intent == FormIntent::AddConfiguredProcess(ProcessKind::Agent),
        form.form.values().len() == 2,
        trimmed(form.form.values()[0]).len() == 0,
        trimmed(form.form.values()[1]).len() > 0,
        app.catalog.current is Some,
        app.roster.processes.len() < u64::MAX,
    ensures
        ({
            let after = pressed(app, KeyCode::Enter, now);
            let name = after.outbox.last()->Append_spec.name;
            &&& appends(app, after, ProcessKind::Agent, name, trimmed(form.form.values()[1]))
            &&& forall|i: int|
                0 <= i < app.roster.processes.len() ==> (#[trigger] app.roster.processes[i]).name@
                    != name
        }),
{
    enter_submits(app, form, now);
    crate::names::configured_names_are_unused(app.world.names, app.roster.processes);
}

/// The form of an agent session asks for the tool, with the picked one chosen, and
/// for a name, a command and a resume command, which may all be left blank.
pub proof fn a_session_form_asks_for_four_things(presets: crate::process::Presets, tool: AgentTool)
    ensures
        ({
            let form = crate::app::forms::agent_session_form(presets, tool);
            &&& form.title == "New agent session"@
            &&& form.active == 0
            &&& form.fields.len() == 4
            &&& form.fields[0].label() == "Tool"@
            &&& form.fields[1].label() == "Name (optional)"@
            &&& form.fields[2].label() == "Command override"@
            &&& form.fields[3].label() == "Resume command (optional)"@
            &&& form.values()[0] == presets.label(tool)
            &&& form.values()[1].len() == 0
            &&& form.values()[2].len() == 0
            &&& form.values()[3].len() == 0
        }),
        crate::app::forms::configured_process_form(ProcessKind::Agent).fields[0].label()
            == "Name (optional)"@,
{
    crate::app::forms::tools_stand_at_their_positions(presets, tool);
}

/// A pin that was written is shown like any appended agent; one that could not be
/// undone is reported.
pub proof fn a_written_pin_is_shown(
    later: AppModel,
    seeded: AgentSession,
    displaced: Vec<AgentSession>,
    config: WorkspaceConfig,
    spec: crate::config::ProcessSpec,
    occurrence: usize,
    error: String,
    now: Moment,
)
    requires
        later.waiting.len() > 0,
    ensures
        later.waiting[0] == (Task::PinAppended { seeded, displaced }) ==> {
            let done = told(later, Reply::Appended(Ok((config, spec, occurrence))), now);
            &&& done.overlay is None
            &&& done.outbox == later.outbox
            &&& done.agenda.len() > 0 && done.agenda.last() == Task::LinkAgents
            &&& done.roster == crate::reconcile::reconciled(
                later.roster,
                config@,
                crate::pane::alive_panes(later.panes),
                later.ledger.deleted,
            )
        },
        later.waiting[0] == Task::PinUndone && later.overlay is None ==> {
            let failed = told(later, Reply::Wrote(Err(error)), now);
            &&& failed.feedback.notice == Some(Message::SessionRollback(error))
            &&& failed.roster == later.roster
        },
{
    reveal(AppModel::entry_answered);
    reveal(AppModel::pin_append_answered);
    reveal(AppModel::pin_undone);
    answers_arrive(
        later,
        later.waiting[0],
        Reply::Appended(Ok((config, spec, occurrence))),
        now,
    );
    answers_arrive(later, later.waiting[0], Reply::Wrote(Err(error)), now);
}

/// A pin is in the config when one of its agents says what the pin says: its name,
/// its launch command and its directory, and nothing else.
pub proof fn a_pin_is_found_by_what_it_says(
    config: crate::config::Sections,
    seeded: AgentSession,
    i: int,
)
    requires
        0 <= i < config.agents.len(),
        config.agents[i].name@ == seeded.name@,
        config.agents[i].command == Some(seeded.launch_command),
        config.agents[i].working_dir == seeded.working_dir,
        config.agents[i].restart is None,
        config.agents[i].autostart is None,
        config.agents[i].stop is None,
    ensures
        crate::app::pinning::pin_committed(Ok(config), seeded),
{
    let id = crate::app::pinning::pinned_identity(seeded);
    let flags = crate::config::spec_flags(ProcessKind::Agent, config.agents, id);
    assert(config.agents[i].identity(ProcessKind::Agent) == id);
    assert(flags[i]);
    crate::laws::records::equal_entries_are_counted_in_order(flags, i);
    crate::config::nth_set_is_the_nth(
        flags,
        crate::config::count_set(flags.take(i)),
    );
}

} // verus!
