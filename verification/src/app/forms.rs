//! Forms: opening them, editing them, and what submitting them does.

use vstd::prelude::*;
use vstd::string::*;
use crate::app::projects::{can_name, is_name, sections_of};
use crate::app::{App, AppModel, CompletionMode};
use crate::config::{Sections, WorkspaceConfig};
use crate::effect::{Effect, EffectModel, Task};
use crate::form::{texts, Field, FieldModel, Form, FormModel, FormOutcome};
use crate::generation::{successor, CompletionGeneration};
use crate::input::{KeyCode, KeyEvent};
use crate::location::{copy_location, Location, Project};
use crate::message::{Message, KIND_AGENT, KIND_COMMAND, KIND_TERMINAL};
use crate::moment::Moment;
use crate::overlay::{
    behind, closed_overlay, form_in, form_of, with_form, FormIntent, FormOverlay, FormOverlayModel,
    Overlay, OverlayModel, Switcher, SwitcherModel,
};
use crate::process::{agent_tools, AgentTool, Presets, ProcessKind};
use crate::text::{is_blank, opt_text, same_opt_text, trim, trimmed};

verus! {

/// Title of the save-current-project form.
pub const SAVE_PROJECT_TITLE: &'static str = "Save project";

/// Title of the new-project form.
pub const NEW_PROJECT_TITLE: &'static str = "New project";

/// Label of a project-name field.
pub const NAME_FIELD: &'static str = "Name";

/// Label of a project-folder field.
pub const FOLDER_FIELD: &'static str = "Folder";

/// Title of the add-process form.
pub const ADD_PROCESS_TITLE: &'static str = "Add process";

/// Title of the advanced agent-session form.
pub const ADD_AGENT_TITLE: &'static str = "New agent session";

/// Label of a process-kind field.
pub const KIND_FIELD: &'static str = "Kind";

/// Label of an agent-tool field.
pub const TOOL_FIELD: &'static str = "Tool";

/// Label of an optional agent-session display name.
pub const SESSION_NAME_FIELD: &'static str = "Name (optional)";

/// Label of an optional preset command override.
pub const AGENT_COMMAND_FIELD: &'static str = "Command override";

/// Label of an optional custom provider resume command.
pub const AGENT_RESUME_FIELD: &'static str = "Resume command (optional)";

/// Label of a command field.
pub const COMMAND_FIELD: &'static str = "Command";

/// A form over fields, with the first active.
pub open spec fn form_over(title: Seq<char>, fields: Seq<FieldModel>) -> FormModel {
    FormModel { title, fields, active: 0 }
}

/// The labels of the providers.
pub open spec fn tool_labels(presets: Presets) -> Seq<Seq<char>> {
    agent_tools().map_values(|tool: AgentTool| presets.label(tool))
}

/// The position of a provider among the providers.
pub open spec fn tool_index(tool: AgentTool) -> usize {
    match tool {
        AgentTool::Claude => 0,
        AgentTool::Codex => 1,
        AgentTool::Gemini => 2,
        AgentTool::Copilot => 3,
        AgentTool::Custom => 4,
    }
}

/// The provider with a label.
pub open spec fn tool_labelled(presets: Presets, label: Seq<char>) -> Option<AgentTool> {
    if label == presets.label(AgentTool::Claude) {
        Some(AgentTool::Claude)
    } else if label == presets.label(AgentTool::Codex) {
        Some(AgentTool::Codex)
    } else if label == presets.label(AgentTool::Gemini) {
        Some(AgentTool::Gemini)
    } else if label == presets.label(AgentTool::Copilot) {
        Some(AgentTool::Copilot)
    } else if label == presets.label(AgentTool::Custom) {
        Some(AgentTool::Custom)
    } else {
        None
    }
}

/// Returns the provider with a label.
fn parse_tool(presets: &Presets, label: &String) -> (tool: Option<AgentTool>)
    ensures
        tool == tool_labelled(*presets, label@),
{
    if *label == presets.name(AgentTool::Claude) {
        Some(AgentTool::Claude)
    } else if *label == presets.name(AgentTool::Codex) {
        Some(AgentTool::Codex)
    } else if *label == presets.name(AgentTool::Gemini) {
        Some(AgentTool::Gemini)
    } else if *label == presets.name(AgentTool::Copilot) {
        Some(AgentTool::Copilot)
    } else if *label == presets.name(AgentTool::Custom) {
        Some(AgentTool::Custom)
    } else {
        None
    }
}

/// Returns the position of a provider among the providers.
fn index_of_tool(tool: AgentTool) -> (index: usize)
    ensures
        index == tool_index(tool),
{
    match tool {
        AgentTool::Claude => 0,
        AgentTool::Codex => 1,
        AgentTool::Gemini => 2,
        AgentTool::Copilot => 3,
        AgentTool::Custom => 4,
    }
}

/// The position of a provider is where its label stands.
pub proof fn tools_stand_at_their_positions(presets: Presets, tool: AgentTool)
    ensures
        agent_tools()[tool_index(tool) as int] == tool,
        tool_labels(presets)[tool_index(tool) as int] == presets.label(tool),
{
}

/// The form that names the current project.
pub open spec fn save_project_form() -> FormModel {
    form_over(SAVE_PROJECT_TITLE@, seq![FieldModel::text(NAME_FIELD@)])
}

/// The form that creates a project, with its folder filled in.
pub open spec fn new_project_form(folder: Seq<char>) -> FormModel {
    form_over(
        NEW_PROJECT_TITLE@,
        seq![FieldModel::text(NAME_FIELD@), FieldModel::path(FOLDER_FIELD@, folder)],
    )
}

/// The form that chooses a kind of process.
pub open spec fn add_process_form() -> FormModel {
    form_over(
        ADD_PROCESS_TITLE@,
        seq![
            FieldModel::choice(KIND_FIELD@, seq![KIND_AGENT@, KIND_TERMINAL@, KIND_COMMAND@]),
        ],
    )
}

/// The form that customizes a fresh agent session.
pub open spec fn agent_session_form(presets: Presets, tool: AgentTool) -> FormModel {
    form_over(
        ADD_AGENT_TITLE@,
        seq![
            FieldModel::Choice {
                label: TOOL_FIELD@,
                options: tool_labels(presets),
                selected: tool_index(tool),
            },
            FieldModel::text(SESSION_NAME_FIELD@),
            FieldModel::text(AGENT_COMMAND_FIELD@),
            FieldModel::text(AGENT_RESUME_FIELD@),
        ],
    )
}

/// The form that adds a process to the config. An agent's name is optional.
pub open spec fn configured_process_form(kind: ProcessKind) -> FormModel {
    form_over(
        ADD_PROCESS_TITLE@,
        seq![
            FieldModel::text(
                if kind == ProcessKind::Agent {
                    SESSION_NAME_FIELD@
                } else {
                    NAME_FIELD@
                },
            ),
            FieldModel::text(COMMAND_FIELD@),
        ],
    )
}

/// A text, unless it is blank.
pub open spec fn filled(text: Seq<char>) -> Option<Seq<char>> {
    if trimmed(text).len() == 0 {
        None
    } else {
        Some(text)
    }
}

/// Returns a text, unless it is blank.
fn filled_text(text: &String) -> (result: Option<String>)
    ensures
        opt_text(result) == filled(text@),
{
    if is_blank(&trim(text)) {
        None
    } else {
        Some(text.clone())
    }
}

impl AppModel {
    /// The application with a form open, and the switcher that it was opened
    /// from behind it.
    #[verifier::opaque]
    pub open spec fn form_opened(self, form: FormModel, intent: FormIntent) -> AppModel {
        let switcher = match self.overlay {
            Some(OverlayModel::Switcher(switcher)) => Some(switcher),
            Some(OverlayModel::Form(form)) => form.switcher,
            _ => None,
        };
        self.with_overlay(
            Some(OverlayModel::Form(FormOverlayModel { form, intent, error: None, switcher })),
        )
    }

    /// The application with its overlay closed and what was behind it shown.
    #[verifier::opaque]
    pub open spec fn overlay_closed(self) -> AppModel {
        self.with_overlay(behind(self.overlay))
    }

    /// The application with other candidates in its form's active field.
    pub open spec fn with_candidates(self, list: Seq<Seq<char>>) -> AppModel {
        match form_in(self.overlay) {
            Some(form) => self.with_overlay(
                with_form(
                    self.overlay,
                    FormOverlayModel { form: form.form.with_candidates(list), ..form },
                ),
            ),
            None => self,
        }
    }

    /// The application that looks for completions of its form's path field. With
    /// a worker, no stale suggestion shows until the matching reply arrives.
    pub open spec fn completions_refreshed(self) -> AppModel {
        match form_in(self.overlay) {
            None => self,
            Some(form) => match form.form.path_value() {
                None => self,
                Some(partial) => match self.completion {
                    CompletionMode::Inline => self.asked(
                        EffectModel::Complete(partial),
                        Task::Completed,
                    ),
                    CompletionMode::Worker(generation) => {
                        let next = CompletionGeneration { number: successor(generation.number) };
                        (AppModel {
                            completion: CompletionMode::Worker(next),
                            ..self
                        }).sent(
                            EffectModel::RequestCompletions { generation: next, partial },
                        ).with_candidates(Seq::empty())
                    },
                },
            },
        }
    }

    /// The application with completions from the worker, unless a later edit
    /// superseded them.
    #[verifier::opaque]
    pub open spec fn completions_arrived(
        self,
        generation: CompletionGeneration,
        list: Seq<Seq<char>>,
    ) -> AppModel {
        if self.completion == CompletionMode::Worker(generation) {
            self.with_candidates(list)
        } else {
            self
        }
    }

    /// The application after a key in its form.
    #[verifier::opaque]
    pub open spec fn form_key(self, code: KeyCode, now: Moment) -> AppModel {
        match form_in(self.overlay) {
            None => self,
            Some(form) => {
                let handled = form.form.handled(code);
                let after = self.with_overlay(
                    with_form(self.overlay, FormOverlayModel { form: handled, ..form }),
                );
                match form.form.outcome(code) {
                    FormOutcome::Continue => if handled.active != form.form.active
                        || handled.path_value() != form.form.path_value() {
                        after.completions_refreshed()
                    } else {
                        after
                    },
                    FormOutcome::Accepted => after,
                    FormOutcome::Cancel => after.overlay_closed(),
                    FormOutcome::Submit => after.form_submitted(now),
                }
            },
        }
    }

    /// The application that carries out what its form is for.
    pub open spec fn form_submitted(self, now: Moment) -> AppModel {
        match form_in(self.overlay) {
            None => self,
            Some(form) => {
                let values = form.form.values();
                match form.intent {
                    FormIntent::SaveCurrentProject => self.project_saving(values),
                    FormIntent::NewProject => self.project_creating(values),
                    FormIntent::ChooseProcessKind => self.kind_chosen(values),
                    FormIntent::LaunchAgentSession => self.session_launching(values),
                    FormIntent::AddConfiguredProcess(kind) => if values.len() >= 2 {
                        self.entry_added(kind, values[0], values[1], now)
                    } else {
                        self
                    },
                    FormIntent::AddConfiguredAgent(tool) => self.agent_adding(tool, values, now),
                    FormIntent::PinConversation(session) => self.conversation_pinning(
                        session,
                        if values.len() > 0 {
                            values[0]
                        } else {
                            Seq::empty()
                        },
                        now,
                    ),
                }
            },
        }
    }

    /// The application that adds an agent of a provider to the config.
    pub open spec fn agent_adding(
        self,
        tool: AgentTool,
        values: Seq<Seq<char>>,
        now: Moment,
    ) -> AppModel {
        if values.len() == 0 {
            self
        } else {
            match self.world.presets.command(tool) {
                Some(command) => self.entry_added(ProcessKind::Agent, values[0], command, now),
                None => self.complained(Message::CommandRequired, now),
            }
        }
    }

    /// The application that registers the current project under a typed name. A
    /// blank name leaves the form open.
    pub open spec fn project_saving(self, values: Seq<Seq<char>>) -> AppModel {
        match self.catalog.current {
            Some(place) => if values.len() > 0 && is_name(values[0]) {
                self.asked(
                    EffectModel::Register { name: trimmed(values[0]), place },
                    Task::SavedProject,
                )
            } else {
                self
            },
            None => self,
        }
    }

    /// The application that is done with a project's form.
    pub open spec fn project_done(self) -> AppModel {
        self.overlay_closed().projects_refreshed().switcher_refreshed()
    }

    /// The application that learned whether the current project was registered.
    #[verifier::opaque]
    pub open spec fn save_answered(
        self,
        result: Result<(Project, Vec<Project>), String>,
        now: Moment,
    ) -> AppModel {
        match result {
            Ok(_) => self.project_done(),
            Err(error) => self.complained(Message::Outside(error), now),
        }
    }

    /// The application that creates a project. A blank field leaves the form
    /// open.
    pub open spec fn project_creating(self, values: Seq<Seq<char>>) -> AppModel {
        if values.len() >= 2 && is_name(values[0]) && trimmed(values[1]).len() > 0 {
            self.asked(
                EffectModel::Locate { name: trimmed(values[0]), folder: trimmed(values[1]) },
                Task::Located,
            )
        } else {
            self
        }
    }

    /// The application that learned where a new project is: a folder that holds
    /// a config already is taken over only on confirmation.
    #[verifier::opaque]
    pub open spec fn project_located(self, name: String, place: Location, exists: bool) -> AppModel {
        if exists {
            self.overwrite_confirmation(name, place)
        } else {
            self.asked(EffectModel::Register { name: name@, place }, Task::ScaffoldRegistered)
        }
    }

    /// The application that asks before a config is overwritten. The form stays
    /// behind the question, so that a failure can be retried.
    pub open spec fn overwrite_confirmation(self, name: String, place: Location) -> AppModel {
        match self.overlay {
            Some(OverlayModel::Form(form)) => self.with_overlay(
                Some(OverlayModel::ConfirmOverwrite { form, name, place }),
            ),
            _ => self.with_overlay(None),
        }
    }

    /// The application that learned whether a project was registered, and gives
    /// it a starter config.
    #[verifier::opaque]
    pub open spec fn scaffold_registered(
        self,
        result: Result<(Project, Vec<Project>), String>,
        now: Moment,
    ) -> AppModel {
        match result {
            Ok(added) => self.asked(
                EffectModel::Plain(Effect::CreateWorkspace(added.0.config)),
                Task::Scaffolded { project: added.0, preimage: added.1 },
            ),
            Err(error) => self.complained(Message::Outside(error), now),
        }
    }

    /// The application that learned whether a starter config was written. One
    /// that another writer put there first is taken over if it reads.
    #[verifier::opaque]
    pub open spec fn scaffold_answered(
        self,
        project: Project,
        preimage: Vec<Project>,
        result: Result<bool, String>,
        now: Moment,
    ) -> AppModel {
        match result {
            Ok(true) => self.project_done(),
            Ok(false) => self.asked(
                EffectModel::Plain(Effect::OpenWorkspace(project.config)),
                Task::ScaffoldAdopted { project, preimage },
            ),
            Err(_) => self.complained(Message::WorkspaceSave, now),
        }
    }

    /// The application that learned whether a config that was there first
    /// reads. If not, the registration is taken back and what it replaced is put
    /// back.
    #[verifier::opaque]
    pub open spec fn adoption_answered(
        self,
        project: Project,
        preimage: Vec<Project>,
        config: Result<Sections, String>,
        now: Moment,
    ) -> AppModel {
        match config {
            Ok(_) => self.project_done(),
            Err(error) => self.told(Effect::RollBack { project, preimage }).later(
                Task::RefreshProjects,
            ).complained(Message::Outside(error), now),
        }
    }

    /// The application that overwrites a config after confirmation.
    #[verifier::opaque]
    pub open spec fn overwriting(
        self,
        form: FormOverlayModel,
        name: String,
        place: Location,
    ) -> AppModel {
        self.with_overlay(Some(OverlayModel::Form(form))).asked(
            EffectModel::Register { name: name@, place },
            Task::OverwriteRegistered,
        )
    }

    /// The application that learned whether the project of an overwritten config
    /// was registered, and writes the config.
    #[verifier::opaque]
    pub open spec fn overwrite_registered(
        self,
        result: Result<(Project, Vec<Project>), String>,
        now: Moment,
    ) -> AppModel {
        match result {
            Ok(added) => self.asked(
                EffectModel::Plain(Effect::SaveWorkspace(added.0.config)),
                Task::Overwritten,
            ),
            Err(error) => self.complained(Message::Outside(error), now),
        }
    }

    /// The application that learned whether a config was overwritten.
    #[verifier::opaque]
    pub open spec fn overwrite_answered(self, result: Result<(), String>, now: Moment) -> AppModel {
        match result {
            Ok(_) => self.project_done(),
            Err(_) => self.complained(Message::WorkspaceSave, now),
        }
    }

    /// The application at the next step for the chosen kind of process.
    pub open spec fn kind_chosen(self, values: Seq<Seq<char>>) -> AppModel {
        if values.len() == 0 {
            self
        } else if values[0] == KIND_AGENT@ {
            self.picker_shown()
        } else if values[0] == KIND_TERMINAL@ {
            self.form_opened(
                configured_process_form(ProcessKind::Terminal),
                FormIntent::AddConfiguredProcess(ProcessKind::Terminal),
            )
        } else if values[0] == KIND_COMMAND@ {
            self.form_opened(
                configured_process_form(ProcessKind::Command),
                FormIntent::AddConfiguredProcess(ProcessKind::Command),
            )
        } else {
            self
        }
    }

    /// The application that launches a session as its form describes it.
    pub open spec fn session_launching(self, values: Seq<Seq<char>>) -> AppModel {
        if values.len() < 3 {
            self
        } else {
            match tool_labelled(self.world.presets, values[0]) {
                None => self,
                Some(tool) => self.session_preparing(
                    tool,
                    filled(values[1]),
                    filled(values[2]),
                    if values.len() > 3 {
                        filled(values[3])
                    } else {
                        None
                    },
                ),
            }
        }
    }
}

impl App {
    /// Closes the active overlay and restores its retained background.
    pub fn close_overlay(&mut self)
        ensures
            final(self)@ == old(self)@.overlay_closed(),
    {
        proof {
            reveal(AppModel::overlay_closed);
        }
        let current: Option<Overlay> = self.overlay.take();
        self.overlay = closed_overlay(current);
    }

    /// Opens a form with an intent, retaining an open switcher for cancellation.
    pub fn open_form(&mut self, form: Form, intent: FormIntent)
        ensures
            final(self)@ == old(self)@.form_opened(form@, intent),
    {
        proof {
            reveal(AppModel::form_opened);
        }
        let switcher: Option<Switcher> = match self.overlay.take() {
            Some(Overlay::Switcher(switcher)) => Some(switcher),
            Some(Overlay::Form(form)) => form.switcher,
            _ => None,
        };
        self.overlay = Some(Overlay::Form(FormOverlay { form, intent, error: None, switcher }));
    }

    /// Opens the save-current-project form.
    pub fn open_save_project_form(&mut self)
        ensures
            final(self)@ == old(self)@.form_opened(
                save_project_form(),
                FormIntent::SaveCurrentProject,
            ),
    {
        proof {
            reveal(AppModel::form_opened);
        }
        let fields: Vec<Field> = vec![Field::text(NAME_FIELD)];
        let form: Form = Form::new(SAVE_PROJECT_TITLE, fields);
        assert(form@ =~= save_project_form());
        self.open_form(form, FormIntent::SaveCurrentProject);
    }

    /// Opens the new-project form: a name, and a folder prefilled with the
    /// current directory so that the common case is just typing a name.
    pub fn open_new_project_form(&mut self)
        ensures
            final(self)@ == old(self)@.form_opened(
                new_project_form(old(self)@.world.folder@),
                FormIntent::NewProject,
            ),
    {
        proof {
            reveal(AppModel::form_opened);
        }
        let fields: Vec<Field> = vec![
            Field::text(NAME_FIELD),
            Field::path(FOLDER_FIELD, self.world.folder.as_str()),
        ];
        let form: Form = Form::new(NEW_PROJECT_TITLE, fields);
        assert(form@ =~= new_project_form(self@.world.folder@));
        self.open_form(form, FormIntent::NewProject);
    }

    /// Opens the first add-process step, where the process kind is selected.
    pub fn open_add_process_form(&mut self)
        ensures
            final(self)@ == old(self)@.form_opened(
                add_process_form(),
                FormIntent::ChooseProcessKind,
            ),
    {
        proof {
            reveal(AppModel::form_opened);
        }
        let options: Vec<String> = vec![
            KIND_AGENT.to_string(),
            KIND_TERMINAL.to_string(),
            KIND_COMMAND.to_string(),
        ];
        assert(texts(options@) =~= seq![KIND_AGENT@, KIND_TERMINAL@, KIND_COMMAND@]);
        let fields: Vec<Field> = vec![Field::choice(KIND_FIELD, options)];
        let form: Form = Form::new(ADD_PROCESS_TITLE, fields);
        assert(form@ =~= add_process_form());
        self.open_form(form, FormIntent::ChooseProcessKind);
    }

    /// Opens advanced customization for a fresh agent provider.
    pub fn open_agent_session_form(&mut self, tool: AgentTool)
        ensures
            final(self)@ == old(self)@.form_opened(
                agent_session_form(old(self)@.world.presets, tool),
                FormIntent::LaunchAgentSession,
            ),
    {
        proof {
            reveal(AppModel::form_opened);
        }
        let options: Vec<String> = vec![
            self.world.presets.name(AgentTool::Claude),
            self.world.presets.name(AgentTool::Codex),
            self.world.presets.name(AgentTool::Gemini),
            self.world.presets.name(AgentTool::Copilot),
            self.world.presets.name(AgentTool::Custom),
        ];
        assert(texts(options@) =~= tool_labels(self.world.presets));
        let fields: Vec<Field> = vec![
            Field::Choice {
                label: TOOL_FIELD.to_string(),
                options,
                selected: index_of_tool(tool),
            },
            Field::text(SESSION_NAME_FIELD),
            Field::text(AGENT_COMMAND_FIELD),
            Field::text(AGENT_RESUME_FIELD),
        ];
        let form: Form = Form::new(ADD_AGENT_TITLE, fields);
        assert(form@ =~= agent_session_form(self.world.presets, tool));
        self.open_form(form, FormIntent::LaunchAgentSession);
    }

    /// Opens the persistent agent, terminal, or command form.
    pub fn open_configured_process_form(&mut self, kind: ProcessKind)
        ensures
            final(self)@ == old(self)@.form_opened(
                configured_process_form(kind),
                FormIntent::AddConfiguredProcess(kind),
            ),
    {
        proof {
            reveal(AppModel::form_opened);
        }
        let name_field: &'static str = if kind == ProcessKind::Agent {
            SESSION_NAME_FIELD
        } else {
            NAME_FIELD
        };
        let fields: Vec<Field> = vec![Field::text(name_field), Field::text(COMMAND_FIELD)];
        let form: Form = Form::new(ADD_PROCESS_TITLE, fields);
        assert(form@ =~= configured_process_form(kind));
        self.open_form(form, FormIntent::AddConfiguredProcess(kind));
    }

    /// Replaces the candidates of the open form's active path field.
    pub fn set_candidates(&mut self, list: Vec<String>)
        ensures
            final(self)@ == old(self)@.with_candidates(texts(list@)),
    {
        match &mut self.overlay {
            Some(Overlay::Form(form)) => form.form.set_active_candidates(list),
            Some(Overlay::ConfirmOverwrite { form, .. }) => form.form.set_active_candidates(list),
            _ => {},
        }
    }

    /// Recomputes the active path field's autocomplete candidates.
    pub fn refresh_completions(&mut self)
        ensures
            final(self)@ == old(self)@.completions_refreshed(),
    {
        let partial: String = match form_of(&self.overlay) {
            Some(form) => match form.form.active_path_value() {
                Some(partial) => partial,
                None => return,
            },
            None => return,
        };
        match self.completion {
            CompletionMode::Inline => self.ask(Effect::Complete(partial), Task::Completed),
            CompletionMode::Worker(generation) => {
                let next: CompletionGeneration = generation.next();
                self.completion = CompletionMode::Worker(next);
                self.send(Effect::RequestCompletions { generation: next, partial });
                let none: Vec<String> = Vec::new();
                assert(texts(none@) =~= Seq::<Seq<char>>::empty());
                self.set_candidates(none);
            },
        }
    }

    /// Applies worker-computed completions, ignoring any that a later edit has
    /// already superseded.
    pub fn handle_completions(&mut self, generation: CompletionGeneration, candidates: Vec<String>)
        ensures
            final(self)@ == old(self)@.completions_arrived(generation, texts(candidates@)),
    {
        proof {
            reveal(AppModel::completions_arrived);
        }
        if let CompletionMode::Worker(current) = self.completion {
            if current == generation {
                self.set_candidates(candidates);
            }
        }
    }

    /// Moves directory completion to a background worker.
    pub fn use_completion_worker(&mut self)
        ensures
            final(self)@ == (AppModel {
                completion: match old(self)@.completion {
                    CompletionMode::Inline => CompletionMode::Worker(
                        CompletionGeneration { number: 0 },
                    ),
                    worker => worker,
                },
                ..old(self)@
            }),
    {
        if let CompletionMode::Inline = self.completion {
            self.completion = CompletionMode::Worker(CompletionGeneration::initial());
        }
    }

    /// Passes a key to the open form.
    fn edit_form(&mut self, key: KeyEvent) -> (outcome: Option<FormOutcome>)
        ensures
            match form_in(old(self)@.overlay) {
                Some(form) => outcome == Some(form.form.outcome(key.code)) && final(self)@
                    == old(self)@.with_overlay(
                    with_form(
                        old(self)@.overlay,
                        FormOverlayModel { form: form.form.handled(key.code), ..form },
                    ),
                ),
                None => outcome is None && final(self)@ == old(self)@,
            },
    {
        match &mut self.overlay {
            Some(Overlay::Form(form)) => Some(form.form.handle(key)),
            Some(Overlay::ConfirmOverwrite { form, .. }) => Some(form.form.handle(key)),
            _ => None,
        }
    }

    /// Returns the active field of the open form and its path value.
    fn completion_point(&self) -> (point: Option<(usize, Option<String>)>)
        ensures
            match form_in(self@.overlay) {
                Some(form) => point matches Some(point) && point.0 == form.form.active && opt_text(
                    point.1,
                ) == form.form.path_value(),
                None => point is None,
            },
    {
        match form_of(&self.overlay) {
            Some(form) => Some((form.form.active(), form.form.active_path_value())),
            None => None,
        }
    }

    /// Handles a key while a form is open: edit, submit, or cancel.
    pub fn handle_form_key(&mut self, key: KeyEvent, now: Moment)
        ensures
            final(self)@ == old(self)@.form_key(key.code, now),
    {
        proof {
            reveal(AppModel::form_key);
        }
        let before: (usize, Option<String>) = match self.completion_point() {
            Some(point) => point,
            None => return,
        };
        let outcome: FormOutcome = match self.edit_form(key) {
            Some(outcome) => outcome,
            None => return,
        };
        match outcome {
            FormOutcome::Continue => {
                if let Some(after) = self.completion_point() {
                    if after.0 != before.0 || !same_opt_text(&after.1, &before.1) {
                        self.refresh_completions();
                    }
                }
            },
            FormOutcome::Accepted => {},
            FormOutcome::Cancel => self.close_overlay(),
            FormOutcome::Submit => self.submit_form(now),
        }
    }

    /// Executes the open form's intent with its collected values.
    pub fn submit_form(&mut self, now: Moment)
        ensures
            final(self)@ == old(self)@.form_submitted(now),
    {
        let (values, intent): (Vec<String>, FormIntent) = match form_of(&self.overlay) {
            Some(form) => (form.form.values(), form.intent.copied()),
            None => return,
        };
        let ghost given = texts(values@);
        assert(given.len() == values@.len());
        assert(forall|i: int| 0 <= i < values@.len() ==> given[i] == (#[trigger] values@[i])@);
        match intent {
            FormIntent::SaveCurrentProject => self.save_current_project(&values),
            FormIntent::NewProject => self.new_project(&values),
            FormIntent::ChooseProcessKind => self.choose_process_kind(&values),
            FormIntent::LaunchAgentSession => self.launch_agent_session(&values),
            FormIntent::AddConfiguredProcess(kind) => {
                if values.len() >= 2 {
                    self.add_configured_process(kind, &values[0], &values[1], now);
                }
            },
            FormIntent::AddConfiguredAgent(tool) => self.add_configured_agent(tool, &values, now),
            FormIntent::PinConversation(session) => {
                if values.len() > 0 {
                    self.pin_conversation(&session, &values[0], now);
                } else {
                    let none: String = String::new();
                    assert(none@ =~= Seq::<char>::empty());
                    self.pin_conversation(&session, &none, now);
                }
            },
        }
    }

    /// Persists a configured agent for a chosen provider preset.
    pub fn add_configured_agent(&mut self, tool: AgentTool, values: &Vec<String>, now: Moment)
        ensures
            final(self)@ == old(self)@.agent_adding(tool, texts(values@), now),
    {
        assert(texts(values@).len() == values@.len());
        if values.len() == 0 {
            return;
        }
        match self.world.presets.default_command(tool) {
            Some(command) => self.add_configured_process(
                ProcessKind::Agent,
                &values[0],
                &command,
                now,
            ),
            None => self.report_error(Message::CommandRequired, now),
        }
    }

    /// Registers the current workspace under the typed name.
    pub fn save_current_project(&mut self, values: &Vec<String>)
        ensures
            final(self)@ == old(self)@.project_saving(texts(values@)),
    {
        assert(texts(values@).len() == values@.len());
        if values.len() == 0 || !can_name(&values[0]) {
            return;
        }
        if let Some(place) = copy_location(&self.catalog.current) {
            self.ask(Effect::Register { name: trim(&values[0]), place }, Task::SavedProject);
        }
    }

    /// Closes a project's form and reloads what shows projects.
    fn finish_project(&mut self)
        ensures
            final(self)@ == old(self)@.project_done(),
    {
        self.close_overlay();
        self.refresh_projects();
        self.refresh_switcher();
    }

    /// Goes on after the current project was registered, or was not.
    pub fn handle_saved_project(&mut self, result: Result<(Project, Vec<Project>), String>, now: Moment)
        ensures
            final(self)@ == old(self)@.save_answered(result, now),
    {
        proof {
            reveal(AppModel::save_answered);
        }
        match result {
            Ok(_) => self.finish_project(),
            Err(error) => self.report_error(Message::Outside(error), now),
        }
    }

    /// Creates a new project: first asks where it is.
    pub fn new_project(&mut self, values: &Vec<String>)
        ensures
            final(self)@ == old(self)@.project_creating(texts(values@)),
    {
        assert(texts(values@).len() == values@.len());
        if values.len() < 2 || !can_name(&values[0]) {
            return;
        }
        let folder: String = trim(&values[1]);
        if is_blank(&folder) {
            return;
        }
        self.ask(Effect::Locate { name: trim(&values[0]), folder }, Task::Located);
    }

    /// Goes on with the place of a new project, asking first if it holds a
    /// config already.
    pub fn handle_located(&mut self, name: String, place: Location, exists: bool)
        ensures
            final(self)@ == old(self)@.project_located(name, place, exists),
    {
        proof {
            reveal(AppModel::project_located);
        }
        if exists {
            self.confirm_overwrite(name, place);
        } else {
            self.ask(Effect::Register { name, place }, Task::ScaffoldRegistered);
        }
    }

    /// Opens a confirmation over the form before overwriting an existing config.
    fn confirm_overwrite(&mut self, name: String, place: Location)
        ensures
            final(self)@ == old(self)@.overwrite_confirmation(name, place),
    {
        match self.overlay.take() {
            Some(Overlay::Form(form)) => {
                self.overlay = Some(Overlay::ConfirmOverwrite { form, name, place });
            },
            _ => {},
        }
    }

    /// Goes on after a project was registered, or was not: gives it a starter
    /// config.
    pub fn handle_scaffold_registered(&mut self, result: Result<(Project, Vec<Project>), String>, now: Moment)
        ensures
            final(self)@ == old(self)@.scaffold_registered(result, now),
    {
        proof {
            reveal(AppModel::scaffold_registered);
        }
        match result {
            Ok((project, preimage)) => {
                let place: Location = project.config.copied();
                self.ask(Effect::CreateWorkspace(place), Task::Scaffolded { project, preimage });
            },
            Err(error) => self.report_error(Message::Outside(error), now),
        }
    }

    /// Goes on after a starter config was written, or was not.
    pub fn handle_scaffolded(
        &mut self,
        project: Project,
        preimage: Vec<Project>,
        result: Result<bool, String>,
        now: Moment,
    )
        ensures
            final(self)@ == old(self)@.scaffold_answered(project, preimage, result, now),
    {
        proof {
            reveal(AppModel::scaffold_answered);
        }
        match result {
            Ok(written) => {
                if written {
                    self.finish_project();
                } else {
                    let place: Location = project.config.copied();
                    self.ask(
                        Effect::OpenWorkspace(place),
                        Task::ScaffoldAdopted { project, preimage },
                    );
                }
            },
            Err(_) => self.report_error(Message::WorkspaceSave, now),
        }
    }

    /// Goes on with a config that another writer put there first.
    pub fn handle_scaffold_adopted(
        &mut self,
        project: Project,
        preimage: Vec<Project>,
        config: Result<WorkspaceConfig, String>,
        now: Moment,
    )
        ensures
            final(self)@ == old(self)@.adoption_answered(
                project,
                preimage,
                sections_of(config),
                now,
            ),
    {
        proof {
            reveal(AppModel::adoption_answered);
        }
        match config {
            Ok(_) => self.finish_project(),
            Err(error) => {
                self.send(Effect::RollBack { project, preimage });
                self.defer(Task::RefreshProjects);
                self.report_error(Message::Outside(error), now);
            },
        }
    }

    /// Goes on after the project of an overwritten config was registered, or
    /// was not.
    pub fn handle_overwrite_registered(
        &mut self,
        result: Result<(Project, Vec<Project>), String>,
        now: Moment,
    )
        ensures
            final(self)@ == old(self)@.overwrite_registered(result, now),
    {
        proof {
            reveal(AppModel::overwrite_registered);
        }
        match result {
            Ok((project, _)) => self.ask(Effect::SaveWorkspace(project.config), Task::Overwritten),
            Err(error) => self.report_error(Message::Outside(error), now),
        }
    }

    /// Goes on after a config was overwritten, or was not.
    pub fn handle_overwritten(&mut self, result: Result<(), String>, now: Moment)
        ensures
            final(self)@ == old(self)@.overwrite_answered(result, now),
    {
        proof {
            reveal(AppModel::overwrite_answered);
        }
        match result {
            Ok(_) => self.finish_project(),
            Err(_) => self.report_error(Message::WorkspaceSave, now),
        }
    }

    /// Advances the add flow to the selected kind's next step.
    pub fn choose_process_kind(&mut self, values: &Vec<String>)
        ensures
            final(self)@ == old(self)@.kind_chosen(texts(values@)),
    {
        assert(texts(values@).len() == values@.len());
        if values.len() == 0 {
            return;
        }
        if values[0] == KIND_AGENT.to_string() {
            self.open_agent_picker();
        } else if values[0] == KIND_TERMINAL.to_string() {
            self.open_configured_process_form(ProcessKind::Terminal);
        } else if values[0] == KIND_COMMAND.to_string() {
            self.open_configured_process_form(ProcessKind::Command);
        }
    }

    /// Launches a durable coding-agent session without modifying the config.
    pub fn launch_agent_session(&mut self, values: &Vec<String>)
        ensures
            final(self)@ == old(self)@.session_launching(texts(values@)),
    {
        assert(texts(values@).len() == values@.len());
        if values.len() < 3 {
            return;
        }
        let tool: AgentTool = match parse_tool(&self.world.presets, &values[0]) {
            Some(tool) => tool,
            None => return,
        };
        let name: Option<String> = filled_text(&values[1]);
        let command: Option<String> = filled_text(&values[2]);
        let resume: Option<String> = if values.len() > 3 {
            filled_text(&values[3])
        } else {
            None
        };
        self.create_agent_session(tool, name, command, resume);
    }
}

/// Cancelling a form that was opened over the switcher shows that switcher
/// again, unchanged.
pub proof fn a_cancelled_form_returns_to_the_switcher(
    app: AppModel,
    switcher: SwitcherModel,
    form: FormModel,
    intent: FormIntent,
)
    requires
        app.overlay == Some(OverlayModel::Switcher(switcher)),
    ensures
        app.form_opened(form, intent).overlay_closed() == app,
{
    reveal(AppModel::form_opened);
    reveal(AppModel::overlay_closed);
    assert(app.form_opened(form, intent).overlay_closed() =~= app);
}

/// Completions that a later edit superseded change nothing.
pub proof fn superseded_completions_change_nothing(
    app: AppModel,
    generation: CompletionGeneration,
    list: Seq<Seq<char>>,
)
    requires
        app.completion == CompletionMode::Worker(generation),
        form_in(app.overlay) matches Some(form) && form.form.path_value() is Some,
    ensures
        ({
            let edited = app.completions_refreshed();
            edited.completions_arrived(generation, list) == edited
        }),
{
    reveal(AppModel::completions_arrived);
    crate::generation::successor_is_fresh_and_injective(generation.number, generation.number);
}

/// A config that exists already is not touched by creating a project: the host
/// is asked for nothing before the user confirms.
pub proof fn an_existing_config_is_not_touched_unasked(
    app: AppModel,
    name: String,
    place: Location,
)
    ensures
        app.project_located(name, place, true) == app.with_overlay(
            app.project_located(name, place, true).overlay,
        ),
        app.overlay matches Some(OverlayModel::Form(form)) ==> app.project_located(
            name,
            place,
            true,
        ).overlay == Some(OverlayModel::ConfirmOverwrite { form, name, place }),
{
    reveal(AppModel::project_located);
}

/// A registration that is taken back puts back exactly the entries that it
/// replaced: they are kept from the answer to the registration, through the
/// starter config that another writer forestalled, until that config does not
/// read.
pub proof fn a_rollback_returns_what_was_replaced(
    registered: AppModel,
    forestalled: AppModel,
    checked: AppModel,
    project: Project,
    preimage: Vec<Project>,
    error: String,
    now: Moment,
)
    ensures
        registered.scaffold_registered(Ok((project, preimage)), now).waiting
            == registered.waiting.push(Task::Scaffolded { project, preimage }),
        forestalled.scaffold_answered(project, preimage, Ok(false), now).waiting
            == forestalled.waiting.push(Task::ScaffoldAdopted { project, preimage }),
        checked.adoption_answered(project, preimage, Err(error), now).outbox == checked.outbox.push(
            EffectModel::Plain(Effect::RollBack { project, preimage }),
        ),
{
    reveal(AppModel::scaffold_registered);
    reveal(AppModel::scaffold_answered);
    reveal(AppModel::adoption_answered);
}

} // verus!
