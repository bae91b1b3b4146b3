//! Modal states of the user interface.

use vstd::prelude::*;
use crate::config::ProcessSpecMatcher;
use crate::form::{Form, FormModel};
use crate::location::{Location, Project};
use crate::message::{Message, Prompt};
use crate::process::{AgentTool, PaneId, ProcessKind};
use crate::session::AgentSession;

verus! {

/// Open state of the project-switcher overlay: the loaded project list, the
/// highlighted row, and any switch failure to surface.
#[derive(Debug)]
pub struct Switcher {
    /// Projects.
    pub projects: Vec<Project>,
    /// Highlighted row.
    pub selected: usize,
    /// Row of the active project.
    pub current: Option<usize>,
    /// Failure to surface.
    pub error: Option<Message>,
    /// The highlighted project's processes.
    pub preview: Vec<(ProcessKind, String)>,
}

/// What a switcher holds.
#[verifier::ext_equal]
pub struct SwitcherModel {
    /// Projects.
    pub projects: Seq<Project>,
    /// Highlighted row.
    pub selected: usize,
    /// Row of the active project.
    pub current: Option<usize>,
    /// Failure to surface.
    pub error: Option<Message>,
    /// The highlighted project's processes.
    pub preview: Seq<(ProcessKind, String)>,
}

impl View for Switcher {
    type V = SwitcherModel;

    open spec fn view(&self) -> SwitcherModel {
        SwitcherModel {
            projects: self.projects@,
            selected: self.selected,
            current: self.current,
            error: self.error,
            preview: self.preview@,
        }
    }
}

/// One row of the agent picker.
#[derive(Debug)]
pub enum AgentPickerItem {
    /// A conversation to reopen.
    Recent(AgentSession),
    /// A provider to start afresh.
    New(AgentTool),
}

/// Open state of the quick agent launcher.
#[derive(Debug)]
pub struct AgentPicker {
    /// Rows.
    pub items: Vec<AgentPickerItem>,
    /// Highlighted row.
    pub selected: usize,
    /// Failure to surface.
    pub error: Option<Message>,
}

/// What a picker holds.
#[verifier::ext_equal]
pub struct PickerModel {
    /// Rows.
    pub items: Seq<AgentPickerItem>,
    /// Highlighted row.
    pub selected: usize,
    /// Failure to surface.
    pub error: Option<Message>,
}

impl View for AgentPicker {
    type V = PickerModel;

    open spec fn view(&self) -> PickerModel {
        PickerModel { items: self.items@, selected: self.selected, error: self.error }
    }
}

/// What a submitted form should do.
#[derive(Debug)]
pub enum FormIntent {
    /// Register the current workspace under the typed name.
    SaveCurrentProject,
    /// Create a new project.
    NewProject,
    /// Choose which kind of process to add.
    ChooseProcessKind,
    /// Launch a runtime-managed coding-agent session.
    LaunchAgentSession,
    /// Persist a process in the current workspace.
    AddConfiguredProcess(ProcessKind),
    /// Persist an agent of a provider in the current workspace.
    AddConfiguredAgent(AgentTool),
    /// Pin a conversation as an agent of the current workspace.
    PinConversation(AgentSession),
}

impl FormIntent {
    /// Returns a copy of the intent.
    pub fn copied(&self) -> (copy: FormIntent)
        ensures
            copy == *self,
    {
        match self {
            FormIntent::SaveCurrentProject => FormIntent::SaveCurrentProject,
            FormIntent::NewProject => FormIntent::NewProject,
            FormIntent::ChooseProcessKind => FormIntent::ChooseProcessKind,
            FormIntent::LaunchAgentSession => FormIntent::LaunchAgentSession,
            FormIntent::AddConfiguredProcess(kind) => FormIntent::AddConfiguredProcess(*kind),
            FormIntent::AddConfiguredAgent(tool) => FormIntent::AddConfiguredAgent(*tool),
            FormIntent::PinConversation(session) => FormIntent::PinConversation(session.copied()),
        }
    }
}

/// An input form, what its values do on submit, and the switcher it should
/// reveal when closed.
#[derive(Debug)]
pub struct FormOverlay {
    /// Form.
    pub form: Form,
    /// What it does on submit.
    pub intent: FormIntent,
    /// Failure to surface.
    pub error: Option<Message>,
    /// Switcher behind it.
    pub switcher: Option<Switcher>,
}

/// What an optional switcher holds.
pub open spec fn switcher_model(switcher: Option<Switcher>) -> Option<SwitcherModel> {
    match switcher {
        Some(switcher) => Some(switcher@),
        None => None,
    }
}

/// What a form overlay holds.
#[verifier::ext_equal]
pub struct FormOverlayModel {
    /// Form.
    pub form: FormModel,
    /// What it does on submit.
    pub intent: FormIntent,
    /// Failure to surface.
    pub error: Option<Message>,
    /// Switcher behind it.
    pub switcher: Option<SwitcherModel>,
}

impl View for FormOverlay {
    type V = FormOverlayModel;

    open spec fn view(&self) -> FormOverlayModel {
        FormOverlayModel {
            form: self.form@,
            intent: self.intent,
            error: self.error,
            switcher: switcher_model(self.switcher),
        }
    }
}

/// The one legal modal state. Variants retain only the exact background required
/// by their cancel and failure transitions.
#[derive(Debug)]
pub enum Overlay {
    /// The project switcher.
    Switcher(Switcher),
    /// The agent launcher.
    AgentPicker(AgentPicker),
    /// A form.
    Form(FormOverlay),
    /// Asks before a folder that holds a config already is taken over.
    ConfirmOverwrite {
        /// The form behind it.
        form: FormOverlay,
        /// Name of the project.
        name: String,
        /// Config.
        place: Location,
    },
    /// Asks before a project is removed from the registry.
    ConfirmRemoval {
        /// Question.
        prompt: Prompt,
        /// Config.
        place: Location,
    },
    /// Asks before an agent session is closed.
    ConfirmSessionClose {
        /// Question.
        prompt: Prompt,
        /// Pane.
        pane: PaneId,
    },
    /// Asks before a process is deleted from the config.
    ConfirmProcessRemoval {
        /// Question.
        prompt: Prompt,
        /// Identity of its entry.
        target: ProcessSpecMatcher,
        /// Which of the entries with that identity.
        occurrence: usize,
        /// Config.
        place: Location,
    },
    /// The keymap.
    Help,
}

/// What an overlay holds.
#[verifier::ext_equal]
pub enum OverlayModel {
    /// The project switcher.
    Switcher(SwitcherModel),
    /// The agent launcher.
    AgentPicker(PickerModel),
    /// A form.
    Form(FormOverlayModel),
    /// Asks before a folder is taken over.
    ConfirmOverwrite {
        /// The form behind it.
        form: FormOverlayModel,
        /// Name of the project.
        name: String,
        /// Config.
        place: Location,
    },
    /// Asks before a project is removed.
    ConfirmRemoval {
        /// Question.
        prompt: Prompt,
        /// Config.
        place: Location,
    },
    /// Asks before an agent session is closed.
    ConfirmSessionClose {
        /// Question.
        prompt: Prompt,
        /// Pane.
        pane: PaneId,
    },
    /// Asks before a process is deleted from the config.
    ConfirmProcessRemoval {
        /// Question.
        prompt: Prompt,
        /// Identity of its entry.
        target: ProcessSpecMatcher,
        /// Which of the entries with that identity.
        occurrence: usize,
        /// Config.
        place: Location,
    },
    /// The keymap.
    Help,
}

impl View for Overlay {
    type V = OverlayModel;

    open spec fn view(&self) -> OverlayModel {
        match *self {
            Overlay::Switcher(switcher) => OverlayModel::Switcher(switcher@),
            Overlay::AgentPicker(picker) => OverlayModel::AgentPicker(picker@),
            Overlay::Form(form) => OverlayModel::Form(form@),
            Overlay::ConfirmOverwrite { form, name, place } => OverlayModel::ConfirmOverwrite {
                form: form@,
                name,
                place,
            },
            Overlay::ConfirmRemoval { prompt, place } => OverlayModel::ConfirmRemoval {
                prompt,
                place,
            },
            Overlay::ConfirmSessionClose { prompt, pane } => OverlayModel::ConfirmSessionClose {
                prompt,
                pane,
            },
            Overlay::ConfirmProcessRemoval { prompt, target, occurrence, place } =>
                OverlayModel::ConfirmProcessRemoval { prompt, target, occurrence, place },
            Overlay::Help => OverlayModel::Help,
        }
    }
}

/// What an optional overlay holds.
pub open spec fn overlay_model(overlay: Option<Overlay>) -> Option<OverlayModel> {
    match overlay {
        Some(overlay) => Some(overlay@),
        None => None,
    }
}

/// The switcher in an overlay stack.
pub open spec fn switcher_in(overlay: Option<OverlayModel>) -> Option<SwitcherModel> {
    match overlay {
        Some(OverlayModel::Switcher(switcher)) => Some(switcher),
        Some(OverlayModel::Form(form)) => form.switcher,
        Some(OverlayModel::ConfirmOverwrite { form, .. }) => form.switcher,
        _ => None,
    }
}

/// The overlay stack with another switcher in it, where there is one.
pub open spec fn with_switcher(
    overlay: Option<OverlayModel>,
    switcher: SwitcherModel,
) -> Option<OverlayModel> {
    match overlay {
        Some(OverlayModel::Switcher(_)) => Some(OverlayModel::Switcher(switcher)),
        Some(OverlayModel::Form(form)) => if form.switcher is Some {
            Some(OverlayModel::Form(FormOverlayModel { switcher: Some(switcher), ..form }))
        } else {
            overlay
        },
        Some(OverlayModel::ConfirmOverwrite { form, name, place }) => if form.switcher is Some {
            Some(
                OverlayModel::ConfirmOverwrite {
                    form: FormOverlayModel { switcher: Some(switcher), ..form },
                    name,
                    place,
                },
            )
        } else {
            overlay
        },
        _ => overlay,
    }
}

/// The form in an overlay stack.
pub open spec fn form_in(overlay: Option<OverlayModel>) -> Option<FormOverlayModel> {
    match overlay {
        Some(OverlayModel::Form(form)) => Some(form),
        Some(OverlayModel::ConfirmOverwrite { form, .. }) => Some(form),
        _ => None,
    }
}

/// The overlay stack with another form in it, where there is one.
pub open spec fn with_form(
    overlay: Option<OverlayModel>,
    form: FormOverlayModel,
) -> Option<OverlayModel> {
    match overlay {
        Some(OverlayModel::Form(_)) => Some(OverlayModel::Form(form)),
        Some(OverlayModel::ConfirmOverwrite { name, place, .. }) => Some(
            OverlayModel::ConfirmOverwrite { form, name, place },
        ),
        _ => overlay,
    }
}

/// The overlay that closing reveals: a form reveals its switcher, a confirmation
/// of an overwrite its form, and anything else nothing.
pub open spec fn behind(overlay: Option<OverlayModel>) -> Option<OverlayModel> {
    match overlay {
        Some(OverlayModel::Form(form)) => match form.switcher {
            Some(switcher) => Some(OverlayModel::Switcher(switcher)),
            None => None,
        },
        Some(OverlayModel::ConfirmOverwrite { form, .. }) => Some(OverlayModel::Form(form)),
        _ => None,
    }
}

/// The overlay with a message in its active modal, if it has one to show it in.
pub open spec fn with_error(overlay: Option<OverlayModel>, message: Message) -> Option<
    OverlayModel,
> {
    match form_in(overlay) {
        Some(form) => with_form(overlay, FormOverlayModel { error: Some(message), ..form }),
        None => match switcher_in(overlay) {
            Some(switcher) => with_switcher(
                overlay,
                SwitcherModel { error: Some(message), ..switcher },
            ),
            None => match overlay {
                Some(OverlayModel::AgentPicker(picker)) => Some(
                    OverlayModel::AgentPicker(PickerModel { error: Some(message), ..picker }),
                ),
                _ => overlay,
            },
        },
    }
}

/// Whether an overlay has a place to show a message in.
pub open spec fn shows_errors(overlay: Option<OverlayModel>) -> bool {
    form_in(overlay) is Some || switcher_in(overlay) is Some || (overlay matches Some(shown)
        && shown is AgentPicker)
}

/// Returns the overlay that closing reveals.
pub fn closed_overlay(overlay: Option<Overlay>) -> (revealed: Option<Overlay>)
    ensures
        overlay_model(revealed) == behind(overlay_model(overlay)),
{
    match overlay {
        Some(Overlay::Form(form)) => match form.switcher {
            Some(switcher) => Some(Overlay::Switcher(switcher)),
            None => None,
        },
        Some(Overlay::ConfirmOverwrite { form, .. }) => Some(Overlay::Form(form)),
        _ => None,
    }
}

/// Shows a message in the active modal. Hands the message back where there is
/// no place for it.
pub fn report_in(overlay: &mut Option<Overlay>, message: Message) -> (left: Option<Message>)
    ensures
        overlay_model(*final(overlay)) == with_error(overlay_model(*old(overlay)), message),
        left == if shows_errors(overlay_model(*old(overlay))) {
            None
        } else {
            Some(message)
        },
{
    match overlay {
        Some(Overlay::Form(form)) => {
            form.error = Some(message);
            None
        },
        Some(Overlay::ConfirmOverwrite { form, .. }) => {
            form.error = Some(message);
            None
        },
        Some(Overlay::Switcher(switcher)) => {
            switcher.error = Some(message);
            None
        },
        Some(Overlay::AgentPicker(picker)) => {
            picker.error = Some(message);
            None
        },
        _ => Some(message),
    }
}

/// Returns the switcher in an overlay stack.
pub fn switcher_of(overlay: &Option<Overlay>) -> (found: Option<&Switcher>)
    ensures
        match found {
            Some(switcher) => switcher_in(overlay_model(*overlay)) == Some(switcher@),
            None => switcher_in(overlay_model(*overlay)) is None,
        },
{
    match overlay {
        Some(Overlay::Switcher(switcher)) => Some(switcher),
        Some(Overlay::Form(form)) => form.switcher.as_ref(),
        Some(Overlay::ConfirmOverwrite { form, .. }) => form.switcher.as_ref(),
        _ => None,
    }
}

/// Highlights a row of the switcher in an overlay stack.
pub fn set_switcher_row(overlay: &mut Option<Overlay>, row: usize)
    ensures
        overlay_model(*final(overlay)) == match switcher_in(overlay_model(*old(overlay))) {
            Some(switcher) => with_switcher(
                overlay_model(*old(overlay)),
                SwitcherModel { selected: row, ..switcher },
            ),
            None => overlay_model(*old(overlay)),
        },
{
    match overlay {
        Some(Overlay::Switcher(switcher)) => {
            switcher.selected = row;
        },
        Some(Overlay::Form(form)) => {
            match &mut form.switcher {
                Some(switcher) => {
                    switcher.selected = row;
                },
                None => {},
            }
        },
        Some(Overlay::ConfirmOverwrite { form, .. }) => {
            match &mut form.switcher {
                Some(switcher) => {
                    switcher.selected = row;
                },
                None => {},
            }
        },
        _ => {},
    }
}

/// Shows a message in the switcher of an overlay stack.
pub fn set_switcher_error(overlay: &mut Option<Overlay>, message: Message)
    ensures
        overlay_model(*final(overlay)) == match switcher_in(overlay_model(*old(overlay))) {
            Some(switcher) => with_switcher(
                overlay_model(*old(overlay)),
                SwitcherModel { error: Some(message), ..switcher },
            ),
            None => overlay_model(*old(overlay)),
        },
{
    match overlay {
        Some(Overlay::Switcher(switcher)) => {
            switcher.error = Some(message);
        },
        Some(Overlay::Form(form)) => {
            match &mut form.switcher {
                Some(switcher) => {
                    switcher.error = Some(message);
                },
                None => {},
            }
        },
        Some(Overlay::ConfirmOverwrite { form, .. }) => {
            match &mut form.switcher {
                Some(switcher) => {
                    switcher.error = Some(message);
                },
                None => {},
            }
        },
        _ => {},
    }
}

/// Replaces the preview of the switcher in an overlay stack.
pub fn set_switcher_preview(overlay: &mut Option<Overlay>, preview: Vec<(ProcessKind, String)>)
    ensures
        overlay_model(*final(overlay)) == match switcher_in(overlay_model(*old(overlay))) {
            Some(switcher) => with_switcher(
                overlay_model(*old(overlay)),
                SwitcherModel { preview: preview@, ..switcher },
            ),
            None => overlay_model(*old(overlay)),
        },
{
    match overlay {
        Some(Overlay::Switcher(switcher)) => {
            switcher.preview = preview;
        },
        Some(Overlay::Form(form)) => {
            match &mut form.switcher {
                Some(switcher) => {
                    switcher.preview = preview;
                },
                None => {},
            }
        },
        Some(Overlay::ConfirmOverwrite { form, .. }) => {
            match &mut form.switcher {
                Some(switcher) => {
                    switcher.preview = preview;
                },
                None => {},
            }
        },
        _ => {},
    }
}

/// Returns the form in an overlay stack.
pub fn form_of(overlay: &Option<Overlay>) -> (found: Option<&FormOverlay>)
    ensures
        match found {
            Some(form) => form_in(overlay_model(*overlay)) == Some(form@),
            None => form_in(overlay_model(*overlay)) is None,
        },
{
    match overlay {
        Some(Overlay::Form(form)) => Some(form),
        Some(Overlay::ConfirmOverwrite { form, .. }) => Some(form),
        _ => None,
    }
}

/// Closing an overlay loses nothing that it retained: cancelling a form that was
/// opened over a switcher shows that switcher again, and cancelling an overwrite
/// shows the filled form.
pub proof fn closing_restores_what_was_behind(
    form: FormOverlayModel,
    switcher: SwitcherModel,
    name: String,
    place: Location,
)
    ensures
        form.switcher == Some(switcher) ==> behind(Some(OverlayModel::Form(form))) == Some(
            OverlayModel::Switcher(switcher),
        ),
        behind(Some(OverlayModel::ConfirmOverwrite { form, name, place })) == Some(
            OverlayModel::Form(form),
        ),
        behind(behind(behind(Some(OverlayModel::ConfirmOverwrite { form, name, place })))) is None,
{
}

/// A message shown in a modal changes neither the typed values nor what lies
/// behind.
pub proof fn an_error_keeps_the_form(overlay: Option<OverlayModel>, message: Message)
    ensures
        form_in(overlay) matches Some(form) ==> form_in(with_error(overlay, message)) == Some(
            FormOverlayModel { error: Some(message), ..form },
        ),
        form_in(overlay) is Some ==> switcher_in(with_error(overlay, message)) == switcher_in(
            overlay,
        ),
        !shows_errors(overlay) ==> with_error(overlay, message) == overlay,
{
}

} // verus!
