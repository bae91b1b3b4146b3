//! Keys in the overlays: confirmations, the agent picker and the switcher.

use vstd::prelude::*;
use crate::app::forms::{add_process_form, agent_session_form, new_project_form, save_project_form};
use crate::app::{App, AppModel};
use crate::effect::{Effect, EffectModel, Task};
use crate::form::{next_in_ring, previous_in_ring, ring_next, ring_previous};
use crate::input::{KeyCode, KeyEvent};
use crate::moment::Moment;
use crate::overlay::{
    set_switcher_row, switcher_in, switcher_of, with_switcher, AgentPickerItem, FormIntent,
    Overlay, OverlayModel, PickerModel, SwitcherModel,
};
use crate::process::AgentTool;

verus! {

/// The number that a digit key jumps to.
pub open spec fn digit_row(c: char) -> Option<usize> {
    let code = c as int;
    if 0x31 <= code <= 0x39 {
        Some((code - 0x31) as usize)
    } else {
        None
    }
}

impl AppModel {
    /// The application after a confirmation was accepted.
    #[verifier::opaque]
    pub open spec fn confirmed(self, now: Moment) -> AppModel {
        match self.overlay {
            Some(OverlayModel::ConfirmOverwrite { form, name, place }) => self.overwriting(
                form,
                name,
                place,
            ),
            Some(OverlayModel::ConfirmRemoval { place, .. }) => self.with_overlay(None).asked(
                EffectModel::Plain(Effect::Unregister(place)),
                Task::ProjectRemoved,
            ),
            Some(OverlayModel::ConfirmSessionClose { pane, .. }) => self.with_overlay(
                None,
            ).session_closing(pane),
            Some(
                OverlayModel::ConfirmProcessRemoval { target, occurrence, place, .. },
            ) => self.with_overlay(None).entry_removing(target, occurrence, place, now),
            _ => self,
        }
    }

    /// The application after a key in a confirmation.
    #[verifier::opaque]
    pub open spec fn confirm_key(self, code: KeyCode, now: Moment) -> AppModel {
        if code == KeyCode::Enter || code == KeyCode::Char('y') {
            self.confirmed(now)
        } else if code == KeyCode::Esc || code == KeyCode::Char('n') {
            self.overlay_closed()
        } else {
            self
        }
    }

    /// The application with another row of its picker highlighted.
    pub open spec fn picker_moved(self, picker: PickerModel, row: usize) -> AppModel {
        self.with_overlay(
            Some(OverlayModel::AgentPicker(PickerModel { selected: row, ..picker })),
        )
    }

    /// The application that takes the highlighted row of its picker.
    #[verifier::opaque]
    pub open spec fn picker_chosen(self, picker: PickerModel, now: Moment) -> AppModel {
        if picker.selected < picker.items.len() {
            match picker.items[picker.selected as int] {
                AgentPickerItem::Recent(session) => self.with_overlay(None).reopening(
                    session.id@,
                    now,
                ),
                AgentPickerItem::New(tool) => if tool == AgentTool::Custom {
                    self.form_opened(
                        agent_session_form(self.world.presets, tool),
                        FormIntent::LaunchAgentSession,
                    )
                } else {
                    self.with_overlay(None).session_preparing(tool, None, None, None)
                },
            }
        } else {
            self
        }
    }

    /// The application after a key in its agent picker.
    #[verifier::opaque]
    pub open spec fn picker_key(self, code: KeyCode, now: Moment) -> AppModel {
        match self.overlay {
            Some(OverlayModel::AgentPicker(picker)) => {
                let count = picker.items.len();
                match code {
                    KeyCode::Esc => self.with_overlay(None),
                    KeyCode::Enter => self.picker_chosen(picker, now),
                    KeyCode::Down => if count > 0 {
                        self.picker_moved(picker, ring_next(picker.selected, count))
                    } else {
                        self
                    },
                    KeyCode::Up => if count > 0 {
                        self.picker_moved(picker, ring_previous(picker.selected, count))
                    } else {
                        self
                    },
                    KeyCode::Char(c) => if c == 'j' && count > 0 {
                        self.picker_moved(picker, ring_next(picker.selected, count))
                    } else if c == 'k' && count > 0 {
                        self.picker_moved(picker, ring_previous(picker.selected, count))
                    } else if c == 'e' && picker.selected < count {
                        match picker.items[picker.selected as int] {
                            AgentPickerItem::New(tool) => self.form_opened(
                                agent_session_form(self.world.presets, tool),
                                FormIntent::LaunchAgentSession,
                            ),
                            _ => self,
                        }
                    } else {
                        self
                    },
                    _ => self,
                }
            },
            _ => self,
        }
    }

    /// The application with another row of its switcher highlighted, and its
    /// preview asked for.
    #[verifier::opaque]
    pub open spec fn switcher_moved(self, switcher: SwitcherModel, row: usize) -> AppModel {
        (if switcher.projects.len() > 0 {
            self.with_overlay(
                with_switcher(self.overlay, SwitcherModel { selected: row, ..switcher }),
            )
        } else {
            self
        }).previewing()
    }

    /// The application after a key in its switcher.
    #[verifier::opaque]
    pub open spec fn switcher_key(self, code: KeyCode) -> AppModel {
        match switcher_in(self.overlay) {
            None => self,
            Some(switcher) => {
                let count = switcher.projects.len();
                let down = ring_next(switcher.selected, count);
                let up = ring_previous(switcher.selected, count);
                match code {
                    KeyCode::Esc => self.with_overlay(None),
                    KeyCode::Down => self.switcher_moved(switcher, down),
                    KeyCode::Up => self.switcher_moved(switcher, up),
                    KeyCode::Enter => if count > 0 {
                        self.switching_to(switcher.selected)
                    } else {
                        self
                    },
                    KeyCode::Char(c) => if c == 'j' {
                        self.switcher_moved(switcher, down)
                    } else if c == 'k' {
                        self.switcher_moved(switcher, up)
                    } else if c == 'n' {
                        self.form_opened(
                            new_project_form(self.world.folder@),
                            FormIntent::NewProject,
                        )
                    } else if c == 's' {
                        self.form_opened(save_project_form(), FormIntent::SaveCurrentProject)
                    } else if c == 'a' {
                        self.form_opened(add_process_form(), FormIntent::ChooseProcessKind)
                    } else if c == 'd' {
                        self.switcher_removing()
                    } else {
                        match digit_row(c) {
                            Some(row) => if row < count {
                                self.switching_to(row)
                            } else {
                                self
                            },
                            None => self,
                        }
                    },
                    _ => self,
                }
            },
        }
    }
}

impl App {
    /// Accepts the open confirmation.
    fn accept_confirmation(&mut self, now: Moment)
        ensures
            final(self)@ == old(self)@.confirmed(now),
    {
        proof {
            reveal(AppModel::confirmed);
            reveal(AppModel::overwriting);
        }
        match self.overlay.take() {
            Some(Overlay::ConfirmOverwrite { form, name, place }) => {
                self.overlay = Some(Overlay::Form(form));
                self.ask(Effect::Register { name, place }, Task::OverwriteRegistered);
            },
            Some(Overlay::ConfirmRemoval { place, .. }) => self.remove_project(place),
            Some(Overlay::ConfirmSessionClose { pane, .. }) => self.close_agent_session(pane),
            Some(Overlay::ConfirmProcessRemoval { target, occurrence, place, .. }) => {
                self.remove_configured_process(target, occurrence, place, now);
            },
            other => {
                self.overlay = other;
            },
        }
    }

    /// Handles a key while a confirmation is open: accept or cancel.
    pub fn handle_confirm_key(&mut self, key: KeyEvent, now: Moment)
        ensures
            final(self)@ == old(self)@.confirm_key(key.code, now),
    {
        proof {
            reveal(AppModel::confirm_key);
        }
        match key.code {
            KeyCode::Enter => self.accept_confirmation(now),
            KeyCode::Esc => self.close_overlay(),
            KeyCode::Char(c) => {
                if c == 'y' {
                    self.accept_confirmation(now);
                } else if c == 'n' {
                    self.close_overlay();
                }
            },
            _ => {},
        }
    }

    /// Highlights another row of the agent picker.
    fn move_picker(&mut self, down: bool)
        ensures
            final(self)@ == match old(self)@.overlay {
                Some(OverlayModel::AgentPicker(picker)) => if picker.items.len() > 0 {
                    old(self)@.picker_moved(
                        picker,
                        if down {
                            ring_next(picker.selected, picker.items.len())
                        } else {
                            ring_previous(picker.selected, picker.items.len())
                        },
                    )
                } else {
                    old(self)@
                },
                _ => old(self)@,
            },
    {
        match &mut self.overlay {
            Some(Overlay::AgentPicker(picker)) => {
                let count: usize = picker.items.len();
                if count > 0 {
                    picker.selected = if down {
                        next_in_ring(picker.selected, count)
                    } else {
                        previous_in_ring(picker.selected, count)
                    };
                }
            },
            _ => {},
        }
    }

    /// Takes the highlighted row of the agent picker.
    fn choose_picker_row(&mut self, now: Moment)
        ensures
            final(self)@ == match old(self)@.overlay {
                Some(OverlayModel::AgentPicker(picker)) => old(self)@.picker_chosen(picker, now),
                _ => old(self)@,
            },
    {
        proof {
            reveal(AppModel::picker_chosen);
        }
        let mut recent: Option<String> = None;
        let mut fresh: Option<AgentTool> = None;
        match &self.overlay {
            Some(Overlay::AgentPicker(picker)) => {
                if picker.selected < picker.items.len() {
                    match &picker.items[picker.selected] {
                        AgentPickerItem::Recent(session) => {
                            recent = Some(session.id.clone());
                        },
                        AgentPickerItem::New(tool) => {
                            fresh = Some(*tool);
                        },
                    }
                }
            },
            _ => {},
        }
        if let Some(id) = recent {
            self.overlay = None;
            self.reopen_agent_session(&id, now);
        } else if let Some(tool) = fresh {
            if tool == AgentTool::Custom {
                self.open_agent_session_form(tool);
            } else {
                self.overlay = None;
                self.create_agent_session(tool, None, None, None);
            }
        }
    }

    /// Customizes the highlighted provider of the agent picker.
    fn customize_picker_row(&mut self)
        ensures
            final(self)@ == match old(self)@.overlay {
                Some(OverlayModel::AgentPicker(picker)) => if picker.selected < picker.items.len() {
                    match picker.items[picker.selected as int] {
                        AgentPickerItem::New(tool) => old(self)@.form_opened(
                            agent_session_form(old(self)@.world.presets, tool),
                            FormIntent::LaunchAgentSession,
                        ),
                        _ => old(self)@,
                    }
                } else {
                    old(self)@
                },
                _ => old(self)@,
            },
    {
        let mut fresh: Option<AgentTool> = None;
        match &self.overlay {
            Some(Overlay::AgentPicker(picker)) => {
                if picker.selected < picker.items.len() {
                    match &picker.items[picker.selected] {
                        AgentPickerItem::New(tool) => {
                            fresh = Some(*tool);
                        },
                        _ => {},
                    }
                }
            },
            _ => {},
        }
        if let Some(tool) = fresh {
            self.open_agent_session_form(tool);
        }
    }

    /// Handles navigation, quick launch, customization, and cancel in the agent
    /// picker.
    pub fn handle_agent_picker_key(&mut self, key: KeyEvent, now: Moment)
        ensures
            final(self)@ == old(self)@.picker_key(key.code, now),
    {
        proof {
            reveal(AppModel::picker_key);
        }
        let open: bool = match &self.overlay {
            Some(Overlay::AgentPicker(_)) => true,
            _ => false,
        };
        if !open {
            return;
        }
        match key.code {
            KeyCode::Esc => {
                self.overlay = None;
            },
            KeyCode::Enter => self.choose_picker_row(now),
            KeyCode::Down => self.move_picker(true),
            KeyCode::Up => self.move_picker(false),
            KeyCode::Char(c) => {
                if c == 'j' {
                    self.move_picker(true);
                } else if c == 'k' {
                    self.move_picker(false);
                } else if c == 'e' {
                    self.customize_picker_row();
                }
            },
            _ => {},
        }
    }

    /// Highlights another row of the switcher and asks for its preview.
    fn move_switcher(&mut self, down: bool)
        ensures
            final(self)@ == match switcher_in(old(self)@.overlay) {
                Some(switcher) => old(self)@.switcher_moved(
                    switcher,
                    if down {
                        ring_next(switcher.selected, switcher.projects.len())
                    } else {
                        ring_previous(switcher.selected, switcher.projects.len())
                    },
                ),
                None => old(self)@,
            },
    {
        proof {
            reveal(AppModel::switcher_moved);
        }
        let (count, selected): (usize, usize) = match switcher_of(&self.overlay) {
            Some(switcher) => (switcher.projects.len(), switcher.selected),
            None => return,
        };
        if count > 0 {
            let row: usize = if down {
                next_in_ring(selected, count)
            } else {
                previous_in_ring(selected, count)
            };
            set_switcher_row(&mut self.overlay, row);
        }
        self.update_switcher_preview();
    }

    /// Handles a key while the switcher is open: navigate, jump by number,
    /// confirm the highlighted project, or cancel.
    pub fn handle_switcher_key(&mut self, key: KeyEvent)
        ensures
            final(self)@ == old(self)@.switcher_key(key.code),
    {
        proof {
            reveal(AppModel::switcher_key);
        }
        let (count, selected): (usize, usize) = match switcher_of(&self.overlay) {
            Some(switcher) => (switcher.projects.len(), switcher.selected),
            None => return,
        };
        match key.code {
            KeyCode::Esc => {
                self.overlay = None;
            },
            KeyCode::Down => self.move_switcher(true),
            KeyCode::Up => self.move_switcher(false),
            KeyCode::Enter => {
                if count > 0 {
                    self.switch_to(selected);
                }
            },
            KeyCode::Char(c) => {
                if c == 'j' {
                    self.move_switcher(true);
                } else if c == 'k' {
                    self.move_switcher(false);
                } else if c == 'n' {
                    self.open_new_project_form();
                } else if c == 's' {
                    self.open_save_project_form();
                } else if c == 'a' {
                    self.open_add_process_form();
                } else if c == 'd' {
                    self.remove_selected_project();
                } else {
                    let code: u32 = c as u32;
                    if 0x31 <= code && code <= 0x39 {
                        let row: usize = (code - 0x31) as usize;
                        if row < count {
                            self.switch_to(row);
                        }
                    }
                }
            },
            _ => {},
        }
    }
}

/// A confirmation does nothing until it is accepted: whatever other key is
/// pressed, the host is asked for nothing, and processes, projects and panes
/// stay as they are.
pub proof fn nothing_happens_unconfirmed(app: AppModel, code: KeyCode, now: Moment)
    requires
        code != KeyCode::Enter,
        code != KeyCode::Char('y'),
    ensures
        app.confirm_key(code, now) == app.with_overlay(app.confirm_key(code, now).overlay),
{
    reveal(AppModel::confirm_key);
    reveal(AppModel::overlay_closed);
}

} // verus!
