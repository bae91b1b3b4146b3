//! Keyboard input: shortcuts, the leader chord, and where each key goes.

use vstd::prelude::*;
use crate::app::forms::{add_process_form, new_project_form};
use crate::app::{App, AppModel, Focus};
use crate::app::forwarding::held_key;
use crate::effect::Effect;
use crate::input::{is_leader, leads, KeyCode, KeyEvent, KeyEventKind};
use crate::moment::Moment;
use crate::overlay::{FormIntent, Overlay, OverlayModel};

verus! {

impl AppModel {
    /// The application with the selected process open in an editor.
    pub open spec fn selected_edited(self) -> AppModel {
        match self.roster.selected_id() {
            Some(pane) => self.told(Effect::OpenEditor(pane)),
            None => self,
        }
    }

    /// The application after a shortcut that works in the sidebar and, behind
    /// the leader chord, in a terminal.
    #[verifier::opaque]
    pub open spec fn common_shortcut(self, c: char, now: Moment) -> AppModel {
        if c == 'q' {
            AppModel { running: false, ..self }
        } else if c == 'a' {
            self.form_opened(add_process_form(), FormIntent::ChooseProcessKind)
        } else if c == 'A' {
            self.picker_shown()
        } else if c == 'n' {
            self.form_opened(new_project_form(self.world.folder@), FormIntent::NewProject)
        } else if c == 'N' {
            self.desktop_toggling(now)
        } else if c == 'o' {
            self.switcher_shown()
        } else if c == 'u' {
            self.reopening_last(now)
        } else if c == '?' {
            self.with_overlay(Some(OverlayModel::Help))
        } else {
            self
        }
    }

    /// The application after a shortcut on the selected process.
    #[verifier::opaque]
    pub open spec fn process_shortcut(self, c: char, now: Moment) -> AppModel {
        if c == 's' {
            self.selected_toggled(now)
        } else if c == 'r' {
            self.selected_restarted(now)
        } else if c == 'p' {
            self.selected_pause_toggled()
        } else if c == 'x' {
            self.selected_force_stopped()
        } else {
            self
        }
    }

    /// The application after a key in the sidebar. Actions on processes do not
    /// apply while a project row is selected.
    #[verifier::opaque]
    pub open spec fn sidebar_key(self, code: KeyCode, now: Moment) -> AppModel {
        let on_project = self.catalog.cursor is Some;
        match code {
            KeyCode::Down => self.moved_down(),
            KeyCode::Up => self.moved_up(),
            KeyCode::Enter => self.sidebar_chosen(now),
            KeyCode::Right => self.sidebar_chosen(now),
            KeyCode::Left => self.with_cursor(None),
            KeyCode::Char(c) => if c == 'j' {
                self.moved_down()
            } else if c == 'k' {
                self.moved_up()
            } else if c == 'l' {
                self.sidebar_chosen(now)
            } else if c == 'h' {
                self.with_cursor(None)
            } else if c == 'd' {
                if on_project {
                    self.selected_removal_confirmation(now)
                } else {
                    self.delete_confirmation(now)
                }
            } else if c == 't' {
                if on_project {
                    self
                } else {
                    self.autostart_toggling(now)
                }
            } else if c == 's' || c == 'r' || c == 'p' || c == 'x' {
                if on_project {
                    self
                } else {
                    self.process_shortcut(c, now)
                }
            } else if c == '!' {
                self.attended(now)
            } else if c == 'e' {
                self.selected_edited()
            } else {
                self.common_shortcut(c, now)
            },
            _ => self,
        }
    }

    /// The application after the key that completes a leader chord.
    #[verifier::opaque]
    pub open spec fn leader_command(self, key: KeyEvent, escape: Option<u32>, now: Moment) -> AppModel {
        if leads(key) {
            self.key_forwarded(key, escape)
        } else {
            match key.code {
                KeyCode::Left => self.focused(Focus::Sidebar),
                KeyCode::Esc => self.focused(Focus::Sidebar),
                KeyCode::Down => self.with_roster(self.roster.next()),
                KeyCode::Up => self.with_roster(self.roster.previous()),
                KeyCode::Char(c) => if c == 'h' {
                    self.focused(Focus::Sidebar)
                } else if c == 'j' {
                    self.with_roster(self.roster.next())
                } else if c == 'k' {
                    self.with_roster(self.roster.previous())
                } else if c == 's' || c == 'r' || c == 'p' || c == 'x' {
                    self.process_shortcut(c, now)
                } else if c == 't' {
                    self.autostart_toggling(now)
                } else if c == '!' {
                    let after = self.attended(now);
                    if self.attention() is Some {
                        after.focused(Focus::Terminal)
                    } else {
                        after
                    }
                } else if c == 'd' {
                    self.selected_close_confirmation(now)
                } else {
                    self.common_shortcut(c, now)
                },
                _ => self,
            }
        }
    }

    /// The application after a key in the focused region.
    #[verifier::opaque]
    pub open spec fn focused_key(self, key: KeyEvent, escape: Option<u32>, now: Moment) -> AppModel {
        match self.focus {
            Focus::Sidebar => self.sidebar_key(key.code, now),
            Focus::Terminal => if leads(key) && key.kind == KeyEventKind::Press {
                self.focused(Focus::Leader)
            } else {
                self.key_forwarded(key, escape)
            },
            Focus::Leader => if key.kind == KeyEventKind::Repeat {
                self
            } else {
                self.focused(Focus::Terminal).leader_command(key, escape, now)
            },
        }
    }

    /// The application after a key. A release only follows its press; anything
    /// else dismisses the notice and the selection, and goes to the overlay if
    /// there is one.
    #[verifier::opaque]
    pub open spec fn key_handled(self, key: KeyEvent, escape: Option<u32>, now: Moment) -> AppModel {
        if key.kind == KeyEventKind::Release {
            self.released(key)
        } else {
            let fresh = (AppModel { feedback: self.feedback.unnoted(), ..self }).unselected();
            match self.overlay {
                Some(OverlayModel::Help) => fresh.with_overlay(None),
                Some(OverlayModel::ConfirmOverwrite { .. }) => fresh.confirm_key(key.code, now),
                Some(OverlayModel::ConfirmRemoval { .. }) => fresh.confirm_key(key.code, now),
                Some(OverlayModel::ConfirmSessionClose { .. }) => fresh.confirm_key(key.code, now),
                Some(OverlayModel::ConfirmProcessRemoval { .. }) => fresh.confirm_key(
                    key.code,
                    now,
                ),
                Some(OverlayModel::Form(_)) => fresh.form_key(key.code, now),
                Some(OverlayModel::AgentPicker(_)) => fresh.picker_key(key.code, now),
                Some(OverlayModel::Switcher(_)) => fresh.switcher_key(key.code),
                None => fresh.focused_key(key, escape, now),
            }
        }
    }
}

impl App {
    /// Carries out a shortcut that works in every region.
    fn run_common_shortcut(&mut self, c: char, now: Moment)
        ensures
            final(self)@ == old(self)@.common_shortcut(c, now),
    {
        proof {
            reveal(AppModel::common_shortcut);
        }
        if c == 'q' {
            self.running = false;
        } else if c == 'a' {
            self.open_add_process_form();
        } else if c == 'A' {
            self.open_agent_picker();
        } else if c == 'n' {
            self.open_new_project_form();
        } else if c == 'N' {
            self.toggle_desktop_notifications(now);
        } else if c == 'o' {
            self.open_switcher();
        } else if c == 'u' {
            self.reopen_last_closed_session(now);
        } else if c == '?' {
            self.overlay = Some(Overlay::Help);
        }
    }

    /// Carries out a shortcut on the selected process.
    fn run_process_shortcut(&mut self, c: char, now: Moment)
        ensures
            final(self)@ == old(self)@.process_shortcut(c, now),
    {
        proof {
            reveal(AppModel::process_shortcut);
        }
        if c == 's' {
            self.toggle_selected(now);
        } else if c == 'r' {
            self.restart_selected(now);
        } else if c == 'p' {
            self.toggle_pause_selected();
        } else if c == 'x' {
            self.force_stop_selected();
        }
    }

    /// Handles a key while the sidebar is focused: direct navigation and
    /// actions.
    pub fn handle_sidebar_key(&mut self, key: KeyEvent, now: Moment)
        ensures
            final(self)@ == old(self)@.sidebar_key(key.code, now),
    {
        proof {
            reveal(AppModel::sidebar_key);
        }
        let on_project: bool = self.catalog.cursor.is_some();
        match key.code {
            KeyCode::Down => self.sidebar_down(),
            KeyCode::Up => self.sidebar_up(),
            KeyCode::Enter => self.sidebar_select(now),
            KeyCode::Right => self.sidebar_select(now),
            KeyCode::Left => {
                self.catalog.cursor = None;
            },
            KeyCode::Char(c) => {
                if c == 'j' {
                    self.sidebar_down();
                } else if c == 'k' {
                    self.sidebar_up();
                } else if c == 'l' {
                    self.sidebar_select(now);
                } else if c == 'h' {
                    self.catalog.cursor = None;
                } else if c == 'd' {
                    if on_project {
                        self.confirm_remove_selected_project(now);
                    } else {
                        self.confirm_delete_selected(now);
                    }
                } else if c == 't' {
                    if !on_project {
                        self.toggle_selected_autostart(now);
                    }
                } else if c == 's' || c == 'r' || c == 'p' || c == 'x' {
                    if !on_project {
                        self.run_process_shortcut(c, now);
                    }
                } else if c == '!' {
                    let _ = self.jump_to_attention(now);
                } else if c == 'e' {
                    if let Some(pane) = self.selected_pane() {
                        self.send(Effect::OpenEditor(pane));
                    }
                } else {
                    self.run_common_shortcut(c, now);
                }
            },
            _ => {},
        }
    }

    /// Handles a command key pressed after the leader while a terminal is
    /// focused.
    pub fn handle_leader_command(&mut self, key: KeyEvent, escape: Option<u32>, now: Moment)
        ensures
            final(self)@ == old(self)@.leader_command(key, escape, now),
    {
        proof {
            reveal(AppModel::leader_command);
        }
        if is_leader(key) {
            self.forward_key(key, escape);
            return;
        }
        match key.code {
            KeyCode::Left => {
                self.focus = Focus::Sidebar;
            },
            KeyCode::Esc => {
                self.focus = Focus::Sidebar;
            },
            KeyCode::Down => self.workspace.select_next(),
            KeyCode::Up => self.workspace.select_previous(),
            KeyCode::Char(c) => {
                if c == 'h' {
                    self.focus = Focus::Sidebar;
                } else if c == 'j' {
                    self.workspace.select_next();
                } else if c == 'k' {
                    self.workspace.select_previous();
                } else if c == 's' || c == 'r' || c == 'p' || c == 'x' {
                    self.run_process_shortcut(c, now);
                } else if c == 't' {
                    self.toggle_selected_autostart(now);
                } else if c == '!' {
                    if self.jump_to_attention(now) {
                        self.focus = Focus::Terminal;
                    }
                } else if c == 'd' {
                    self.confirm_close_selected_session(now);
                } else {
                    self.run_common_shortcut(c, now);
                }
            },
            _ => {},
        }
    }

    /// Handles a key: overlay, leader chord, command, or forward to the focused
    /// pane. `escape` is how the extended keyboard protocol codes the key for
    /// the selected terminal, if it does.
    pub fn handle_key(&mut self, key: KeyEvent, escape: Option<u32>, now: Moment)
        ensures
            final(self)@ == old(self)@.key_handled(key, escape, now),
    {
        proof {
            reveal(AppModel::key_handled);
            reveal(AppModel::focused_key);
        }
        if key.kind == KeyEventKind::Release {
            self.forward_release(key);
            return;
        }
        self.feedback.clear_notice();
        self.clear_selection();
        match &self.overlay {
            Some(Overlay::Help) => {
                self.overlay = None;
            },
            Some(Overlay::ConfirmOverwrite { .. }) => self.handle_confirm_key(key, now),
            Some(Overlay::ConfirmRemoval { .. }) => self.handle_confirm_key(key, now),
            Some(Overlay::ConfirmSessionClose { .. }) => self.handle_confirm_key(key, now),
            Some(Overlay::ConfirmProcessRemoval { .. }) => self.handle_confirm_key(key, now),
            Some(Overlay::Form(_)) => self.handle_form_key(key, now),
            Some(Overlay::AgentPicker(_)) => self.handle_agent_picker_key(key, now),
            Some(Overlay::Switcher(_)) => self.handle_switcher_key(key),
            None => match self.focus {
                Focus::Sidebar => self.handle_sidebar_key(key, now),
                Focus::Terminal => {
                    if is_leader(key) && key.kind == KeyEventKind::Press {
                        self.focus = Focus::Leader;
                    } else {
                        self.forward_key(key, escape);
                    }
                },
                Focus::Leader => {
                    if key.kind != KeyEventKind::Repeat {
                        self.focus = Focus::Terminal;
                        self.handle_leader_command(key, escape, now);
                    }
                },
            },
        }
    }
}

/// A release without a press that was passed on reaches nobody and changes
/// nothing.
pub proof fn an_unmatched_release_changes_nothing(
    app: AppModel,
    key: KeyEvent,
    escape: Option<u32>,
    now: Moment,
)
    requires
        key.kind == KeyEventKind::Release,
        held_key(app.held, key.code) is None,
    ensures
        app.key_handled(key, escape, now) == app,
{
    reveal(AppModel::released);
    reveal(AppModel::key_handled);
}

/// Any key closes the keymap, and does nothing else but what every key does.
pub proof fn any_key_closes_the_keymap(
    app: AppModel,
    key: KeyEvent,
    escape: Option<u32>,
    now: Moment,
)
    requires
        key.kind != KeyEventKind::Release,
        app.overlay == Some(OverlayModel::Help),
    ensures
        app.key_handled(key, escape, now).overlay is None,
        app.key_handled(key, escape, now).outbox == app.outbox,
        app.key_handled(key, escape, now).roster == app.roster,
{
    reveal(AppModel::key_handled);
}

/// Pressing the leader chord twice sends the chord itself to the terminal and
/// leaves the terminal attached.
pub proof fn a_doubled_leader_reaches_the_terminal(
    app: AppModel,
    key: KeyEvent,
    escape: Option<u32>,
    now: Moment,
)
    requires
        leads(key),
        key.kind == KeyEventKind::Press,
        app.overlay is None,
        app.focus == Focus::Terminal,
    ensures
        ({
            let armed = app.key_handled(key, escape, now);
            &&& armed.focus == Focus::Leader
            &&& armed.outbox == app.outbox
            &&& armed.key_handled(key, escape, now).focus == Focus::Terminal
            &&& armed.key_handled(key, escape, now) == armed.focused(
                Focus::Terminal,
            ).key_forwarded(key, escape)
        }),
{
    reveal(AppModel::key_handled);
    reveal(AppModel::focused_key);
    reveal(AppModel::leader_command);
    reveal(AppModel::key_forwarded);
    let armed = app.key_handled(key, escape, now);
    let fresh = (AppModel { feedback: armed.feedback.unnoted(), ..armed }).unselected();
    assert(fresh =~= armed);
}

/// The commands of the sidebar work as chords while a terminal is attached: a
/// chord does what its key does on a process row of the sidebar. Opening the row
/// and jumping to what awaits input end at the attached terminal.
pub proof fn chords_act_as_in_the_sidebar(
    app: AppModel,
    key: KeyEvent,
    c: char,
    escape: Option<u32>,
    now: Moment,
)
    requires
        key.code == KeyCode::Char(c),
        !leads(key),
        app.catalog.cursor is None,
        ({
            ||| seq!['q', 's', 'r', 'p', 'x', 't', 'a', 'A', 'n', 'N', 'o', 'u', '?'].contains(c)
            ||| app.focus == Focus::Terminal && seq!['l', '!'].contains(c)
        }),
    ensures
        app.leader_command(key, escape, now) == app.sidebar_key(key.code, now),
{
    reveal(AppModel::leader_command);
    reveal(AppModel::sidebar_key);
    reveal(AppModel::common_shortcut);
    reveal(AppModel::attended);
    reveal(AppModel::sidebar_chosen);
}

} // verus!
