//! Keys, pastes and resizes on their way to the attached terminal.

use vstd::prelude::*;
use vstd::string::*;
use vstd::utf8::encode_utf8;
use crate::app::{App, AppModel, Canvas, Focus, HeldKey, PointerModel};
use crate::effect::{Effect, EffectModel};
use crate::geometry::{frame_areas, inner_size, pane_size_of, PaneSize, Rect};
use crate::input::{encode_key, key_bytes, KeyCode, KeyEvent, KeyEventKind, KeyModifiers};
use crate::moment::Moment;
use crate::overlay::Overlay;
use crate::pane::{alive_panes, all_resized, pane_of, with_screen};
use crate::process::PaneId;
use crate::text::{control, is_control};

verus! {

/// What introduces a bracketed paste.
pub open spec fn paste_start() -> Seq<u8> {
    seq![0x1bu8, 0x5bu8, 0x32u8, 0x30u8, 0x30u8, 0x7eu8]
}

/// What ends a bracketed paste.
pub open spec fn paste_end() -> Seq<u8> {
    seq![0x1bu8, 0x5bu8, 0x32u8, 0x30u8, 0x31u8, 0x7eu8]
}

/// The held keys without one.
pub open spec fn other_held(held: Seq<HeldKey>, code: KeyCode) -> Seq<HeldKey>
    decreases held.len(),
{
    if held.len() == 0 {
        Seq::empty()
    } else if held.last().code == code {
        other_held(held.drop_last(), code)
    } else {
        other_held(held.drop_last(), code).push(held.last())
    }
}

/// The held key with a code.
pub open spec fn held_key(held: Seq<HeldKey>, code: KeyCode) -> Option<HeldKey>
    decreases held.len(),
{
    if held.len() == 0 {
        None
    } else if held.last().code == code {
        Some(held.last())
    } else {
        held_key(held.drop_last(), code)
    }
}

/// The resizes of a list of panes.
pub open spec fn resizes(panes: Seq<PaneId>, size: PaneSize) -> Seq<EffectModel> {
    panes.map_values(|pane: PaneId| EffectModel::Plain(Effect::ResizePane { pane, size }))
}

impl AppModel {
    /// The application with a pane's view at the live screen.
    pub open spec fn snapped(self, pane: PaneId) -> AppModel {
        match pane_of(self.panes, pane) {
            Some(found) => self.with_panes(
                with_screen(self.panes, pane, found.screen.scrolled(0)),
            ),
            None => self,
        }
    }

    /// The application that passes on an event of a held key, unless the child
    /// that received the press, its protocol or its screen has changed.
    pub open spec fn held_written(self, held: HeldKey, key: KeyEvent) -> AppModel {
        match self.life(held.pane) {
            Some(life) => if self.ledger.generation(held.pane) == Some(held.generation)
                && life.protocol == held.protocol && life.screen_epoch == held.screen_epoch
                && life.alive {
                self.told(Effect::WriteHeld { pane: held.pane, encoding: held.encoding, key })
            } else {
                self
            },
            None => self,
        }
    }

    /// The application that passes a release on, if its press was passed on.
    #[verifier::opaque]
    pub open spec fn released(self, key: KeyEvent) -> AppModel {
        match held_key(self.held, key.code) {
            Some(held) => (AppModel { held: other_held(self.held, key.code), ..self }).held_written(
                held,
                key,
            ),
            None => self,
        }
    }

    /// The application with bytes written to a pane, if its process is alive.
    pub open spec fn written(self, pane: PaneId, bytes: Seq<u8>) -> AppModel {
        if self.alive(pane) {
            self.sent(EffectModel::Write(pane, bytes))
        } else {
            self
        }
    }

    /// The application that passes a key on to the selected terminal. `escape`
    /// is how the extended keyboard protocol codes the key there, if it does. A
    /// repeat follows its press; one whose press was not passed on, and which
    /// would be told apart from a press, is dropped.
    #[verifier::opaque]
    pub open spec fn key_forwarded(self, key: KeyEvent, escape: Option<u32>) -> AppModel {
        if key.kind == KeyEventKind::Repeat && held_key(self.held, key.code) is Some {
            self.held_written(held_key(self.held, key.code)->0, key)
        } else {
            match self.roster.selected_id() {
                None => self,
                Some(pane) => match self.life(pane) {
                    None => self,
                    Some(life) => match escape {
                        Some(encoding) => if key.kind == KeyEventKind::Repeat {
                            self
                        } else {
                            let snapped = self.snapped(pane);
                            let told = if life.alive {
                                snapped.told(Effect::WriteHeld { pane, encoding, key })
                            } else {
                                snapped
                            };
                            if key.kind == KeyEventKind::Press && self.ledger.generation(pane)
                                is Some {
                                AppModel {
                                    held: other_held(self.held, key.code).push(
                                        HeldKey {
                                            code: key.code,
                                            pane,
                                            generation: self.ledger.generation(pane)->0,
                                            encoding,
                                            protocol: life.protocol,
                                            screen_epoch: life.screen_epoch,
                                        },
                                    ),
                                    ..told
                                }
                            } else {
                                told
                            }
                        },
                        None => match key_bytes(key) {
                            Some(bytes) => {
                                let snapped = self.snapped(pane);
                                if life.alive {
                                    snapped.sent(EffectModel::Write(pane, bytes))
                                } else {
                                    snapped
                                }
                            },
                            None => self,
                        },
                    },
                },
            }
        }
    }

    /// The application after characters were typed into its form; control
    /// characters are left out.
    pub open spec fn typed(self, text: Seq<char>, now: Moment) -> AppModel
        decreases text.len(),
    {
        if text.len() == 0 {
            self
        } else {
            let rest = self.typed(text.drop_last(), now);
            if is_control(text.last()) {
                rest
            } else {
                rest.form_key(KeyCode::Char(text.last()), now)
            }
        }
    }

    /// The application after a paste: into an open form it types the characters,
    /// an attached terminal receives the text as one paste.
    #[verifier::opaque]
    pub open spec fn pasted(self, text: Seq<char>, now: Moment) -> AppModel {
        if text.len() == 0 {
            self
        } else if self.overlay matches Some(shown) && shown is Form {
            self.typed(text, now)
        } else if self.focus != Focus::Terminal {
            self
        } else {
            match self.roster.selected_id() {
                None => self,
                Some(pane) => match pane_of(self.panes, pane) {
                    None => self,
                    Some(found) => {
                        let snapped = self.snapped(pane);
                        if !found.life.alive {
                            snapped
                        } else if found.screen.modes.bracketed_paste {
                            snapped.sent(EffectModel::Write(pane, paste_start())).sent(
                                EffectModel::Write(pane, encode_utf8(text)),
                            ).sent(EffectModel::Write(pane, paste_end()))
                        } else {
                            snapped.sent(EffectModel::Write(pane, encode_utf8(text)))
                        }
                    },
                },
            }
        }
    }

    /// The application in another frame.
    #[verifier::opaque]
    pub open spec fn resized(self, area: Rect) -> AppModel {
        let size = inner_size(frame_areas(area).main);
        AppModel {
            canvas: Canvas { area },
            panes: all_resized(self.panes, size),
            outbox: self.outbox + resizes(alive_panes(self.panes), size),
            ..self
        }
    }

    /// The application without selection state: highlight, autoscroll, feedback
    /// deadline and the double-click candidate.
    pub open spec fn unselected(self) -> AppModel {
        AppModel {
            pointer: PointerModel {
                selection: None,
                view: None,
                autoscroll: None,
                autoscroll_deadline: None,
                clear_deadline: None,
                last_click: None,
                ..self.pointer
            },
            ..self
        }
    }
}

impl App {
    /// Passes on a repeat or release of a held key to the child that received
    /// the press, if that child is still the live process.
    pub fn write_held(&mut self, held: HeldKey, key: KeyEvent)
        ensures
            final(self)@ == old(self)@.held_written(held, key),
    {
        match self.ledger.generation(held.pane) {
            Some(generation) => {
                if generation != held.generation {
                    return;
                }
            },
            None => return,
        }
        if let Some(life) = self.panes.life(held.pane) {
            if life.protocol == held.protocol && life.screen_epoch == held.screen_epoch
                && life.alive {
                self.send(Effect::WriteHeld { pane: held.pane, encoding: held.encoding, key });
            }
        }
    }

    /// Returns the held key with a code.
    fn find_held(&self, code: KeyCode) -> (found: Option<HeldKey>)
        ensures
            found == held_key(self@.held, code),
    {
        let mut i: usize = self.held.len();
        assert(self@.held.take(i as int) =~= self@.held);
        while i > 0
            invariant
                i <= self.held@.len(),
                held_key(self@.held, code) == held_key(self@.held.take(i as int), code),
            decreases i,
        {
            assert(self@.held.take(i as int).last() == self.held@[i - 1]);
            assert(self@.held.take(i as int).drop_last() =~= self@.held.take(i - 1));
            i = i - 1;
            if self.held[i].code == code {
                return Some(self.held[i]);
            }
        }
        None
    }

    /// Forgets the held keys with a code.
    fn drop_held(&mut self, code: KeyCode)
        ensures
            final(self)@ == (AppModel { held: other_held(old(self)@.held, code), ..old(self)@ }),
    {
        let mut kept: Vec<HeldKey> = Vec::new();
        let mut i: usize = 0;
        assert(self.held@.take(0).len() == 0);
        while i < self.held.len()
            invariant
                i <= self.held@.len(),
                kept@ == other_held(self.held@.take(i as int), code),
            decreases self.held@.len() - i,
        {
            assert(self.held@.take(i + 1).drop_last() =~= self.held@.take(i as int));
            assert(self.held@.take(i + 1).last() == self.held@[i as int]);
            if self.held[i].code != code {
                kept.push(self.held[i]);
            }
            i = i + 1;
        }
        assert(self.held@.take(i as int) =~= self.held@);
        self.held = kept;
    }

    /// Relays a key release to the child whose matching press was forwarded.
    pub fn forward_release(&mut self, key: KeyEvent)
        ensures
            final(self)@ == old(self)@.released(key),
    {
        proof {
            reveal(AppModel::released);
        }
        if let Some(held) = self.find_held(key.code) {
            self.drop_held(key.code);
            self.write_held(held, key);
        }
    }

    /// Brings a pane's view to the live screen.
    fn snap(&mut self, pane: PaneId)
        ensures
            final(self)@ == old(self)@.snapped(pane),
    {
        self.panes.scroll_to(pane, 0);
    }

    /// Forwards a key press or repeat to the selected pane's process, if it is
    /// alive. Typing snaps a scrolled-back view down to the live screen first.
    pub fn forward_key(&mut self, key: KeyEvent, escape: Option<u32>)
        ensures
            final(self)@ == old(self)@.key_forwarded(key, escape),
    {
        proof {
            reveal(AppModel::key_forwarded);
        }
        if key.kind == KeyEventKind::Repeat {
            if let Some(held) = self.find_held(key.code) {
                self.write_held(held, key);
                return;
            }
        }
        let pane: PaneId = match self.selected_pane() {
            Some(pane) => pane,
            None => return,
        };
        let life = match self.panes.life(pane) {
            Some(life) => life,
            None => return,
        };
        match escape {
            Some(encoding) => {
                if key.kind == KeyEventKind::Repeat {
                    return;
                }
                self.snap(pane);
                if life.alive {
                    self.send(Effect::WriteHeld { pane, encoding, key });
                }
                if key.kind == KeyEventKind::Press {
                    if let Some(generation) = self.ledger.generation(pane) {
                        self.drop_held(key.code);
                        self.held.push(
                            HeldKey {
                                code: key.code,
                                pane,
                                generation,
                                encoding,
                                protocol: life.protocol,
                                screen_epoch: life.screen_epoch,
                            },
                        );
                    }
                }
            },
            None => {
                if let Some(bytes) = encode_key(key) {
                    self.snap(pane);
                    if life.alive {
                        self.send(Effect::Write { pane, bytes });
                    }
                }
            },
        }
    }

    /// Routes a paste from the host. Into an open form it inserts the
    /// characters; attached to a live terminal it forwards the text to the
    /// child, wrapped in paste markers when the child requested them. It is
    /// ignored elsewhere.
    pub fn handle_paste(&mut self, text: &String, now: Moment)
        ensures
            final(self)@ == old(self)@.pasted(text@, now),
    {
        proof {
            reveal(AppModel::pasted);
        }
        let whole: &str = text.as_str();
        let len: usize = whole.unicode_len();
        if len == 0 {
            return;
        }
        let typing: bool = match &self.overlay {
            Some(Overlay::Form(_)) => true,
            _ => false,
        };
        if typing {
            let mut i: usize = 0;
            while i < len
                invariant
                    whole@ == text@,
                    i <= len == text@.len(),
                    self@ == old(self)@.typed(text@.take(i as int), now),
                decreases len - i,
            {
                assert(text@.take(i + 1).drop_last() =~= text@.take(i as int));
                assert(text@.take(i + 1).last() == text@[i as int]);
                let c: char = whole.get_char(i);
                if !control(c) {
                    self.handle_form_key(
                        KeyEvent::new(KeyCode::Char(c), KeyModifiers::none()),
                        now,
                    );
                }
                i = i + 1;
            }
            assert(text@.take(i as int) =~= text@);
            return;
        }
        if self.focus != Focus::Terminal {
            return;
        }
        let pane: PaneId = match self.selected_pane() {
            Some(pane) => pane,
            None => return,
        };
        let (alive, bracketed): (bool, bool) = match self.panes.get(pane) {
            Some(found) => (found.life.alive, found.screen.bracketed_paste()),
            None => return,
        };
        self.snap(pane);
        if !alive {
            return;
        }
        let bytes: Vec<u8> = whole.as_bytes_vec();
        if bracketed {
            let start: Vec<u8> = vec![0x1bu8, 0x5bu8, 0x32u8, 0x30u8, 0x30u8, 0x7eu8];
            let end: Vec<u8> = vec![0x1bu8, 0x5bu8, 0x32u8, 0x30u8, 0x31u8, 0x7eu8];
            assert(start@ =~= paste_start());
            assert(end@ =~= paste_end());
            self.send(Effect::Write { pane, bytes: start });
            self.send(Effect::Write { pane, bytes });
            self.send(Effect::Write { pane, bytes: end });
        } else {
            self.send(Effect::Write { pane, bytes });
        }
    }

    /// Resizes every pane's terminal to match `area`.
    pub fn resize(&mut self, area: Rect)
        ensures
            final(self)@ == old(self)@.resized(area),
    {
        proof {
            reveal(AppModel::resized);
        }
        let size: PaneSize = pane_size_of(area);
        self.canvas = Canvas { area };
        let ids: Vec<PaneId> = self.panes.alive();
        self.panes.resize(size);
        let ghost before = self@;
        let mut i: usize = 0;
        assert(before.outbox + resizes(ids@.take(0), size) =~= before.outbox);
        while i < ids.len()
            invariant
                i <= ids@.len(),
                self@ == (AppModel {
                    outbox: before.outbox + resizes(ids@.take(i as int), size),
                    ..before
                }),
            decreases ids@.len() - i,
        {
            self.send(Effect::ResizePane { pane: ids[i], size });
            i = i + 1;
            assert(self@.outbox =~= before.outbox + resizes(ids@.take(i as int), size));
        }
        assert(ids@.take(i as int) =~= ids@);
    }

    /// Drops every piece of selection state.
    pub fn clear_selection(&mut self)
        ensures
            final(self)@ == old(self)@.unselected(),
    {
        self.pointer.selection = None;
        self.pointer.view = None;
        self.pointer.autoscroll = None;
        self.pointer.autoscroll_deadline = None;
        self.pointer.clear_deadline = None;
        self.pointer.last_click = None;
    }
}

} // verus!
