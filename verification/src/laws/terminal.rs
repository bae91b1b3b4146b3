//! An attached terminal: what is written to it, and what it is told.

use vstd::prelude::*;
use vstd::utf8::encode_utf8;
use crate::app::forwarding::{held_key, other_held};
use crate::app::signals::{ProcessOutput, Signal};
use crate::app::{AppModel, Focus, HeldKey};
use crate::effect::{Effect, EffectModel};
use crate::event::{InputEvent, RuntimeEvent};
use crate::geometry::{frame_areas, PaneSize, Rect};
use crate::input::{key_bytes, leads, KeyEvent, KeyEventKind};
use crate::laws::{fresh, lives_are_kept};
use crate::moment::Moment;
use crate::overlay::OverlayModel;
use crate::pane::{
    a_lifetime_change_touches_one_pane, a_screen_change_touches_one_pane, alive_panes, pane_of,
    PaneLife, PaneModel,
};
use crate::process::PaneId;

verus! {

/// Whether the keys go to a process that is alive.
pub open spec fn attached(app: AppModel, pane: PaneId) -> bool {
    &&& app.overlay is None
    &&& app.focus == Focus::Terminal
    &&& app.roster.selected_id() == Some(pane)
    &&& app.life(pane) is Some
    &&& app.life(pane)->0.alive
}

/// The application after a key event.
pub open spec fn typed(app: AppModel, key: KeyEvent, escape: Option<u32>, now: Moment) -> AppModel {
    app.handled(RuntimeEvent::Input(InputEvent::Key { key, escape }), now)
}

/// A key typed in a terminal is written to the selected process, as its bytes and
/// once, and its pane shows the newest lines again. Nobody else hears of it.
pub proof fn a_key_is_written_to_the_selected_process(
    app: AppModel,
    pane: PaneId,
    key: KeyEvent,
    now: Moment,
)
    requires
        attached(app, pane),
        key.kind == KeyEventKind::Press,
        !leads(key),
    ensures
        ({
            let after = typed(app, key, None, now);
            &&& key_bytes(key) matches Some(bytes) ==> after.outbox == app.outbox.push(
                EffectModel::Write(pane, bytes),
            ) && pane_of(after.panes, pane)->0.screen.display_offset == 0
            &&& key_bytes(key) is None ==> after == fresh(app)
            &&& after.roster == app.roster
            &&& after.focus == Focus::Terminal
            &&& after.waiting == app.waiting
        }),
{
    reveal(AppModel::handled);
    reveal(AppModel::input_handled);
    reveal(AppModel::key_handled);
    reveal(AppModel::focused_key);
    reveal(AppModel::key_forwarded);
    let found = pane_of(app.panes, pane)->0;
    a_screen_change_touches_one_pane(app.panes, pane, found.screen.scrolled(0), pane);
}

/// A key that the terminal encodes itself is written by that encoding, and is held
/// down from then on for that run of the process. Its repeats and its release are
/// written in the same way as long as the run, and what the program asked for,
/// stay the same; the release ends it.
pub proof fn a_held_key_is_released_where_it_was_pressed(
    app: AppModel,
    pane: PaneId,
    key: KeyEvent,
    encoding: u32,
    later: AppModel,
    up: KeyEvent,
    now: Moment,
)
    requires
        attached(app, pane),
        key.kind == KeyEventKind::Press,
        !leads(key),
        app.ledger.generation(pane) is Some,
        up.code == key.code,
        up.kind == KeyEventKind::Release,
        later.held == typed(app, key, Some(encoding), now).held,
        later.life(pane) is Some,
    ensures
        ({
            let down = typed(app, key, Some(encoding), now);
            let released = typed(later, up, None, now);
            let life = app.life(pane)->0;
            let held = later.life(pane)->0;
            let same = later.ledger.generation(pane) == app.ledger.generation(pane)
                && held.protocol == life.protocol && held.screen_epoch == life.screen_epoch
                && held.alive;
            &&& down.outbox == app.outbox.push(
                EffectModel::Plain(Effect::WriteHeld { pane, encoding, key }),
            )
            &&& down.held.last() == (HeldKey {
                code: key.code,
                pane,
                generation: app.ledger.generation(pane)->0,
                encoding,
                protocol: life.protocol,
                screen_epoch: life.screen_epoch,
            })
            &&& pane_of(down.panes, pane)->0.screen.display_offset == 0
            &&& same ==> released.outbox == later.outbox.push(
                EffectModel::Plain(Effect::WriteHeld { pane, encoding, key: up }),
            )
            &&& !same ==> released.outbox == later.outbox
            &&& held_key(released.held, key.code) is None
        }),
{
    reveal(AppModel::handled);
    reveal(AppModel::input_handled);
    reveal(AppModel::key_handled);
    reveal(AppModel::focused_key);
    reveal(AppModel::key_forwarded);
    reveal(AppModel::released);
    let found = pane_of(app.panes, pane)->0;
    a_screen_change_touches_one_pane(app.panes, pane, found.screen.scrolled(0), pane);
    let down = typed(app, key, Some(encoding), now);
    assert(down.held.last().code == key.code);
    assert(held_key(later.held, up.code) == Some(down.held.last()));
    nothing_held(later.held, key.code);
}

proof fn nothing_held(held: Seq<HeldKey>, code: crate::input::KeyCode)
    ensures
        held_key(other_held(held, code), code) is None,
    decreases held.len(),
{
    if held.len() > 0 {
        nothing_held(held.drop_last(), code);
        if held.last().code != code {
            let rest = other_held(held.drop_last(), code);
            assert(other_held(held, code).drop_last() =~= rest);
        }
    }
}

/// A pasted text goes to the selected process as its UTF-8 bytes, between the
/// brackets `ESC [ 200 ~` and `ESC [ 201 ~` where the program asked for them.
pub proof fn a_paste_is_written_whole(app: AppModel, pane: PaneId, text: String, now: Moment)
    requires
        attached(app, pane),
        text@.len() > 0,
    ensures
        ({
            let after = app.handled(RuntimeEvent::Input(InputEvent::Paste(text)), now);
            let bracketed = pane_of(app.panes, pane)->0.screen.modes.bracketed_paste;
            &&& bracketed ==> after.outbox == app.outbox.push(
                EffectModel::Write(pane, seq![0x1bu8, 0x5bu8, 0x32u8, 0x30u8, 0x30u8, 0x7eu8]),
            ).push(EffectModel::Write(pane, encode_utf8(text@))).push(
                EffectModel::Write(pane, seq![0x1bu8, 0x5bu8, 0x32u8, 0x30u8, 0x31u8, 0x7eu8]),
            )
            &&& !bracketed ==> after.outbox == app.outbox.push(
                EffectModel::Write(pane, encode_utf8(text@)),
            )
            &&& pane_of(after.panes, pane)->0.screen.display_offset == 0
            &&& after.roster == app.roster
        }),
{
    reveal(AppModel::handled);
    reveal(AppModel::input_handled);
    reveal(AppModel::pasted);
    let found = pane_of(app.panes, pane)->0;
    a_screen_change_touches_one_pane(app.panes, pane, found.screen.scrolled(0), pane);
}

/// An empty paste, and a paste while the keys go elsewhere, write nothing.
pub proof fn a_paste_elsewhere_writes_nothing(app: AppModel, text: String, now: Moment)
    requires
        text@.len() == 0 || app.focus != Focus::Terminal,
        !(app.overlay is Some && app.overlay->0 is Form),
    ensures
        app.handled(RuntimeEvent::Input(InputEvent::Paste(text)), now) == app,
{
    reveal(AppModel::handled);
    reveal(AppModel::input_handled);
    reveal(AppModel::pasted);
}

/// A paste into a form types its characters one after the other, without the
/// control characters.
pub proof fn a_paste_fills_a_form(app: AppModel, text: String, now: Moment)
    requires
        app.overlay is Some,
        app.overlay->0 is Form,
        text@.len() > 0,
    ensures
        ({
            let c = text@.last();
            let control = (c as int) < 0x20 || 0x7f <= c as int <= 0x9f;
            let before = app.typed(text@.drop_last(), now);
            let after = app.handled(RuntimeEvent::Input(InputEvent::Paste(text)), now);
            &&& control ==> after == before
            &&& !control ==> after == before.form_key(crate::input::KeyCode::Char(c), now)
            &&& app.typed(Seq::empty(), now) == app
        }),
{
    reveal(AppModel::handled);
    reveal(AppModel::input_handled);
    reveal(AppModel::pasted);
}

/// A resized window gives each pane the size of the main area without its border,
/// and each child that is alive is told of it, in the order of the panes.
pub proof fn a_resize_reaches_every_pane(app: AppModel, width: u16, height: u16, i: int, now: Moment)
    requires
        0 <= i < app.panes.len(),
    ensures
        ({
            let after = app.handled(RuntimeEvent::Input(InputEvent::Resize { width, height }), now);
            let size = after.pane_size();
            let live = alive_panes(app.panes);
            &&& after.canvas.area == (Rect { x: 0, y: 0, width, height })
            &&& after.panes.len() == app.panes.len()
            &&& after.panes[i] == (PaneModel {
                screen: app.panes[i].screen.resized(size.rows, size.cols),
                ..app.panes[i]
            })
            &&& after.outbox.len() == app.outbox.len() + live.len()
            &&& after.outbox.take(app.outbox.len() as int) == app.outbox
            &&& forall|k: int|
                0 <= k < live.len() ==> #[trigger] after.outbox[app.outbox.len() + k]
                    == EffectModel::Plain(Effect::ResizePane { pane: live[k], size })
            &&& after.roster == app.roster
        }),
{
    reveal(AppModel::handled);
    reveal(AppModel::input_handled);
    reveal(AppModel::resized);
    let after = app.handled(RuntimeEvent::Input(InputEvent::Resize { width, height }), now);
    assert(after.outbox.take(app.outbox.len() as int) =~= app.outbox);
}

/// What a running child writes reaches its own screen, with what the program asks
/// of the keyboard; output of an earlier run reaches nothing.
pub proof fn output_reaches_its_own_screen(
    app: AppModel,
    pane: PaneId,
    generation: u64,
    bytes: Vec<u8>,
    signals: Vec<Signal>,
    protocol: u8,
    screen_epoch: u64,
    other: PaneId,
    now: Moment,
)
    requires
        app.life(pane) is Some,
        signals@.len() == 0,
    ensures
        ({
            let after = app.handled(
                RuntimeEvent::Output {
                    pane,
                    generation,
                    output: ProcessOutput::Chunk { bytes, signals, protocol, screen_epoch },
                },
                now,
            );
            let before = pane_of(app.panes, pane)->0;
            let current = app.ledger.generation(pane) == Some(generation);
            &&& !current ==> after == app
            &&& current ==> pane_of(after.panes, pane) == Some(
                PaneModel {
                    id: before.id,
                    screen: before.screen.processed(bytes@),
                    life: PaneLife { protocol, screen_epoch, ..before.life },
                },
            )
            &&& current && other != pane ==> pane_of(after.panes, other) == pane_of(
                app.panes,
                other,
            )
            &&& after.roster == app.roster
            &&& after.outbox == app.outbox
        }),
{
    reveal(AppModel::handled);
    reveal(AppModel::output_handled);
    let before = pane_of(app.panes, pane)->0;
    let screen = before.screen.processed(bytes@);
    a_screen_change_touches_one_pane(app.panes, pane, screen, pane);
    a_screen_change_touches_one_pane(app.panes, pane, screen, other);
    let fed = crate::pane::with_screen(app.panes, pane, screen);
    let life = PaneLife { protocol, screen_epoch, ..before.life };
    a_lifetime_change_touches_one_pane(fed, pane, life, pane);
    a_lifetime_change_touches_one_pane(fed, pane, life, other);
}

/// A key that is held down is written again by the encoding of its press, as long as
/// the process is the same run of the same program.
pub proof fn a_repeated_key_is_written_again(
    app: AppModel,
    pane: PaneId,
    key: KeyEvent,
    held: HeldKey,
    escape: Option<u32>,
    now: Moment,
)
    requires
        app.overlay is None,
        app.focus == Focus::Terminal,
        key.kind == KeyEventKind::Repeat,
        held_key(app.held, key.code) == Some(held),
        app.life(held.pane) is Some,
    ensures
        ({
            let after = typed(app, key, escape, now);
            let life = app.life(held.pane)->0;
            let same = app.ledger.generation(held.pane) == Some(held.generation) && life.protocol
                == held.protocol && life.screen_epoch == held.screen_epoch && life.alive;
            &&& same ==> after.outbox == app.outbox.push(
                EffectModel::Plain(
                    Effect::WriteHeld { pane: held.pane, encoding: held.encoding, key },
                ),
            )
            &&& !same ==> after.outbox == app.outbox
            &&& after.held == app.held
        }),
{
    reveal(AppModel::handled);
    reveal(AppModel::input_handled);
    reveal(AppModel::key_handled);
    reveal(AppModel::focused_key);
    reveal(AppModel::key_forwarded);
}

/// A key that repeats without being held is written like a press.
pub proof fn a_repeated_plain_key_is_written(
    app: AppModel,
    pane: PaneId,
    key: KeyEvent,
    now: Moment,
)
    requires
        attached(app, pane),
        key.kind == KeyEventKind::Repeat,
        held_key(app.held, key.code) is None,
        key_bytes(key) is Some,
    ensures
        typed(app, key, None, now).outbox == app.outbox.push(
            EffectModel::Write(pane, key_bytes(key)->0),
        ),
{
    reveal(AppModel::handled);
    reveal(AppModel::input_handled);
    reveal(AppModel::key_handled);
    reveal(AppModel::focused_key);
    reveal(AppModel::key_forwarded);
}

} // verus!
