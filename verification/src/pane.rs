//! Managed panes: the terminal of a process and its lifetime.

use vstd::prelude::*;
use crate::activity::ActivityTracker;
use crate::emulator::{Screen, TerminalEmulator};
use crate::engine::{MIN_COLUMNS, MIN_ROWS};
use crate::geometry::PaneSize;
use crate::moment::Moment;
use crate::process::{AgentActivitySource, ExitIntent, PaneId};
use crate::text::copy_opt;

verus! {

/// Whether a pane still belongs to the current config.
#[derive(Debug, Clone, Copy, PartialEq, Eq, Structural)]
pub enum ConfigMembership {
    /// The pane is represented by a current process specification.
    Listed,
    /// The live pane was removed from the config and must disappear when it
    /// exits.
    RetireOnExit,
}

/// The lifetime of a pane's process.
#[derive(Debug)]
pub struct PaneLife {
    /// Unique scope for identifiers emitted by this terminal lifetime.
    pub notification_scope: u64,
    /// Evidence for working, idle and attention transitions.
    pub activity: ActivityTracker,
    /// Last bell accepted from this terminal lifetime.
    pub last_bell: Option<Moment>,
    /// When the bell of a background pane becomes a desktop alert.
    pub pending_bell: Option<Moment>,
    /// The process is alive.
    pub alive: bool,
    /// When the process started.
    pub started_at: Moment,
    /// What its exit is to lead to.
    pub exit_intent: ExitIntent,
    /// Counts the shutdown requests, so that a stale deadline is told apart.
    pub shutdown_generation: u64,
    /// Whether the pane still belongs to the config.
    pub membership: ConfigMembership,
    /// The keyboard protocol that the child negotiated.
    pub protocol: u8,
    /// Counts the changes between the main and the alternate screen.
    pub screen_epoch: u64,
}

impl PaneLife {
    /// The lifetime of a process that just started.
    pub open spec fn started(scope: u64, source: AgentActivitySource, now: Moment) -> PaneLife {
        PaneLife {
            notification_scope: scope,
            activity: ActivityTracker::fresh(source),
            last_bell: None,
            pending_bell: None,
            alive: true,
            started_at: now,
            exit_intent: ExitIntent::FollowPolicy,
            shutdown_generation: 0,
            membership: ConfigMembership::Listed,
            protocol: 0,
            screen_epoch: 0,
        }
    }

    /// The lifetime after its process is gone. A bell only matters while its
    /// child can still need attention.
    pub open spec fn deactivated(self) -> PaneLife {
        PaneLife {
            activity: self.activity.cleared(),
            pending_bell: None,
            alive: false,
            exit_intent: ExitIntent::FollowPolicy,
            ..self
        }
    }

    /// Returns the lifetime of a process that just started.
    pub fn start(scope: u64, activity: ActivityTracker, now: Moment) -> (life: PaneLife)
        requires
            activity == ActivityTracker::fresh(activity.strategy),
        ensures
            life == PaneLife::started(scope, activity.strategy, now),
    {
        PaneLife {
            notification_scope: scope,
            activity,
            last_bell: None,
            pending_bell: None,
            alive: true,
            started_at: now,
            exit_intent: ExitIntent::FollowPolicy,
            shutdown_generation: 0,
            membership: ConfigMembership::Listed,
            protocol: 0,
            screen_epoch: 0,
        }
    }

    /// Drops the process.
    pub fn deactivate(&mut self)
        ensures
            *final(self) == old(self).deactivated(),
    {
        self.activity.reset();
        self.pending_bell = None;
        self.alive = false;
        self.exit_intent = ExitIntent::FollowPolicy;
    }

    /// Returns a copy of the lifetime.
    pub fn copied(&self) -> (copy: PaneLife)
        ensures
            copy == *self,
    {
        PaneLife {
            notification_scope: self.notification_scope,
            activity: ActivityTracker {
                strategy: self.activity.strategy,
                evidence: self.activity.evidence,
                last_title: copy_opt(&self.activity.last_title),
            },
            last_bell: self.last_bell,
            pending_bell: self.pending_bell,
            alive: self.alive,
            started_at: self.started_at,
            exit_intent: self.exit_intent,
            shutdown_generation: self.shutdown_generation,
            membership: self.membership,
            protocol: self.protocol,
            screen_epoch: self.screen_epoch,
        }
    }
}

/// One managed pane: its screen and the lifetime of its process. The screen
/// outlives the process, so that a finished process keeps its last screen.
pub struct Pane {
    /// Pane.
    pub id: PaneId,
    /// Screen.
    pub screen: TerminalEmulator,
    /// Lifetime.
    pub life: PaneLife,
}

/// What a pane holds.
#[verifier::ext_equal]
pub struct PaneModel {
    /// Pane.
    pub id: PaneId,
    /// Screen.
    pub screen: Screen,
    /// Lifetime.
    pub life: PaneLife,
}

impl View for Pane {
    type V = PaneModel;

    open spec fn view(&self) -> PaneModel {
        PaneModel { id: self.id, screen: self.screen@, life: self.life }
    }
}

/// The managed panes.
pub struct Panes {
    /// Panes.
    pub list: Vec<Pane>,
}

/// What each pane holds.
pub open spec fn pane_models(list: Seq<Pane>) -> Seq<PaneModel> {
    list.map_values(|pane: Pane| pane@)
}

impl View for Panes {
    type V = Seq<PaneModel>;

    open spec fn view(&self) -> Seq<PaneModel> {
        pane_models(self.list@)
    }
}

/// The place of a pane.
pub open spec fn pane_place(panes: Seq<PaneModel>, id: PaneId) -> Option<int>
    decreases panes.len(),
{
    if panes.len() == 0 {
        None
    } else {
        match pane_place(panes.drop_last(), id) {
            Some(index) => Some(index),
            None => if panes.last().id == id {
                Some(panes.len() - 1)
            } else {
                None
            },
        }
    }
}

/// The place found holds the pane, and none before it does.
pub proof fn pane_place_is_the_first(panes: Seq<PaneModel>, id: PaneId)
    ensures
        pane_place(panes, id) matches Some(index) ==> 0 <= index < panes.len() && panes[index].id
            == id && forall|i: int| 0 <= i < index ==> (#[trigger] panes[i]).id != id,
        pane_place(panes, id) is None ==> forall|i: int|
            0 <= i < panes.len() ==> (#[trigger] panes[i]).id != id,
    decreases panes.len(),
{
    if panes.len() > 0 {
        let rest = panes.drop_last();
        pane_place_is_the_first(rest, id);
        assert forall|i: int| 0 <= i < rest.len() implies rest[i] == panes[i] by {}
    }
}

/// The first place that holds a pane is its place.
pub proof fn pane_place_unique(panes: Seq<PaneModel>, id: PaneId, index: int)
    requires
        0 <= index < panes.len(),
        panes[index].id == id,
        forall|i: int| 0 <= i < index ==> (#[trigger] panes[i]).id != id,
    ensures
        pane_place(panes, id) == Some(index),
{
    pane_place_is_the_first(panes, id);
}

/// The pane with an identity.
pub open spec fn pane_of(panes: Seq<PaneModel>, id: PaneId) -> Option<PaneModel> {
    match pane_place(panes, id) {
        Some(index) => Some(panes[index]),
        None => None,
    }
}

/// The lifetime of a pane.
pub open spec fn life_of(panes: Seq<PaneModel>, id: PaneId) -> Option<PaneLife> {
    match pane_of(panes, id) {
        Some(pane) => Some(pane.life),
        None => None,
    }
}

/// Whether a pane's process is alive.
pub open spec fn pane_alive(panes: Seq<PaneModel>, id: PaneId) -> bool {
    life_of(panes, id) matches Some(life) && life.alive
}

/// Whether a pane is to disappear when its process exits.
pub open spec fn pane_retiring(panes: Seq<PaneModel>, id: PaneId) -> bool {
    life_of(panes, id) matches Some(life) && life.membership == ConfigMembership::RetireOnExit
}

/// The panes with another lifetime in one of them.
pub open spec fn with_life(panes: Seq<PaneModel>, id: PaneId, life: PaneLife) -> Seq<PaneModel> {
    match pane_place(panes, id) {
        Some(index) => panes.update(index, PaneModel { life, ..panes[index] }),
        None => panes,
    }
}

/// A pane with its terminal in another size.
pub open spec fn pane_resized(pane: PaneModel, size: PaneSize) -> PaneModel {
    PaneModel { screen: pane.screen.resized(size.rows, size.cols), ..pane }
}

/// The panes with their terminals in another size.
pub open spec fn all_resized(panes: Seq<PaneModel>, size: PaneSize) -> Seq<PaneModel> {
    panes.map_values(|pane: PaneModel| pane_resized(pane, size))
}

/// The panes with another screen in one of them.
pub open spec fn with_screen(panes: Seq<PaneModel>, id: PaneId, screen: Screen) -> Seq<PaneModel> {
    match pane_place(panes, id) {
        Some(index) => panes.update(index, PaneModel { screen, ..panes[index] }),
        None => panes,
    }
}

/// The panes with a pane, in the place of an earlier one with its identity.
pub open spec fn with_pane(panes: Seq<PaneModel>, pane: PaneModel) -> Seq<PaneModel> {
    match pane_place(panes, pane.id) {
        Some(index) => panes.update(index, pane),
        None => panes.push(pane),
    }
}

/// The panes without one.
pub open spec fn without_pane(panes: Seq<PaneModel>, id: PaneId) -> Seq<PaneModel> {
    match pane_place(panes, id) {
        Some(index) => panes.remove(index),
        None => panes,
    }
}

/// The identities of the panes whose process is alive.
pub open spec fn alive_panes(panes: Seq<PaneModel>) -> Seq<PaneId>
    decreases panes.len(),
{
    if panes.len() == 0 {
        Seq::empty()
    } else {
        let rest = alive_panes(panes.drop_last());
        if panes.last().life.alive {
            rest.push(panes.last().id)
        } else {
            rest
        }
    }
}

/// A pane is listed as alive exactly when some entry of its identity is.
pub proof fn alive_panes_are_alive(panes: Seq<PaneModel>, id: PaneId)
    ensures
        alive_panes(panes).contains(id) <==> exists|i: int|
            0 <= i < panes.len() && (#[trigger] panes[i]).id == id && panes[i].life.alive,
    decreases panes.len(),
{
    if panes.len() > 0 {
        let rest = panes.drop_last();
        alive_panes_are_alive(rest, id);
        assert forall|i: int| 0 <= i < rest.len() implies rest[i] == panes[i] by {}
        let list = alive_panes(panes);
        let shorter = alive_panes(rest);
        if shorter.contains(id) {
            let k = choose|k: int| 0 <= k < shorter.len() && shorter[k] == id;
            assert(list[k] == id);
            let i = choose|i: int|
                0 <= i < rest.len() && (#[trigger] rest[i]).id == id && rest[i].life.alive;
            assert(panes[i].id == id && panes[i].life.alive);
        }
        if panes.last().life.alive && panes.last().id == id {
            assert(list.last() == id);
            assert(panes[panes.len() - 1].id == id);
        }
        if list.contains(id) && !shorter.contains(id) {
            let k = choose|k: int| 0 <= k < list.len() && list[k] == id;
            assert(k == list.len() - 1);
        }
        if exists|i: int| 0 <= i < panes.len() && (#[trigger] panes[i]).id == id
            && panes[i].life.alive {
            let i = choose|i: int|
                0 <= i < panes.len() && (#[trigger] panes[i]).id == id && panes[i].life.alive;
            if i < rest.len() {
                assert(rest[i].id == id && rest[i].life.alive);
            }
        }
    }
}

impl Panes {
    /// No pane.
    pub fn new() -> (panes: Self)
        ensures
            panes@ == Seq::<PaneModel>::empty(),
    {
        let panes: Panes = Panes { list: Vec::new() };
        assert(panes@ =~= Seq::<PaneModel>::empty());
        panes
    }

    /// Returns the place of a pane.
    pub fn place(&self, id: PaneId) -> (found: Option<usize>)
        ensures
            match found {
                Some(index) => pane_place(self@, id) == Some(index as int) && index
                    < self.list@.len(),
                None => pane_place(self@, id) is None,
            },
    {
        let mut i: usize = 0;
        while i < self.list.len()
            invariant
                i <= self.list@.len(),
                forall|j: int| 0 <= j < i ==> (#[trigger] self@[j]).id != id,
            decreases self.list@.len() - i,
        {
            if self.list[i].id == id {
                proof {
                    assert(self@[i as int].id == id);
                    pane_place_unique(self@, id, i as int);
                }
                return Some(i);
            }
            assert(self@[i as int].id != id);
            i = i + 1;
        }
        proof {
            pane_place_is_the_first(self@, id);
        }
        None
    }

    /// Returns the pane with an identity.
    pub fn get(&self, id: PaneId) -> (found: Option<&Pane>)
        ensures
            match found {
                Some(pane) => pane_of(self@, id) == Some(pane@),
                None => pane_of(self@, id) is None,
            },
    {
        match self.place(id) {
            Some(index) => {
                assert(self@[index as int] == self.list@[index as int]@);
                Some(&self.list[index])
            },
            None => None,
        }
    }

    /// Returns a copy of the lifetime of a pane.
    pub fn life(&self, id: PaneId) -> (life: Option<PaneLife>)
        ensures
            life == life_of(self@, id),
    {
        match self.get(id) {
            Some(pane) => Some(pane.life.copied()),
            None => None,
        }
    }

    /// Returns whether a pane's process is alive.
    pub fn is_alive(&self, id: PaneId) -> (alive: bool)
        ensures
            alive == pane_alive(self@, id),
    {
        match self.get(id) {
            Some(pane) => pane.life.alive,
            None => false,
        }
    }

    /// Returns whether a pane is to disappear when its process exits.
    pub fn is_retiring(&self, id: PaneId) -> (retiring: bool)
        ensures
            retiring == pane_retiring(self@, id),
    {
        match self.get(id) {
            Some(pane) => pane.life.membership == ConfigMembership::RetireOnExit,
            None => false,
        }
    }

    /// Replaces the lifetime of a pane.
    pub fn set_life(&mut self, id: PaneId, life: PaneLife)
        ensures
            final(self)@ == with_life(old(self)@, id, life),
    {
        if let Some(index) = self.place(id) {
            self.list[index].life = life;
            assert(self@ =~= with_life(old(self)@, id, life));
        }
    }

    /// Feeds output to the terminal of a pane.
    pub fn process(&mut self, id: PaneId, bytes: &Vec<u8>)
        ensures
            final(self)@ == match pane_of(old(self)@, id) {
                Some(pane) => with_screen(old(self)@, id, pane.screen.processed(bytes@)),
                None => old(self)@,
            },
    {
        if let Some(index) = self.place(id) {
            self.list[index].screen.process(bytes);
            assert(self@ =~= with_screen(
                old(self)@,
                id,
                pane_of(old(self)@, id)->0.screen.processed(bytes@),
            ));
        }
    }

    /// Gives every pane's terminal another size.
    pub fn resize(&mut self, size: PaneSize)
        requires
            size.rows >= MIN_ROWS,
            size.cols >= MIN_COLUMNS,
        ensures
            final(self)@ == all_resized(old(self)@, size),
    {
        let mut i: usize = 0;
        while i < self.list.len()
            invariant
                size.rows >= MIN_ROWS,
                size.cols >= MIN_COLUMNS,
                i <= self.list@.len(),
                self.list@.len() == old(self).list@.len(),
                forall|k: int|
                    0 <= k < i ==> (#[trigger] self.list@[k])@ == pane_resized(
                        old(self).list@[k]@,
                        size,
                    ),
                forall|k: int| i <= k < self.list@.len() ==> self.list@[k] == old(self).list@[k],
            decreases self.list@.len() - i,
        {
            self.list[i].screen.set_size(size.rows, size.cols);
            i = i + 1;
        }
        assert(self@ =~= all_resized(old(self)@, size));
    }

    /// Scrolls the view of a pane.
    pub fn scroll_to(&mut self, id: PaneId, offset: usize)
        ensures
            final(self)@ == match pane_of(old(self)@, id) {
                Some(pane) => with_screen(old(self)@, id, pane.screen.scrolled(offset)),
                None => old(self)@,
            },
    {
        if let Some(index) = self.place(id) {
            self.list[index].screen.set_scrollback(offset);
            assert(self@ =~= with_screen(
                old(self)@,
                id,
                pane_of(old(self)@, id)->0.screen.scrolled(offset),
            ));
        }
    }

    /// Puts a pane in, replacing an earlier one with its identity.
    pub fn put(&mut self, pane: Pane)
        ensures
            final(self)@ == with_pane(old(self)@, pane@),
    {
        match self.place(pane.id) {
            Some(index) => {
                self.list[index] = pane;
                assert(self@ =~= with_pane(old(self)@, pane@));
            },
            None => {
                self.list.push(pane);
                assert(self@ =~= with_pane(old(self)@, pane@));
            },
        }
    }

    /// Takes a pane out.
    pub fn remove(&mut self, id: PaneId)
        ensures
            final(self)@ == without_pane(old(self)@, id),
    {
        if let Some(index) = self.place(id) {
            self.list.remove(index);
            assert(self@ =~= without_pane(old(self)@, id));
        }
    }

    /// Returns the identities of the panes whose process is alive.
    pub fn alive(&self) -> (ids: Vec<PaneId>)
        ensures
            ids@ == alive_panes(self@),
    {
        let mut ids: Vec<PaneId> = Vec::new();
        let mut i: usize = 0;
        assert(self@.take(0) =~= Seq::<PaneModel>::empty());
        while i < self.list.len()
            invariant
                i <= self.list@.len(),
                ids@ == alive_panes(self@.take(i as int)),
            decreases self.list@.len() - i,
        {
            assert(self@.take(i + 1).drop_last() =~= self@.take(i as int));
            assert(self@.take(i + 1).last() == self.list@[i as int]@);
            if self.list[i].life.alive {
                ids.push(self.list[i].id);
            }
            i = i + 1;
        }
        assert(self@.take(i as int) =~= self@);
        ids
    }
}

/// A change of one pane's lifetime leaves its screen, and every other pane, as
/// they were.
pub proof fn a_lifetime_change_touches_one_pane(
    panes: Seq<PaneModel>,
    id: PaneId,
    life: PaneLife,
    other: PaneId,
)
    ensures
        pane_place(with_life(panes, id, life), other) == pane_place(panes, other),
        other != id ==> pane_of(with_life(panes, id, life), other) == pane_of(panes, other),
        pane_of(panes, id) matches Some(pane) ==> pane_of(with_life(panes, id, life), id) == Some(
            PaneModel { life, ..pane },
        ),
{
    let after = with_life(panes, id, life);
    pane_place_is_the_first(panes, id);
    pane_place_is_the_first(panes, other);
    pane_place_is_the_first(after, other);
    assert(after.len() == panes.len());
    assert forall|i: int| 0 <= i < panes.len() implies (#[trigger] after[i]).id == panes[i].id by {}
    match pane_place(panes, other) {
        Some(index) => {
            assert(after[index].id == other);
            assert forall|i: int| 0 <= i < index implies (#[trigger] after[i]).id != other by {
                assert(panes[i].id != other);
            }
            pane_place_unique(after, other, index);
        },
        None => {
            match pane_place(after, other) {
                Some(index) => {
                    assert(panes[index].id == other);
                },
                None => {},
            }
        },
    }
    pane_place_is_the_first(after, id);
    match pane_place(panes, id) {
        Some(index) => {
            assert(after[index].id == id);
            assert forall|i: int| 0 <= i < index implies (#[trigger] after[i]).id != id by {
                assert(panes[i].id != id);
            }
            pane_place_unique(after, id, index);
        },
        None => {},
    }
}

/// A finished process keeps its last screen.
pub proof fn a_finished_process_keeps_its_screen(panes: Seq<PaneModel>, id: PaneId)
    ensures
        pane_of(panes, id) matches Some(pane) ==> pane_of(
            with_life(panes, id, pane.life.deactivated()),
            id,
        ) matches Some(after) && after.screen == pane.screen && !after.life.alive,
{
    match pane_of(panes, id) {
        Some(pane) => a_lifetime_change_touches_one_pane(panes, id, pane.life.deactivated(), id),
        None => {},
    }
}

/// A pane that is put is found, with what it was put with; a pane that is taken
/// out, once, is found no more; and neither touches the other panes.
pub proof fn panes_are_put_and_removed(panes: Seq<PaneModel>, pane: PaneModel, other: PaneId)
    ensures
        pane_of(with_pane(panes, pane), pane.id) == Some(pane),
        other != pane.id ==> pane_of(with_pane(panes, pane), other) == pane_of(panes, other),
        other != pane.id ==> pane_of(without_pane(panes, pane.id), other) == pane_of(panes, other),
        pane_of(panes, pane.id) is None ==> without_pane(with_pane(panes, pane), pane.id) == panes,
{
    let put = with_pane(panes, pane);
    pane_place_is_the_first(panes, pane.id);
    pane_place_is_the_first(panes, other);
    pane_place_is_the_first(put, pane.id);
    pane_place_is_the_first(put, other);
    let at = match pane_place(panes, pane.id) {
        Some(index) => index,
        None => panes.len() as int,
    };
    assert(put[at] == pane);
    assert forall|i: int| 0 <= i < at implies (#[trigger] put[i]).id != pane.id by {
        assert(panes[i].id != pane.id);
    }
    pane_place_unique(put, pane.id, at);
    if pane_place(panes, pane.id) is None {
        assert(put.remove(at) =~= panes);
    }
    if other != pane.id {
        match pane_place(panes, other) {
            Some(index) => {
                assert(put[index] == panes[index]);
                assert forall|i: int| 0 <= i < index implies (#[trigger] put[i]).id != other by {
                    if i != at {
                        assert(panes[i].id != other);
                    }
                }
                pane_place_unique(put, other, index);
            },
            None => {
                match pane_place(put, other) {
                    Some(index) => {
                        assert(index != at);
                        assert(panes[index].id == other);
                    },
                    None => {},
                }
            },
        }
        removal_spares(panes, pane.id, other);
    }
}

proof fn removal_spares(panes: Seq<PaneModel>, id: PaneId, other: PaneId)
    requires
        other != id,
    ensures
        pane_of(without_pane(panes, id), other) == pane_of(panes, other),
{
    let rest = without_pane(panes, id);
    pane_place_is_the_first(panes, id);
    pane_place_is_the_first(panes, other);
    pane_place_is_the_first(rest, other);
    match pane_place(panes, id) {
        Some(gone) => match pane_place(panes, other) {
            Some(index) => {
                let place = if index < gone {
                    index
                } else {
                    index - 1
                };
                assert(rest[place] == panes[index]);
                assert forall|i: int| 0 <= i < place implies (#[trigger] rest[i]).id != other by {
                    if i < gone {
                        assert(panes[i].id != other);
                    } else {
                        assert(panes[i + 1].id != other);
                    }
                }
                pane_place_unique(rest, other, place);
            },
            None => match pane_place(rest, other) {
                Some(place) => {
                    if place < gone {
                        assert(panes[place].id == other);
                    } else {
                        assert(panes[place + 1].id == other);
                    }
                },
                None => {},
            },
        },
        None => {},
    }
}

/// A pane shows the screen that it was given and keeps its lifetime, and no other
/// pane changes.
pub proof fn a_screen_change_touches_one_pane(
    panes: Seq<PaneModel>,
    id: PaneId,
    screen: Screen,
    other: PaneId,
)
    ensures
        other != id ==> pane_of(with_screen(panes, id, screen), other) == pane_of(panes, other),
        pane_of(panes, id) matches Some(pane) ==> pane_of(with_screen(panes, id, screen), id)
            == Some(PaneModel { screen, ..pane }),
        pane_of(panes, id) is None ==> with_screen(panes, id, screen) == panes,
{
    pane_place_is_the_first(panes, id);
    match pane_place(panes, id) {
        Some(index) => {
            let pane = PaneModel { screen, ..panes[index] };
            assert(with_screen(panes, id, screen) == with_pane(panes, pane));
            panes_are_put_and_removed(panes, pane, other);
        },
        None => {},
    }
}

} // verus!
