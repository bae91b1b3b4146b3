//! Bookkeeping across the lifetimes of panes.

use std::collections::HashMap;
use vstd::prelude::*;
use crate::generation::successor;
use crate::process::PaneId;

verus! {

broadcast use vstd::std_specs::hash::group_hash_axioms;

/// Delay before the first automatic restart of a failing process.
pub const RESTART_BACKOFF_BASE_MILLIS: u64 = 200;

/// Upper bound on the automatic-restart delay.
pub const RESTART_BACKOFF_MAX_MILLIS: u64 = 5_000;

/// Cap on the backoff exponent.
pub const RESTART_BACKOFF_MAX_EXP: u64 = 5;

/// A process that ran at least this long counts as stable.
pub const RESTART_STABLE_RUN_MILLIS: u64 = 10_000;

/// A power of two.
pub open spec fn power_of_two(exponent: nat) -> nat
    decreases exponent,
{
    if exponent == 0 {
        1
    } else {
        2 * power_of_two((exponent - 1) as nat)
    }
}

/// The delay before a restart after `attempts` restarts in a row: it doubles
/// with each of them, up to a bound.
pub open spec fn restart_delay(attempts: u64) -> nat {
    let exponent = if attempts < RESTART_BACKOFF_MAX_EXP {
        attempts as nat
    } else {
        RESTART_BACKOFF_MAX_EXP as nat
    };
    let delay = RESTART_BACKOFF_BASE_MILLIS as nat * power_of_two(exponent);
    if delay < RESTART_BACKOFF_MAX_MILLIS {
        delay
    } else {
        RESTART_BACKOFF_MAX_MILLIS as nat
    }
}

/// Returns the delay before a restart after `attempts` restarts in a row.
pub fn backoff_millis(attempts: u64) -> (millis: u64)
    ensures
        millis == restart_delay(attempts),
{
    let exponent: u64 = if attempts < RESTART_BACKOFF_MAX_EXP {
        attempts
    } else {
        RESTART_BACKOFF_MAX_EXP
    };
    let mut factor: u64 = 1;
    let mut i: u64 = 0;
    while i < exponent
        invariant
            i <= exponent <= 5,
            factor == power_of_two(i as nat),
            factor <= 32,
            i == 0 ==> factor == 1,
            i == 1 ==> factor == 2,
            i == 2 ==> factor == 4,
            i == 3 ==> factor == 8,
            i == 4 ==> factor == 16,
        decreases exponent - i,
    {
        factor = factor * 2;
        i = i + 1;
        assert(power_of_two(i as nat) == 2 * power_of_two((i - 1) as nat));
    }
    let delay: u64 = RESTART_BACKOFF_BASE_MILLIS * factor;
    if delay < RESTART_BACKOFF_MAX_MILLIS {
        delay
    } else {
        RESTART_BACKOFF_MAX_MILLIS
    }
}

/// The delay starts at its base, never shrinks from one attempt to the next, and
/// never exceeds its bound.
pub proof fn restart_delays_grow_up_to_a_bound(attempts: u64)
    ensures
        restart_delay(0) == RESTART_BACKOFF_BASE_MILLIS,
        RESTART_BACKOFF_BASE_MILLIS <= restart_delay(attempts) <= RESTART_BACKOFF_MAX_MILLIS,
        attempts < u64::MAX ==> restart_delay(attempts) <= restart_delay((attempts + 1) as u64),
        attempts >= RESTART_BACKOFF_MAX_EXP ==> restart_delay(attempts)
            == RESTART_BACKOFF_MAX_MILLIS,
{
    reveal_with_fuel(power_of_two, 7);
}

/// Bookkeeping that outlives single panes.
pub struct Ledger {
    /// The current spawn generation of each pane.
    pub generations: HashMap<u64, u64>,
    /// Automatic restarts in a row.
    pub attempts: HashMap<u64, u64>,
    /// Sessions to reopen once their earlier pane has gone.
    pub reopens: HashMap<u64, String>,
    /// Panes that were deleted by hand and have not gone yet.
    pub deleted: Vec<PaneId>,
    /// Source of notification scopes.
    pub next_scope: u64,
}

/// What the bookkeeping holds.
#[verifier::ext_equal]
pub struct LedgerModel {
    /// The current spawn generation of each pane.
    pub generations: Map<u64, u64>,
    /// Automatic restarts in a row.
    pub attempts: Map<u64, u64>,
    /// Sessions to reopen once their earlier pane has gone.
    pub reopens: Map<u64, String>,
    /// Panes that were deleted by hand and have not gone yet.
    pub deleted: Seq<PaneId>,
    /// Source of notification scopes.
    pub next_scope: u64,
}

impl View for Ledger {
    type V = LedgerModel;

    open spec fn view(&self) -> LedgerModel {
        LedgerModel {
            generations: self.generations@,
            attempts: self.attempts@,
            reopens: self.reopens@,
            deleted: self.deleted@,
            next_scope: self.next_scope,
        }
    }
}

/// The identities other than one.
pub open spec fn other_ids(ids: Seq<PaneId>, id: PaneId) -> Seq<PaneId>
    decreases ids.len(),
{
    if ids.len() == 0 {
        Seq::empty()
    } else if ids.last() == id {
        other_ids(ids.drop_last(), id)
    } else {
        other_ids(ids.drop_last(), id).push(ids.last())
    }
}

/// The value of a key, when there is one.
pub open spec fn value_of<V>(map: Map<u64, V>, key: u64) -> Option<V> {
    if map.contains_key(key) {
        Some(map[key])
    } else {
        None
    }
}

impl LedgerModel {
    /// Nothing is booked.
    pub open spec fn blank() -> LedgerModel {
        LedgerModel {
            generations: Map::empty(),
            attempts: Map::empty(),
            reopens: Map::empty(),
            deleted: Seq::empty(),
            next_scope: 0,
        }
    }

    /// The current spawn generation of a pane.
    pub open spec fn generation(self, pane: PaneId) -> Option<u64> {
        value_of(self.generations, pane)
    }

    /// The generation that supersedes a pane's current one.
    pub open spec fn next_generation(self, pane: PaneId) -> u64 {
        match self.generation(pane) {
            Some(number) => successor(number),
            None => successor(0),
        }
    }

    /// The bookkeeping with a superseded generation.
    pub open spec fn bumped(self, pane: PaneId) -> LedgerModel {
        LedgerModel {
            generations: self.generations.insert(pane, self.next_generation(pane)),
            ..self
        }
    }

    /// The automatic restarts in a row of a pane.
    pub open spec fn attempts_of(self, pane: PaneId) -> u64 {
        match value_of(self.attempts, pane) {
            Some(number) => number,
            None => 0,
        }
    }

    /// The bookkeeping with a number of attempts.
    pub open spec fn with_attempts(self, pane: PaneId, attempts: u64) -> LedgerModel {
        LedgerModel { attempts: self.attempts.insert(pane, attempts), ..self }
    }

    /// The bookkeeping without a pane's attempts.
    pub open spec fn without_attempts(self, pane: PaneId) -> LedgerModel {
        LedgerModel { attempts: self.attempts.remove(pane), ..self }
    }

    /// The bookkeeping without a pane that left the workspace.
    pub open spec fn retired(self, pane: PaneId) -> LedgerModel {
        LedgerModel {
            generations: self.generations.remove(pane),
            attempts: self.attempts.remove(pane),
            deleted: other_ids(self.deleted, pane),
            ..self
        }
    }

    /// The bookkeeping with a session to reopen.
    pub open spec fn with_reopen(self, pane: PaneId, session: String) -> LedgerModel {
        LedgerModel { reopens: self.reopens.insert(pane, session), ..self }
    }

    /// The bookkeeping without a session to reopen.
    pub open spec fn without_reopen(self, pane: PaneId) -> LedgerModel {
        LedgerModel { reopens: self.reopens.remove(pane), ..self }
    }

    /// The bookkeeping without any session to reopen.
    pub open spec fn without_reopens(self) -> LedgerModel {
        LedgerModel { reopens: Map::empty(), ..self }
    }

    /// The bookkeeping with a scope handed out.
    pub open spec fn scoped(self) -> LedgerModel {
        LedgerModel { next_scope: successor(self.next_scope), ..self }
    }

    /// The bookkeeping with a pane deleted by hand.
    pub open spec fn with_deleted(self, pane: PaneId) -> LedgerModel {
        if self.deleted.contains(pane) {
            self
        } else {
            LedgerModel { deleted: self.deleted.push(pane), ..self }
        }
    }

    /// The bookkeeping of a freshly loaded project. Generations go on, so that
    /// events of the earlier project's panes stay recognizable.
    pub open spec fn reloaded(self) -> LedgerModel {
        LedgerModel {
            attempts: Map::empty(),
            reopens: Map::empty(),
            deleted: Seq::empty(),
            ..self
        }
    }
}

impl Ledger {
    /// Nothing is booked yet.
    pub fn new() -> (ledger: Self)
        ensures
            ledger@ == LedgerModel::blank(),
    {
        Ledger {
            generations: HashMap::new(),
            attempts: HashMap::new(),
            reopens: HashMap::new(),
            deleted: Vec::new(),
            next_scope: 0,
        }
    }

    /// Returns the current spawn generation of a pane.
    pub fn generation(&self, pane: PaneId) -> (generation: Option<u64>)
        ensures
            generation == self@.generation(pane),
    {
        match self.generations.get(&pane) {
            Some(number) => Some(*number),
            None => None,
        }
    }

    /// Invalidates pending respawns and returns the new generation.
    pub fn bump_generation(&mut self, pane: PaneId) -> (generation: u64)
        ensures
            generation == old(self)@.next_generation(pane),
            final(self)@ == old(self)@.bumped(pane),
    {
        let number: u64 = match self.generation(pane) {
            Some(number) => number.wrapping_add(1),
            None => 1,
        };
        self.generations.insert(pane, number);
        assert(self@ =~= old(self)@.bumped(pane));
        number
    }

    /// Returns the automatic restarts in a row of a pane.
    pub fn attempts_of(&self, pane: PaneId) -> (attempts: u64)
        ensures
            attempts == self@.attempts_of(pane),
    {
        match self.attempts.get(&pane) {
            Some(number) => *number,
            None => 0,
        }
    }

    /// Books a number of attempts.
    pub fn set_attempts(&mut self, pane: PaneId, attempts: u64)
        ensures
            final(self)@ == old(self)@.with_attempts(pane, attempts),
    {
        self.attempts.insert(pane, attempts);
        assert(self@ =~= old(self)@.with_attempts(pane, attempts));
    }

    /// Forgets a pane's attempts.
    pub fn forget_attempts(&mut self, pane: PaneId)
        ensures
            final(self)@ == old(self)@.without_attempts(pane),
    {
        self.attempts.remove(&pane);
        assert(self@ =~= old(self)@.without_attempts(pane));
    }

    /// Forgets a pane that left the workspace.
    pub fn retire(&mut self, pane: PaneId)
        ensures
            final(self)@ == old(self)@.retired(pane),
    {
        self.generations.remove(&pane);
        self.attempts.remove(&pane);
        let mut kept: Vec<PaneId> = Vec::new();
        let mut i: usize = 0;
        assert(self.deleted@.take(0).len() == 0);
        while i < self.deleted.len()
            invariant
                i <= self.deleted@.len(),
                kept@ == other_ids(self.deleted@.take(i as int), pane),
            decreases self.deleted@.len() - i,
        {
            assert(self.deleted@.take(i + 1).drop_last() =~= self.deleted@.take(i as int));
            if self.deleted[i] != pane {
                kept.push(self.deleted[i]);
            }
            i = i + 1;
        }
        assert(self.deleted@.take(i as int) =~= self.deleted@);
        self.deleted = kept;
        assert(self@ =~= old(self)@.retired(pane));
    }

    /// Takes the session to reopen once a pane has gone.
    pub fn take_reopen(&mut self, pane: PaneId) -> (session: Option<String>)
        ensures
            session == value_of(old(self)@.reopens, pane),
            final(self)@ == old(self)@.without_reopen(pane),
    {
        let session: Option<String> = self.reopens.remove(&pane);
        assert(self@ =~= old(self)@.without_reopen(pane));
        session
    }

    /// Books a session to reopen once a pane has gone.
    pub fn put_reopen(&mut self, pane: PaneId, session: String)
        ensures
            final(self)@ == old(self)@.with_reopen(pane, session),
    {
        self.reopens.insert(pane, session);
        assert(self@ =~= old(self)@.with_reopen(pane, session));
    }

    /// Forgets every session to reopen.
    pub fn clear_reopens(&mut self)
        ensures
            final(self)@ == old(self)@.without_reopens(),
    {
        self.reopens = HashMap::new();
        assert(self@ =~= old(self)@.without_reopens());
    }

    /// Allocates a notification scope unique to this terminal lifetime.
    pub fn allocate_notification_scope(&mut self) -> (scope: u64)
        ensures
            scope == old(self)@.next_scope,
            final(self)@ == old(self)@.scoped(),
    {
        let scope: u64 = self.next_scope;
        self.next_scope = scope.wrapping_add(1);
        scope
    }

    /// Marks a pane as deleted by hand.
    pub fn mark_deleted(&mut self, pane: PaneId)
        ensures
            final(self)@ == old(self)@.with_deleted(pane),
    {
        if !crate::reconcile::holds_id(&self.deleted, pane) {
            self.deleted.push(pane);
            assert(self@ =~= old(self)@.with_deleted(pane));
        }
    }

    /// Starts over with a freshly loaded project.
    pub fn reload(&mut self)
        ensures
            final(self)@ == old(self)@.reloaded(),
    {
        self.attempts = HashMap::new();
        self.reopens = HashMap::new();
        self.deleted = Vec::new();
        assert(self@ =~= old(self)@.reloaded());
    }
}

/// Whatever a pane's generation was, superseding it makes every event that
/// carries the earlier one stale, and leaves the other panes' events current.
pub proof fn a_new_generation_makes_old_events_stale(
    ledger: LedgerModel,
    pane: PaneId,
    other: PaneId,
)
    ensures
        ledger.bumped(pane).generation(pane) == Some(ledger.next_generation(pane)),
        ledger.bumped(pane).generation(pane) != ledger.generation(pane),
        other != pane ==> ledger.bumped(pane).generation(other) == ledger.generation(other),
{
}

/// Terminal lifetimes that follow each other have different notification
/// scopes.
pub proof fn scopes_in_a_row_differ(ledger: LedgerModel)
    ensures
        ledger.scoped().next_scope != ledger.next_scope,
{
}

} // verus!
