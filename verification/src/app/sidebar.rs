//! Moving through the sidebar: the processes, then the other projects.

use vstd::prelude::*;
use crate::app::{App, AppModel, Focus};
use crate::form::{next_in_ring, ring_next};
use crate::message::Message;
use crate::moment::Moment;
use crate::process::{ActivityState, Process};

verus! {

/// The next process behind a position that awaits input, looking at `count` of
/// them round the list.
pub open spec fn awaiting_after(processes: Seq<Process>, index: usize, count: nat) -> Option<usize>
    decreases count,
{
    if count == 0 {
        None
    } else {
        let next = ring_next(index, processes.len());
        if processes[next as int].activity == ActivityState::AwaitingInput {
            Some(next)
        } else {
            awaiting_after(processes, next, (count - 1) as nat)
        }
    }
}

impl AppModel {
    /// The application with the sidebar selection one row down: through the
    /// processes, then the other projects, and back to the top.
    #[verifier::opaque]
    pub open spec fn moved_down(self) -> AppModel {
        let count = self.roster.processes.len();
        let others = self.catalog.other_count();
        match self.catalog.cursor {
            None => if self.roster.selected + 1 < count {
                self.with_roster(self.roster.select((self.roster.selected + 1) as usize))
            } else if others > 0 {
                self.with_cursor(Some(0))
            } else if count > 0 {
                self.with_roster(self.roster.select(0))
            } else {
                self
            },
            Some(cursor) => if cursor + 1 < others {
                self.with_cursor(Some((cursor + 1) as usize))
            } else {
                self.with_cursor(None).with_roster(self.roster.select(0))
            },
        }
    }

    /// The application with the sidebar selection one row up.
    #[verifier::opaque]
    pub open spec fn moved_up(self) -> AppModel {
        let count = self.roster.processes.len();
        let others = self.catalog.other_count();
        match self.catalog.cursor {
            None => if self.roster.selected > 0 {
                self.with_roster(self.roster.select((self.roster.selected - 1) as usize))
            } else if others > 0 {
                self.with_cursor(Some((others - 1) as usize))
            } else {
                self
            },
            Some(cursor) => if cursor == 0 {
                if count > 0 {
                    self.with_cursor(None).with_roster(self.roster.select((count - 1) as usize))
                } else {
                    self.with_cursor(None)
                }
            } else {
                self.with_cursor(Some((cursor - 1) as usize))
            },
        }
    }

    /// The application that acts on the sidebar selection.
    #[verifier::opaque]
    pub open spec fn sidebar_chosen(self, now: Moment) -> AppModel {
        match self.catalog.cursor {
            Some(row) => self.activating(row, now),
            None => self.focused(Focus::Terminal),
        }
    }

    /// The next process that awaits input.
    pub open spec fn attention(self) -> Option<usize> {
        awaiting_after(
            self.roster.processes,
            self.roster.selected,
            self.roster.processes.len(),
        )
    }

    /// The application with the next process that awaits input selected.
    #[verifier::opaque]
    pub open spec fn attended(self, now: Moment) -> AppModel {
        match self.attention() {
            Some(index) => self.with_cursor(None).with_roster(self.roster.select(index)),
            None => self.noted(Message::NoAttention, now),
        }
    }
}

impl App {
    /// Moves the sidebar selection down: through the active project's
    /// processes, then onto the collapsed project rows, wrapping to the top.
    pub fn sidebar_down(&mut self)
        ensures
            final(self)@ == old(self)@.moved_down(),
    {
        proof {
            reveal(AppModel::moved_down);
        }
        let count: usize = self.workspace.processes.len();
        let others: usize = self.other_project_count();
        match self.catalog.cursor {
            None => {
                let index: usize = self.workspace.selected;
                if index < count && index + 1 < count {
                    self.workspace.select_at(index + 1);
                } else if others > 0 {
                    self.catalog.cursor = Some(0);
                } else if count > 0 {
                    self.workspace.select_at(0);
                }
            },
            Some(cursor) => {
                if cursor < others && cursor + 1 < others {
                    self.catalog.cursor = Some(cursor + 1);
                } else {
                    self.catalog.cursor = None;
                    self.workspace.select_at(0);
                }
            },
        }
    }

    /// Moves the sidebar selection up.
    pub fn sidebar_up(&mut self)
        ensures
            final(self)@ == old(self)@.moved_up(),
    {
        proof {
            reveal(AppModel::moved_up);
        }
        let count: usize = self.workspace.processes.len();
        let others: usize = self.other_project_count();
        match self.catalog.cursor {
            None => {
                let index: usize = self.workspace.selected;
                if index > 0 {
                    self.workspace.select_at(index - 1);
                } else if others > 0 {
                    self.catalog.cursor = Some(others - 1);
                }
            },
            Some(cursor) => {
                if cursor == 0 {
                    self.catalog.cursor = None;
                    if count > 0 {
                        self.workspace.select_at(count - 1);
                    }
                } else {
                    self.catalog.cursor = Some(cursor - 1);
                }
            },
        }
    }

    /// Acts on the sidebar selection: attach to the selected process, or switch
    /// into the selected project.
    pub fn sidebar_select(&mut self, now: Moment)
        ensures
            final(self)@ == old(self)@.sidebar_chosen(now),
    {
        proof {
            reveal(AppModel::sidebar_chosen);
        }
        match self.catalog.cursor {
            Some(row) => self.activate_other_project(row, now),
            None => {
                self.focus = Focus::Terminal;
            },
        }
    }

    /// Selects the next process awaiting input, cycling from the current
    /// selection. Returns whether one was found; when none is waiting it leaves
    /// the selection put and raises a notice.
    pub fn jump_to_attention(&mut self, now: Moment) -> (found: bool)
        ensures
            found == (old(self)@.attention() is Some),
            final(self)@ == old(self)@.attended(now),
    {
        proof {
            reveal(AppModel::attended);
        }
        let count: usize = self.workspace.processes.len();
        let mut left: usize = count;
        let mut index: usize = self.workspace.selected;
        while left > 0
            invariant
                left <= count,
                count == self@.roster.processes.len(),
                self@ == old(self)@,
                old(self)@.attention() == awaiting_after(
                    self@.roster.processes,
                    index,
                    left as nat,
                ),
            decreases left,
        {
            index = next_in_ring(index, count);
            left = left - 1;
            if self.workspace.processes[index].activity == ActivityState::AwaitingInput {
                self.catalog.cursor = None;
                self.workspace.select_at(index);
                proof {
                    reveal(AppModel::attended);
                }
                return true;
            }
        }
        self.set_notice(Message::NoAttention, now);
        false
    }
}

/// Down and then up leads back to where the selection was, unless the list
/// wrapped to its top: going up does not wrap past the first row when there are
/// no other projects.
pub proof fn down_then_up_returns(app: AppModel)
    requires
        app.roster.selected < app.roster.processes.len() <= usize::MAX,
        app.catalog.cursor matches Some(cursor) ==> cursor < app.catalog.other_count(),
        app.catalog.other_count() > 0 || app.roster.selected + 1 < app.roster.processes.len(),
        app.catalog.other_count() <= usize::MAX,
        app.catalog.cursor is Some ==> app.roster.selected == 0,
        app.catalog.cursor is None || app.catalog.cursor->0 + 1 < app.catalog.other_count()
            || app.roster.processes.len() > 0,
    ensures
        app.catalog.cursor is None && app.roster.selected + 1 < app.roster.processes.len()
            ==> app.moved_down().moved_up() == app,
        app.catalog.cursor is None && app.roster.selected + 1 == app.roster.processes.len()
            ==> app.moved_down().moved_up() == app,
        app.catalog.cursor is Some ==> app.moved_down().moved_up() == app,
{
    reveal(AppModel::moved_down);
    reveal(AppModel::moved_up);
    assert(app.moved_down().moved_up() =~= app);
}

/// Whoever awaits input is found: the jump finds a process exactly when there
/// is one to find.
pub proof fn attention_is_found_when_there_is_any(app: AppModel)
    requires
        app.roster.selected < app.roster.processes.len() <= usize::MAX,
    ensures
        app.attention() is Some <==> exists|i: int|
            0 <= i < app.roster.processes.len() && (#[trigger] app.roster.processes[i]).activity
                == ActivityState::AwaitingInput,
        app.attention() matches Some(index) ==> index < app.roster.processes.len()
            && app.roster.processes[index as int].activity == ActivityState::AwaitingInput,
{
    let processes = app.roster.processes;
    let len = processes.len();
    awaiting_covers(processes, app.roster.selected, len);
    if exists|i: int|
        0 <= i < len && (#[trigger] processes[i]).activity == ActivityState::AwaitingInput {
        let i = choose|i: int|
            0 <= i < len && (#[trigger] processes[i]).activity == ActivityState::AwaitingInput;
        let start = app.roster.selected as int;
        let k = if i > start {
            i - start
        } else {
            i - start + len
        };
        assert(1 <= k <= len);
        assert((start + k) % len as int == i) by {
            if i > start {
                vstd::arithmetic::div_mod::lemma_small_mod(i as nat, len);
            } else {
                vstd::arithmetic::div_mod::lemma_mod_add_multiples_vanish(i, len as int);
                vstd::arithmetic::div_mod::lemma_small_mod(i as nat, len);
            }
        }
    }
}

/// What a search finds, and what it means when it finds nothing.
proof fn awaiting_covers(processes: Seq<Process>, index: usize, count: nat)
    requires
        0 < processes.len() <= usize::MAX,
        index < processes.len(),
    ensures
        awaiting_after(processes, index, count) matches Some(found) ==> found < processes.len()
            && processes[found as int].activity == ActivityState::AwaitingInput,
        awaiting_after(processes, index, count) is None ==> forall|k: int|
            1 <= k <= count ==> (#[trigger] processes[(index + k) % processes.len() as int]).activity
                != ActivityState::AwaitingInput,
    decreases count,
{
    let len = processes.len() as int;
    if count > 0 {
        let next = ring_next(index, processes.len());
        vstd::arithmetic::div_mod::lemma_mod_bound(index + 1, len);
        if processes[next as int].activity != ActivityState::AwaitingInput {
            awaiting_covers(processes, next, (count - 1) as nat);
            if awaiting_after(processes, index, count) is None {
                assert forall|k: int| 1 <= k <= count implies (#[trigger] processes[(index + k)
                    % len]).activity != ActivityState::AwaitingInput by {
                    if k > 1 {
                        vstd::arithmetic::div_mod::lemma_add_mod_noop(index + 1, k - 1, len);
                        vstd::arithmetic::div_mod::lemma_add_mod_noop(next as int, k - 1, len);
                        vstd::arithmetic::div_mod::lemma_mod_twice(index + 1, len);
                        assert((next + (k - 1)) % len == (index + k) % len);
                        assert(processes[(next + (k - 1)) % len].activity
                            != ActivityState::AwaitingInput);
                    }
                }
            }
        }
    }
}

} // verus!
