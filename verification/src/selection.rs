//! The state that the dashboard owns: the runners of the last fetch, in the
//! order in which their details arrived, and the cursor that selects one of
//! them.
//!
//! The cursor is an index into the runners whenever there are any. It moves
//! forward and backward with wrap-around, and is pulled back to the last
//! runner when the runners are replaced by fewer.

use vstd::prelude::*;
use vstd::arithmetic::div_mod::{
    lemma_add_mod_noop_right,
    lemma_mod_add_multiples_vanish,
    lemma_mod_self_0,
    lemma_small_mod,
};
use crate::model::{detail_views, RunnerDetails};
use crate::table::{create_table, table_of, TableDescription};

verus! {

/// The cursor after one step forward over `count` runners.
pub open spec fn advance(cursor: nat, count: nat) -> nat {
    if count == 0 {
        cursor
    } else {
        (cursor + 1) % count
    }
}

/// The cursor after one step backward over `count` runners.
pub open spec fn retreat(cursor: nat, count: nat) -> nat {
    if count == 0 {
        cursor
    } else {
        ((cursor + count - 1) % (count as int)) as nat
    }
}

/// The cursor after `times` steps forward over `count` runners.
pub open spec fn advance_times(cursor: nat, count: nat, times: nat) -> nat
    decreases times,
{
    if times == 0 {
        cursor
    } else {
        advance(advance_times(cursor, count, (times - 1) as nat), count)
    }
}

/// The cursor once the runners have been replaced by `count` others: where
/// it was if that is still a runner, else on the last runner, and at the
/// start when there is none.
pub open spec fn clamp(cursor: nat, count: nat) -> nat {
    if count == 0 {
        0
    } else if cursor >= count {
        (count - 1) as nat
    } else {
        cursor
    }
}

/// Whether a cursor fits `count` runners: it is the index of one of them,
/// or rests at the start when there is none.
pub open spec fn cursor_fits(cursor: nat, count: nat) -> bool {
    if count == 0 {
        cursor == 0
    } else {
        cursor < count
    }
}

/// What the dashboard holds, as plain values.
pub struct AppView {
    pub cursor: nat,
    pub runners: Seq<RunnerDetails>,
}

impl AppView {
    /// The row that is selected: the one under the cursor, and none while
    /// there are no runners.
    pub open spec fn selected(self) -> Option<usize> {
        if self.runners.len() == 0 {
            None
        } else {
            Some(self.cursor as usize)
        }
    }

    /// Whether the cursor fits the runners.
    pub open spec fn valid(self) -> bool {
        cursor_fits(self.cursor, self.runners.len())
    }
}

/// The state of the dashboard between two key presses.
pub struct App {
    cursor: usize,
    runners: Vec<RunnerDetails>,
}

impl View for App {
    type V = AppView;

    closed spec fn view(&self) -> AppView {
        AppView { cursor: self.cursor as nat, runners: self.runners@ }
    }
}

impl App {
    #[verifier::type_invariant]
    spec fn cursor_in_range(self) -> bool {
        cursor_fits(self.cursor as nat, self.runners@.len())
    }

    /// A dashboard without runners.
    pub fn new() -> (app: App)
        ensures
            app@.runners == Seq::<RunnerDetails>::empty(),
            app@.cursor == 0,
            app@.valid(),
    {
        App { cursor: 0, runners: Vec::new() }
    }

    /// Moves the cursor one runner forward, from the last runner to the
    /// first. Without runners nothing changes.
    pub fn next(&mut self)
        ensures
            final(self)@.runners == old(self)@.runners,
            final(self)@.cursor == advance(old(self)@.cursor, old(self)@.runners.len()),
            final(self)@.valid(),
    {
        proof {
            use_type_invariant(&*self);
        }
        let count: usize = self.runners.len();
        if count > 0 {
            proof {
                lemma_step_by_cases(self.cursor as nat, count as nat);
            }
            if self.cursor >= count - 1 {
                self.cursor = 0;
            } else {
                self.cursor = self.cursor + 1;
            }
        }
    }

    /// Moves the cursor one runner backward, from the first runner to the
    /// last. Without runners nothing changes.
    pub fn previous(&mut self)
        ensures
            final(self)@.runners == old(self)@.runners,
            final(self)@.cursor == retreat(old(self)@.cursor, old(self)@.runners.len()),
            final(self)@.valid(),
    {
        proof {
            use_type_invariant(&*self);
        }
        let count: usize = self.runners.len();
        if count > 0 {
            proof {
                lemma_step_by_cases(self.cursor as nat, count as nat);
            }
            if self.cursor == 0 {
                self.cursor = count - 1;
            } else {
                self.cursor = self.cursor - 1;
            }
        }
    }

    /// Appends a runner. The cursor stays where it is, so the first runner
    /// to arrive is the one selected.
    pub fn push_runner(&mut self, runner: RunnerDetails)
        ensures
            final(self)@.runners == old(self)@.runners.push(runner),
            final(self)@.cursor == old(self)@.cursor,
            final(self)@.valid(),
    {
        proof {
            use_type_invariant(&*self);
        }
        let cursor: usize = self.cursor;
        self.cursor = 0;
        let mut runners: Vec<RunnerDetails> = Vec::new();
        std::mem::swap(&mut runners, &mut self.runners);
        runners.push(runner);
        self.runners = runners;
        self.cursor = cursor;
    }

    /// Replaces the runners by those of a new fetch. A cursor that no longer
    /// points at a runner moves to the last one.
    pub fn set_runners(&mut self, runners: Vec<RunnerDetails>)
        ensures
            final(self)@.runners == runners@,
            final(self)@.cursor == clamp(old(self)@.cursor, runners@.len()),
            final(self)@.valid(),
    {
        let cursor: usize = self.cursor;
        let count: usize = runners.len();
        self.cursor = 0;
        self.runners = runners;
        if count > 0 {
            if cursor >= count {
                self.cursor = count - 1;
            } else {
                self.cursor = cursor;
            }
        }
    }

    /// The index of the selected runner, if there is a runner.
    pub fn selected(&self) -> (selected: Option<usize>)
        ensures
            selected == self@.selected(),
            self@.valid(),
    {
        proof {
            use_type_invariant(self);
        }
        if self.runners.len() == 0 {
            None
        } else {
            Some(self.cursor)
        }
    }

    /// The runners, in the order in which they arrived.
    pub fn runners(&self) -> (runners: &Vec<RunnerDetails>)
        ensures
            runners@ == self@.runners,
    {
        &self.runners
    }

    /// The table of the runners, with the selected row highlighted.
    pub fn render(&self) -> (table: TableDescription)
        ensures
            table@ == table_of(detail_views(self@.runners), self@.selected()),
    {
        create_table(&self.runners, self.selected())
    }
}

/// On a cursor that points at one of `count` runners, a step forward goes to
/// the next index and from the last to the first; a step backward goes to the
/// index before and from the first to the last.
pub proof fn lemma_step_by_cases(cursor: nat, count: nat)
    requires
        cursor < count,
    ensures
        advance(cursor, count) == if cursor + 1 == count {
            0
        } else {
            cursor + 1
        },
        retreat(cursor, count) == if cursor == 0 {
            count - 1
        } else {
            cursor - 1
        },
{
    if cursor + 1 == count {
        lemma_mod_self_0(count as int);
    } else {
        lemma_small_mod(cursor + 1, count);
    }
    if cursor == 0 {
        lemma_small_mod((count - 1) as nat, count);
    } else {
        lemma_mod_add_multiples_vanish(cursor - 1, count as int);
        lemma_small_mod((cursor - 1) as nat, count);
    }
}

/// A cursor that fits the runners still fits them after a step in either
/// direction: no step leaves the range of the runners.
pub proof fn lemma_steps_stay_in_range(cursor: nat, count: nat)
    requires
        cursor_fits(cursor, count),
    ensures
        cursor_fits(advance(cursor, count), count),
        cursor_fits(retreat(cursor, count), count),
{
    if count > 0 {
        lemma_step_by_cases(cursor, count);
    }
}

/// Without runners a step in either direction leaves the cursor where it
/// is.
pub proof fn lemma_steps_without_runners(cursor: nat)
    ensures
        advance(cursor, 0) == cursor,
        retreat(cursor, 0) == cursor,
{
}

/// A step backward undoes a step forward, and a step forward undoes a step
/// backward, wherever the cursor points at a runner.
pub proof fn lemma_steps_are_inverse(cursor: nat, count: nat)
    requires
        count >= 1,
        cursor < count,
    ensures
        retreat(advance(cursor, count), count) == cursor,
        advance(retreat(cursor, count), count) == cursor,
{
    lemma_step_by_cases(cursor, count);
    lemma_step_by_cases(advance(cursor, count), count);
    lemma_step_by_cases(retreat(cursor, count), count);
}

/// After `times` steps forward the cursor has moved by `times`, counted
/// around the runners.
pub proof fn lemma_advance_times(cursor: nat, count: nat, times: nat)
    requires
        count >= 1,
        cursor < count,
    ensures
        advance_times(cursor, count, times) == (cursor + times) % count,
    decreases times,
{
    if times == 0 {
        lemma_small_mod(cursor, count);
    } else {
        lemma_advance_times(cursor, count, (times - 1) as nat);
        lemma_add_mod_noop_right(1, cursor + times - 1, count as int);
    }
}

/// As many steps forward as there are runners bring the cursor back to
/// where it started.
pub proof fn lemma_full_cycle(cursor: nat, count: nat)
    requires
        count >= 1,
        cursor < count,
    ensures
        advance_times(cursor, count, count) == cursor,
{
    lemma_advance_times(cursor, count, count);
    lemma_mod_add_multiples_vanish(cursor as int, count as int);
    lemma_small_mod(cursor, count);
}

} // verus!
