use vstd::prelude::*;

use crate::detect::{diff, lemma_identical_none_new, new_pages};
use crate::page::Page;

verus! {

/// Where the poll loop stands: one bootstrap fetch seeds the state, after
/// which the loop polls forever.
#[derive(Clone, Copy, Debug, PartialEq, Eq, Structural)]
pub enum Phase {
    Bootstrapping,
    Polling,
}

/// The poll scheduler's state: the single piece of mutable state carried
/// across loop iterations, the last known result set. It is owned here
/// exclusively and replaced wholly each cycle, never partially mutated.
pub struct Scheduler {
    phase: Phase,
    last: Vec<Page>,
}

impl Scheduler {
    /// The scheduler's phase, as contracts see it.
    pub closed spec fn phase(self) -> Phase {
        self.phase
    }

    /// The last known result set, as contracts see it.
    pub closed spec fn last_known(self) -> Seq<Page> {
        self.last@
    }

    /// A fresh scheduler: not yet bootstrapped, with nothing known.
    pub fn new() -> (s: Scheduler)
        ensures
            s.phase() == Phase::Bootstrapping,
            s.last_known() == Seq::<Page>::empty(),
    {
        Scheduler { phase: Phase::Bootstrapping, last: Vec::new() }
    }

    /// Whether the bootstrap already happened and the loop is in steady
    /// state; detection and commits are only allowed then.
    pub fn is_polling(&self) -> (r: bool)
        ensures
            r == (self.phase() == Phase::Polling),
    {
        self.phase == Phase::Polling
    }

    /// Seeds the poll state with the bootstrap fetch's result set, so the
    /// first steady-state cycle never misreports all existing items as
    /// new, and enters the polling phase.
    pub fn bootstrap(&mut self, cur: Vec<Page>)
        requires
            old(self).phase() == Phase::Bootstrapping,
        ensures
            final(self).phase() == Phase::Polling,
            final(self).last_known() == cur@,
    {
        self.last = cur;
        self.phase = Phase::Polling;
    }

    /// One cycle's detection: the items of `cur` that are new against the
    /// last known result set, in `cur`'s order. Reads the poll state but
    /// does not touch it: the state is replaced only by `commit_cycle`,
    /// after every new item was dispatched.
    pub fn plan_cycle(&self, cur: &Vec<Page>) -> (new_items: Vec<Page>)
        requires
            self.phase() == Phase::Polling,
        ensures
            new_items@ == new_pages(self.last_known(), cur@),
    {
        diff(&self.last, cur)
    }

    /// Replaces the poll state wholly with this cycle's result set —
    /// last-writer-wins — once the cycle's dispatch went through.
    pub fn commit_cycle(&mut self, cur: Vec<Page>)
        requires
            old(self).phase() == Phase::Polling,
        ensures
            final(self).phase() == Phase::Polling,
            final(self).last_known() == cur@,
    {
        self.last = cur;
    }
}

/// Bootstrap property: right after the bootstrap fetch seeded the state
/// with `cur`, a steady-state cycle against an unchanged remote — one that
/// returns `cur` again — reports zero new items.
pub proof fn lemma_bootstrap_cycle_quiet(s: Scheduler, cur: Seq<Page>)
    requires
        s.last_known() == cur,
    ensures
        new_pages(s.last_known(), cur) == Seq::<Page>::empty(),
{
    lemma_identical_none_new(cur);
}

} // verus!
