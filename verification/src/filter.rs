//! The slot protocol: the booleans a predicate is answered with, and the
//! conditions it leaves behind.

use crate::where_cond::{Condition, Where};
use vstd::prelude::*;

verus! {

/// Mathematical value of a [`FilterState`].
pub struct Session {
    /// Number of slots consumed in the current pass.
    pub index: nat,
    /// Outcome stored for each slot created so far.
    pub slots: Seq<bool>,
    /// Conditions emitted in the current pass, in order.
    pub clauses: Seq<Condition>,
}

/// The values of a sequence of conditions.
pub open spec fn conditions_of(v: Seq<Where>) -> Seq<Condition> {
    v.map_values(|w: Where| w@)
}

/// The session with which the first pass of a replay starts.
pub open spec fn fresh_session() -> Session {
    Session { index: 0, slots: Seq::empty(), clauses: Seq::empty() }
}

/// What consuming one slot makes of a session: the stored outcome is read if
/// the position exists already, else `true` is stored there.
pub open spec fn consume(s: Session) -> (bool, Session) {
    if s.index < s.slots.len() {
        (s.slots[s.index as int], Session { index: s.index + 1, ..s })
    } else {
        (true, Session { index: s.index + 1, slots: s.slots.push(true), ..s })
    }
}

/// The outcomes with the most recent one negated.
pub open spec fn flip_last(slots: Seq<bool>) -> Seq<bool> {
    if slots.len() == 0 {
        slots
    } else {
        slots.update(slots.len() - 1, !slots.last())
    }
}

/// The session with which the next pass starts after a pass that failed: the
/// most recent outcome negated, no conditions, index zero.
pub open spec fn rewound(s: Session) -> Session {
    Session { index: 0, slots: flip_last(s.slots), clauses: Seq::empty() }
}

/// State of one filter call, shared by all its passes.
pub struct FilterState {
    pub index: usize,
    /// The boolean handed back for each comparison of the predicate.
    pub returns: Vec<bool>,
    /// The conditions created in the current pass.
    pub clauses: Vec<Where>,
}

impl View for FilterState {
    type V = Session;

    open spec fn view(&self) -> Session {
        Session {
            index: self.index as nat,
            slots: self.returns@,
            clauses: conditions_of(self.clauses@),
        }
    }
}

impl FilterState {
    /// No slot is consumed that was not created.
    pub open spec fn wf(&self) -> bool {
        self.index <= self.returns@.len()
    }

    /// An empty state.
    pub fn new() -> (s: FilterState)
        ensures
            s@ == fresh_session(),
            s.wf(),
    {
        let s = FilterState { index: 0, returns: Vec::new(), clauses: Vec::new() };
        assert(s@.clauses =~= Seq::empty());
        s
    }

    /// Consumes the next slot and gives its outcome.
    pub fn return_true(&mut self) -> (r: bool)
        requires
            old(self).wf(),
        ensures
            (r, final(self)@) == consume(old(self)@),
            final(self).wf(),
            final(self).clauses@ == old(self).clauses@,
    {
        if self.index < self.returns.len() {
            let r = self.returns[self.index];
            self.index = self.index + 1;
            r
        } else {
            self.returns.push(true);
            self.index = self.returns.len();
            true
        }
    }

    /// Prepares the next pass after one that failed.
    pub fn rewind(&mut self)
        ensures
            final(self)@ == rewound(old(self)@),
            final(self).wf(),
    {
        let n = self.returns.len();
        if n > 0 {
            let b = self.returns[n - 1];
            self.returns.set(n - 1, !b);
        }
        self.clauses.clear();
        self.index = 0;
        assert(final(self)@.clauses =~= Seq::empty());
    }

    /// Appends a condition to those of the current pass.
    pub fn record(&mut self, w: Where)
        ensures
            final(self)@ == (Session { clauses: old(self)@.clauses.push(w@), ..old(self)@ }),
            final(self).wf() == old(self).wf(),
    {
        self.clauses.push(w);
        assert(conditions_of(self.clauses@) =~= conditions_of(old(self).clauses@).push(w@));
    }
}

} // verus!
