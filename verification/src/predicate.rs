//! Filter predicates as values, and their short-circuit evaluation against a
//! filter state.

use crate::filter::{consume, FilterState, Session};
use crate::text::{bool_text, bool_to_string};
use crate::where_cond::{containing, contains_pattern, toggled, Condition, Where, WhereOp};
use vstd::prelude::*;

verus! {

/// A boolean filter over comparisons. `And` and `Or` evaluate their right side
/// only when the left side leaves the result open, as `&&` and `||` do.
pub enum Predicate {
    /// One comparison, given affirmatively.
    Compare(Where),
    /// A boolean column read through `!`.
    Negated(&'static str),
    /// A value that no slot decides: it consumes none and emits nothing.
    Constant(bool),
    Not(Box<Predicate>),
    And(Box<Predicate>, Box<Predicate>),
    Or(Box<Predicate>, Box<Predicate>),
}

/// The condition a comparison leaves when its slot says `stance`.
pub open spec fn polarized(c: Condition, stance: bool) -> Condition {
    if stance {
        c
    } else {
        Condition { oper: toggled(c.oper), ..c }
    }
}

/// The condition that `!column` leaves when its slot says `stance`: the column
/// is compared with the negated stance, and the comparison is negated where the
/// stance is `false`.
pub open spec fn negated_field(column: Seq<char>, stance: bool) -> Condition {
    polarized(
        Condition {
            oper: WhereOp::EqualTo,
            column,
            value: bool_text(!stance),
        },
        stance,
    )
}

/// One comparison against a session: a slot is consumed, the condition is
/// emitted with the slot's polarity, and the slot's outcome is the result.
pub open spec fn compare_step(c: Condition, s: Session) -> (bool, Session) {
    let (stance, s1) = consume(s);
    (stance, Session { clauses: s1.clauses.push(polarized(c, stance)), ..s1 })
}

/// `!column` against a session.
pub open spec fn negated_step(column: Seq<char>, s: Session) -> (bool, Session) {
    let (stance, s1) = consume(s);
    (stance, Session { clauses: s1.clauses.push(negated_field(column, stance)), ..s1 })
}

/// Result and session of evaluating a predicate in a session.
pub open spec fn run(p: Predicate, s: Session) -> (bool, Session)
    decreases p,
{
    match p {
        Predicate::Compare(w) => compare_step(w@, s),
        Predicate::Negated(column) => negated_step(column@, s),
        Predicate::Constant(b) => (b, s),
        Predicate::Not(inner) => {
            let (b, s1) = run(*inner, s);
            (!b, s1)
        },
        Predicate::And(left, right) => {
            let (b, s1) = run(*left, s);
            if b {
                run(*right, s1)
            } else {
                (false, s1)
            }
        },
        Predicate::Or(left, right) => {
            let (b, s1) = run(*left, s);
            if b {
                (true, s1)
            } else {
                run(*right, s1)
            }
        },
    }
}

/// Emits `w` into `state` with the polarity of the next slot and gives the
/// slot's outcome.
pub fn compare(state: &mut FilterState, w: Where) -> (r: bool)
    requires
        old(state).wf(),
    ensures
        (r, final(state)@) == compare_step(w@, old(state)@),
        final(state).wf(),
{
    let stance = state.return_true();
    let mut w = w;
    if !stance {
        w = w.wrap_not();
    }
    state.record(w);
    stance
}

/// Emits the condition of `!column` into `state` with the polarity of the
/// next slot and gives the slot's outcome.
pub fn negate_field(state: &mut FilterState, column: &'static str) -> (r: bool)
    requires
        old(state).wf(),
    ensures
        (r, final(state)@) == negated_step(column@, old(state)@),
        final(state).wf(),
{
    let stance = state.return_true();
    let mut w = Where::eq(column, bool_to_string(!stance));
    if !stance {
        w = w.wrap_not();
    }
    state.record(w);
    stance
}

impl Predicate {
    /// The predicate `column LIKE %needle%`.
    pub fn contains(column: &'static str, needle: &str) -> (p: Predicate)
        ensures
            p matches Predicate::Compare(w) && w@ == (Condition {
                oper: WhereOp::Like,
                column: column@,
                value: containing(needle@),
            }),
    {
        Predicate::Compare(Where::like(column, contains_pattern(needle)))
    }

    /// The predicate `column = value`.
    pub fn equals(column: &'static str, value: String) -> (p: Predicate)
        ensures
            p matches Predicate::Compare(w) && w@ == (Condition {
                oper: WhereOp::EqualTo,
                column: column@,
                value: value@,
            }),
    {
        Predicate::Compare(Where::eq(column, value))
    }

    /// The predicate `!self`.
    pub fn negate(self) -> (p: Predicate)
        ensures
            p == Predicate::Not(Box::new(self)),
    {
        Predicate::Not(Box::new(self))
    }

    /// The predicate `self && other`.
    pub fn and(self, other: Predicate) -> (p: Predicate)
        ensures
            p == Predicate::And(Box::new(self), Box::new(other)),
    {
        Predicate::And(Box::new(self), Box::new(other))
    }

    /// The predicate `self || other`.
    pub fn or(self, other: Predicate) -> (p: Predicate)
        ensures
            p == Predicate::Or(Box::new(self), Box::new(other)),
    {
        Predicate::Or(Box::new(self), Box::new(other))
    }

    /// Evaluates the predicate against `state`, left to right, consuming one
    /// slot and emitting one condition for each comparison that is reached.
    pub fn eval(&self, state: &mut FilterState) -> (r: bool)
        requires
            old(state).wf(),
        ensures
            (r, final(state)@) == run(*self, old(state)@),
            final(state).wf(),
        decreases *self,
    {
        match self {
            Predicate::Compare(w) => compare(state, w.duplicate()),
            Predicate::Negated(column) => negate_field(state, column),
            Predicate::Constant(b) => *b,
            Predicate::Not(inner) => !inner.eval(state),
            Predicate::And(left, right) => {
                if left.eval(state) {
                    right.eval(state)
                } else {
                    false
                }
            },
            Predicate::Or(left, right) => {
                if left.eval(state) {
                    true
                } else {
                    right.eval(state)
                }
            },
        }
    }
}

} // verus!
