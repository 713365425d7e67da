//! What holds of every replay: predicates whose convergence is known in
//! advance.

use crate::filter::{flip_last, fresh_session, rewound, Session};
use crate::filter::consume;
use crate::predicate::{compare_step, polarized, run, Predicate};
use crate::text::bool_text;
use crate::replay::{replay, Converged};
use crate::where_cond::{Condition, WhereOp};
use vstd::prelude::*;

verus! {

/// A predicate made of affirmative comparisons joined by `And` alone.
pub open spec fn is_conjunction(p: Predicate) -> bool
    decreases p,
{
    match p {
        Predicate::Compare(_) => true,
        Predicate::And(left, right) => is_conjunction(*left) && is_conjunction(*right),
        _ => false,
    }
}

/// A conjunction whose first comparison, and no other, stands under one `Not`.
pub open spec fn is_led_by_negation(p: Predicate) -> bool
    decreases p,
{
    match p {
        Predicate::Not(inner) => *inner is Compare,
        Predicate::And(left, right) => is_led_by_negation(*left) && is_conjunction(*right),
        _ => false,
    }
}

/// The comparisons of a predicate in source order, as written.
pub open spec fn comparisons(p: Predicate) -> Seq<Condition>
    decreases p,
{
    match p {
        Predicate::Compare(w) => seq![w@],
        Predicate::Negated(_) => Seq::empty(),
        Predicate::Constant(_) => Seq::empty(),
        Predicate::Not(inner) => comparisons(*inner),
        Predicate::And(left, right) => comparisons(*left) + comparisons(*right),
        Predicate::Or(left, right) => comparisons(*left) + comparisons(*right),
    }
}

/// `n` outcomes, all `true`.
pub open spec fn all_true(n: nat) -> Seq<bool> {
    Seq::new(n, |i: int| true)
}

/// A session in which every slot created so far has been consumed.
pub open spec fn is_caught_up(s: Session) -> bool {
    s.index == s.slots.len()
}

/// A conjunction evaluated in a session that has caught up gives `true`,
/// creates one `true` slot for each comparison and emits the comparisons as
/// written.
pub proof fn lemma_conjunction_pass(p: Predicate, s: Session)
    requires
        is_conjunction(p),
        is_caught_up(s),
    ensures
        run(p, s) == (
            true,
            Session {
                index: s.index + comparisons(p).len(),
                slots: s.slots + all_true(comparisons(p).len()),
                clauses: s.clauses + comparisons(p),
            },
        ),
    decreases p,
{
    match p {
        Predicate::Compare(w) => {
            assert(s.slots.push(true) =~= s.slots + all_true(1));
            assert(s.clauses.push(w@) =~= s.clauses + seq![w@]);
        },
        Predicate::And(left, right) => {
            lemma_conjunction_pass(*left, s);
            let s1 = run(*left, s).1;
            lemma_conjunction_pass(*right, s1);
            let nl = comparisons(*left).len();
            let nr = comparisons(*right).len();
            assert(s.slots + all_true(nl) + all_true(nr) =~= s.slots + all_true(nl + nr));
            assert(s.clauses + comparisons(*left) + comparisons(*right) =~= s.clauses + (
            comparisons(*left) + comparisons(*right)));
        },
        _ => {},
    }
}

/// A conjunction of N comparisons converges in one pass and leaves its N
/// comparisons in source order, none of them negated.
pub proof fn lemma_conjunction_converges_at_once(p: Predicate, attempts: nat)
    requires
        is_conjunction(p),
        attempts >= 1,
    ensures
        replay(p, fresh_session(), attempts) == Some(
            Converged {
                session: Session {
                    index: comparisons(p).len(),
                    slots: all_true(comparisons(p).len()),
                    clauses: comparisons(p),
                },
                passes: 1,
            },
        ),
{
    lemma_conjunction_pass(p, fresh_session());
    let n = comparisons(p).len();
    assert(Seq::<bool>::empty() + all_true(n) =~= all_true(n));
    assert(Seq::<Condition>::empty() + comparisons(p) =~= comparisons(p));
}

/// The first pass of a predicate led by a negation fails at its first
/// comparison.
pub proof fn lemma_led_first_pass(p: Predicate)
    requires
        is_led_by_negation(p),
    ensures
        comparisons(p).len() >= 1,
        run(p, fresh_session()) == (
            false,
            Session { index: 1, slots: seq![true], clauses: seq![comparisons(p)[0]] },
        ),
    decreases p,
{
    match p {
        Predicate::Not(inner) => {
            let w = inner->Compare_0;
            assert(*inner == Predicate::Compare(w));
            assert(comparisons(*inner) =~= seq![w@]);
            assert(run(*inner, fresh_session()) == compare_step(w@, fresh_session()));
            assert(Seq::<bool>::empty().push(true) =~= seq![true]);
            assert(Seq::<Condition>::empty().push(w@) =~= seq![w@]);
        },
        Predicate::And(left, right) => {
            lemma_led_first_pass(*left);
        },
        _ => {},
    }
}

/// The conditions of a predicate led by a negation once it has converged: the
/// comparisons as written, the first one negated.
pub open spec fn led_conditions(p: Predicate) -> Seq<Condition> {
    comparisons(p).update(0, polarized(comparisons(p)[0], false))
}

/// The second pass of a predicate led by a negation succeeds.
pub proof fn lemma_led_second_pass(p: Predicate)
    requires
        is_led_by_negation(p),
    ensures
        comparisons(p).len() >= 1,
        run(p, Session { index: 0, slots: seq![false], clauses: Seq::empty() }) == (
            true,
            Session {
                index: comparisons(p).len(),
                slots: seq![false] + all_true((comparisons(p).len() - 1) as nat),
                clauses: led_conditions(p),
            },
        ),
    decreases p,
{
    let s0 = Session { index: 0, slots: seq![false], clauses: Seq::empty() };
    match p {
        Predicate::Not(inner) => {
            let w = inner->Compare_0;
            assert(*inner == Predicate::Compare(w));
            assert(comparisons(*inner) =~= seq![w@]);
            assert(run(*inner, s0) == compare_step(w@, s0));
            assert(seq![false] + all_true(0) =~= seq![false]);
            assert(Seq::<Condition>::empty().push(polarized(w@, false)) =~= led_conditions(p));
        },
        Predicate::And(left, right) => {
            lemma_led_second_pass(*left);
            let s1 = run(*left, s0).1;
            lemma_conjunction_pass(*right, s1);
            let nl = comparisons(*left).len();
            let nr = comparisons(*right).len();
            assert(seq![false] + all_true((nl - 1) as nat) + all_true(nr) =~= seq![false]
                + all_true((nl + nr - 1) as nat));
            assert(led_conditions(*left) + comparisons(*right) =~= led_conditions(p));
        },
        _ => {},
    }
}

/// A predicate of N comparisons of which the first, and only the first, is
/// negated converges in two passes and leaves its N comparisons in source
/// order, the first one negated.
pub proof fn lemma_leading_negation_converges_in_two(p: Predicate, attempts: nat)
    requires
        is_led_by_negation(p),
        attempts >= 2,
    ensures
        replay(p, fresh_session(), attempts) == Some(
            Converged {
                session: Session {
                    index: comparisons(p).len(),
                    slots: seq![false] + all_true((comparisons(p).len() - 1) as nat),
                    clauses: led_conditions(p),
                },
                passes: 2,
            },
        ),
{
    lemma_led_first_pass(p);
    lemma_led_second_pass(p);
    let s1 = run(p, fresh_session()).1;
    assert(rewound(s1).slots =~= seq![false]);
    assert(rewound(s1) == Session { index: 0, slots: seq![false], clauses: Seq::empty() });
    assert(replay(p, rewound(s1), (attempts - 1) as nat) is Some);
}

/// The number of comparisons of a predicate, boolean columns read through `!`
/// included.
pub open spec fn leaves(p: Predicate) -> nat
    decreases p,
{
    match p {
        Predicate::Compare(_) => 1,
        Predicate::Negated(_) => 1,
        Predicate::Constant(_) => 0,
        Predicate::Not(inner) => leaves(*inner),
        Predicate::And(left, right) => leaves(*left) + leaves(*right),
        Predicate::Or(left, right) => leaves(*left) + leaves(*right),
    }
}

/// A predicate in which every leaf is decided by a slot.
pub open spec fn is_free_of_constants(p: Predicate) -> bool
    decreases p,
{
    match p {
        Predicate::Compare(_) => true,
        Predicate::Negated(_) => true,
        Predicate::Constant(_) => false,
        Predicate::Not(inner) => is_free_of_constants(*inner),
        Predicate::And(left, right) => is_free_of_constants(*left) && is_free_of_constants(
            *right,
        ),
        Predicate::Or(left, right) => is_free_of_constants(*left) && is_free_of_constants(*right),
    }
}

/// A session in which no slot is consumed that was not created.
pub open spec fn is_sound(s: Session) -> bool {
    s.index <= s.slots.len()
}

/// What every evaluation does to the slots: it consumes at least one and at
/// most as many as the predicate has comparisons, reads the slots that exist
/// and leaves them as they are, and creates those that are missing as `true`.
pub proof fn lemma_run_shape(p: Predicate, s: Session)
    requires
        is_free_of_constants(p),
        is_sound(s),
    ensures
        leaves(p) >= 1,
        s.index < run(p, s).1.index <= s.index + leaves(p),
        is_sound(run(p, s).1),
        run(p, s).1.slots.len() == if run(p, s).1.index > s.slots.len() {
            run(p, s).1.index
        } else {
            s.slots.len()
        },
        forall|j: int| 0 <= j < s.slots.len() ==> run(p, s).1.slots[j] == s.slots[j],
        is_caught_up(s) ==> is_caught_up(run(p, s).1),
    decreases p,
{
    match p {
        Predicate::Compare(w) => {},
        Predicate::Negated(column) => {},
        Predicate::Constant(b) => {},
        Predicate::Not(inner) => {
            lemma_run_shape(*inner, s);
        },
        Predicate::And(left, right) => {
            lemma_run_shape(*left, s);
            lemma_run_shape(*right, run(*left, s).1);
            lemma_run_shape(*right, s);
        },
        Predicate::Or(left, right) => {
            lemma_run_shape(*left, s);
            lemma_run_shape(*right, run(*left, s).1);
            lemma_run_shape(*right, s);
        },
    }
}

/// An evaluation depends on the slots it reads alone: in a session that
/// holds, at the positions that the evaluation in `s` consumes, the outcomes
/// it met there, the evaluation takes the same course.
pub proof fn lemma_run_reads_its_slots(p: Predicate, s: Session, t: Session)
    requires
        is_free_of_constants(p),
        is_sound(s),
        t.index == s.index,
        run(p, s).1.index <= t.slots.len(),
        forall|j: int| s.index <= j < run(p, s).1.index ==> t.slots[j] == run(p, s).1.slots[j],
    ensures
        run(p, t).0 == run(p, s).0,
        run(p, t).1.index == run(p, s).1.index,
        run(p, t).1.slots == t.slots,
    decreases p,
{
    lemma_run_shape(p, s);
    match p {
        Predicate::Compare(w) => {
            assert(t.slots[s.index as int] == run(p, s).1.slots[s.index as int]);
        },
        Predicate::Negated(column) => {
            assert(t.slots[s.index as int] == run(p, s).1.slots[s.index as int]);
        },
        Predicate::Constant(b) => {},
        Predicate::Not(inner) => {
            lemma_run_reads_its_slots(*inner, s, t);
        },
        Predicate::And(left, right) => {
            let sl = run(*left, s).1;
            lemma_run_shape(*left, s);
            lemma_run_shape(*right, sl);
            assert forall|j: int| s.index <= j < sl.index implies t.slots[j] == sl.slots[j] by {
                assert(t.slots[j] == run(p, s).1.slots[j]);
            }
            lemma_run_reads_its_slots(*left, s, t);
            if run(*left, s).0 {
                lemma_run_reads_its_slots(*right, sl, run(*left, t).1);
            }
        },
        Predicate::Or(left, right) => {
            let sl = run(*left, s).1;
            lemma_run_shape(*left, s);
            lemma_run_shape(*right, sl);
            assert forall|j: int| s.index <= j < sl.index implies t.slots[j] == sl.slots[j] by {
                assert(t.slots[j] == run(p, s).1.slots[j]);
            }
            lemma_run_reads_its_slots(*left, s, t);
            if !run(*left, s).0 {
                lemma_run_reads_its_slots(*right, sl, run(*left, t).1);
            }
        },
    }
}

/// What negating the most recent slot does to a pass that consumed every
/// slot: the next pass either creates a slot more, or ends where the pass
/// before it ended, with the opposite result. Either way it consumes every
/// slot.
pub proof fn lemma_flip_makes_progress(p: Predicate, s: Session, t: Session)
    requires
        is_free_of_constants(p),
        is_sound(s),
        is_caught_up(run(p, s).1),
        t.index == s.index,
        t.slots == flip_last(run(p, s).1.slots),
    ensures
        is_caught_up(run(p, t).1),
        run(p, t).1.slots.len() >= t.slots.len(),
        forall|j: int| 0 <= j < t.slots.len() ==> run(p, t).1.slots[j] == t.slots[j],
        run(p, t).1.slots.len() > t.slots.len() || (run(p, t).0 == !run(p, s).0 && run(p, t).1.slots
            == t.slots),
    decreases p,
{
    lemma_run_shape(p, s);
    lemma_run_shape(p, t);
    let s1 = run(p, s).1;
    match p {
        Predicate::Compare(w) => {},
        Predicate::Negated(column) => {},
        Predicate::Constant(b) => {},
        Predicate::Not(inner) => {
            lemma_flip_makes_progress(*inner, s, t);
        },
        Predicate::And(left, right) => {
            let sl = run(*left, s).1;
            lemma_run_shape(*left, s);
            lemma_run_shape(*right, sl);
            if run(*left, s).0 {
                assert forall|j: int| s.index <= j < sl.index implies t.slots[j]
                    == sl.slots[j] by {
                    assert(s1.slots[j] == sl.slots[j]);
                }
                lemma_run_reads_its_slots(*left, s, t);
                lemma_flip_makes_progress(*right, sl, run(*left, t).1);
            } else {
                lemma_flip_makes_progress(*left, s, t);
                lemma_run_shape(*left, t);
                if run(*left, t).0 {
                    lemma_run_shape(*right, run(*left, t).1);
                }
            }
        },
        Predicate::Or(left, right) => {
            let sl = run(*left, s).1;
            lemma_run_shape(*left, s);
            lemma_run_shape(*right, sl);
            if !run(*left, s).0 {
                assert forall|j: int| s.index <= j < sl.index implies t.slots[j]
                    == sl.slots[j] by {
                    assert(s1.slots[j] == sl.slots[j]);
                }
                lemma_run_reads_its_slots(*left, s, t);
                lemma_flip_makes_progress(*right, sl, run(*left, t).1);
            } else {
                lemma_flip_makes_progress(*left, s, t);
                lemma_run_shape(*left, t);
                if !run(*left, t).0 {
                    lemma_run_shape(*right, run(*left, t).1);
                }
            }
        },
    }
}

/// After a pass that failed having consumed every slot, the replay converges
/// within one pass more than the predicate has comparisons left to create
/// slots for.
pub proof fn lemma_replay_converges_from(p: Predicate, s: Session, attempts: nat)
    requires
        is_free_of_constants(p),
        s.index == 0,
        !run(p, s).0,
        is_caught_up(run(p, s).1),
        attempts + run(p, s).1.slots.len() > leaves(p),
    ensures
        replay(p, rewound(run(p, s).1), attempts) is Some,
        replay(p, rewound(run(p, s).1), attempts)->Some_0.passes + run(p, s).1.slots.len()
            <= leaves(p) + 1,
    decreases attempts,
{
    let s1 = run(p, s).1;
    let t = rewound(s1);
    lemma_run_shape(p, s);
    lemma_run_shape(p, t);
    lemma_flip_makes_progress(p, s, t);
    if run(p, t).0 {
    } else {
        lemma_replay_converges_from(p, t, (attempts - 1) as nat);
    }
}

/// Every predicate whose leaves are all decided by slots converges: a replay
/// that may make one pass more than the predicate has comparisons ends in a
/// pass that gives `true`, and makes no more passes than that.
pub proof fn lemma_replay_converges(p: Predicate, attempts: nat)
    requires
        is_free_of_constants(p),
        attempts > leaves(p),
    ensures
        replay(p, fresh_session(), attempts) is Some,
        replay(p, fresh_session(), attempts)->Some_0.passes <= leaves(p) + 1,
{
    lemma_run_shape(p, fresh_session());
    if !run(p, fresh_session()).0 {
        lemma_replay_converges_from(p, fresh_session(), (attempts - 1) as nat);
    }
}

/// A predicate that gives `false` whatever the slots say.
pub open spec fn is_never_true(p: Predicate) -> bool {
    forall|s: Session| !(#[trigger] run(p, s)).0
}

/// A branch that ends in `&& false` is never true.
pub proof fn lemma_false_branch_is_never_true(p: Predicate)
    ensures
        is_never_true(Predicate::And(Box::new(p), Box::new(Predicate::Constant(false)))),
{
    let branch = Predicate::And(Box::new(p), Box::new(Predicate::Constant(false)));
    assert forall|s: Session| !(#[trigger] run(branch, s)).0 by {
        let s1 = run(p, s).1;
        assert(run(Predicate::Constant(false), s1) == (false, s1));
    }
}

/// Two branches that are never true, joined by `||`, are never true.
pub proof fn lemma_or_of_never_true(left: Predicate, right: Predicate)
    requires
        is_never_true(left),
        is_never_true(right),
    ensures
        is_never_true(Predicate::Or(Box::new(left), Box::new(right))),
{
    let both = Predicate::Or(Box::new(left), Box::new(right));
    assert forall|s: Session| !(#[trigger] run(both, s)).0 by {
        assert(!run(left, s).0);
        assert(!run(right, run(left, s).1).0);
    }
}

/// A replay of a predicate that is never true does not converge, from
/// whatever session it starts and however many passes it may make.
pub proof fn lemma_never_true_from(p: Predicate, s: Session, attempts: nat)
    requires
        is_never_true(p),
    ensures
        replay(p, s, attempts) is None,
    decreases attempts,
{
    if attempts > 0 {
        assert(!run(p, s).0);
        lemma_never_true_from(p, rewound(run(p, s).1), (attempts - 1) as nat);
    }
}

/// A predicate that is never true is malformed: its replay runs out of passes
/// at every ceiling, so that the filter is rejected rather than replayed
/// without end.
pub proof fn lemma_never_true_is_malformed(p: Predicate, attempts: nat)
    requires
        is_never_true(p),
    ensures
        replay(p, fresh_session(), attempts) is None,
{
    lemma_never_true_from(p, fresh_session(), attempts);
}

/// Two branches joined by `||`, each of which ends in `&& false`, are
/// malformed at every ceiling.
pub proof fn lemma_two_false_branches_are_malformed(
    left: Predicate,
    right: Predicate,
    attempts: nat,
)
    ensures
        replay(
            Predicate::Or(
                Box::new(Predicate::And(Box::new(left), Box::new(Predicate::Constant(false)))),
                Box::new(Predicate::And(Box::new(right), Box::new(Predicate::Constant(false)))),
            ),
            fresh_session(),
            attempts,
        ) is None,
{
    let first = Predicate::And(Box::new(left), Box::new(Predicate::Constant(false)));
    let second = Predicate::And(Box::new(right), Box::new(Predicate::Constant(false)));
    lemma_false_branch_is_never_true(left);
    lemma_false_branch_is_never_true(right);
    lemma_or_of_never_true(first, second);
    lemma_never_true_is_malformed(Predicate::Or(Box::new(first), Box::new(second)), attempts);
}

/// The comparisons that an evaluation reaches, in order and as written; a
/// boolean column read through `!` counts as the comparison with the value
/// that its slot asks for.
pub open spec fn reached(p: Predicate, s: Session) -> Seq<Condition>
    decreases p,
{
    match p {
        Predicate::Compare(w) => seq![w@],
        Predicate::Negated(column) => seq![
            Condition {
                oper: WhereOp::EqualTo,
                column: column@,
                value: bool_text(!consume(s).0),
            },
        ],
        Predicate::Constant(_) => Seq::empty(),
        Predicate::Not(inner) => reached(*inner, s),
        Predicate::And(left, right) => {
            if run(*left, s).0 {
                reached(*left, s) + reached(*right, run(*left, s).1)
            } else {
                reached(*left, s)
            }
        },
        Predicate::Or(left, right) => {
            if run(*left, s).0 {
                reached(*left, s)
            } else {
                reached(*left, s) + reached(*right, run(*left, s).1)
            }
        },
    }
}

/// The conditions that comparisons leave when they are decided by the slots
/// from position `from` on, one slot each: a comparison is negated exactly
/// where its slot is `false`.
pub open spec fn emitted(comparisons: Seq<Condition>, slots: Seq<bool>, from: int) -> Seq<
    Condition,
> {
    Seq::new(comparisons.len(), |k: int| polarized(comparisons[k], slots[from + k]))
}

/// An evaluation leaves the slots that exist as they are, and consumes no
/// slot that it did not read or create.
pub proof fn lemma_run_keeps_slots(p: Predicate, s: Session)
    requires
        is_sound(s),
    ensures
        is_sound(run(p, s).1),
        s.index <= run(p, s).1.index,
        s.slots.len() <= run(p, s).1.slots.len(),
        forall|j: int| 0 <= j < s.slots.len() ==> run(p, s).1.slots[j] == s.slots[j],
    decreases p,
{
    match p {
        Predicate::Not(inner) => {
            lemma_run_keeps_slots(*inner, s);
        },
        Predicate::And(left, right) => {
            lemma_run_keeps_slots(*left, s);
            lemma_run_keeps_slots(*right, run(*left, s).1);
        },
        Predicate::Or(left, right) => {
            lemma_run_keeps_slots(*left, s);
            lemma_run_keeps_slots(*right, run(*left, s).1);
        },
        _ => {},
    }
}

/// The conditions of a pass follow its slots: an evaluation consumes one slot
/// for each comparison it reaches, and emits each comparison negated exactly
/// where its slot is `false`, in the order in which it reaches them.
pub proof fn lemma_clauses_follow_slots(p: Predicate, s: Session)
    requires
        is_sound(s),
    ensures
        run(p, s).1.index == s.index + reached(p, s).len(),
        run(p, s).1.clauses == s.clauses + emitted(reached(p, s), run(p, s).1.slots, s.index as int),
    decreases p,
{
    let s1 = run(p, s).1;
    lemma_run_keeps_slots(p, s);
    match p {
        Predicate::Compare(w) => {
            assert(s1.clauses =~= s.clauses + emitted(reached(p, s), s1.slots, s.index as int));
        },
        Predicate::Negated(column) => {
            assert(s1.clauses =~= s.clauses + emitted(reached(p, s), s1.slots, s.index as int));
        },
        Predicate::Constant(b) => {
            assert(s1.clauses =~= s.clauses + emitted(reached(p, s), s1.slots, s.index as int));
        },
        Predicate::Not(inner) => {
            lemma_clauses_follow_slots(*inner, s);
        },
        Predicate::And(left, right) => {
            let sl = run(*left, s).1;
            lemma_clauses_follow_slots(*left, s);
            lemma_run_keeps_slots(*left, s);
            if run(*left, s).0 {
                lemma_clauses_follow_slots(*right, sl);
                lemma_run_keeps_slots(*right, sl);
                assert(s1.clauses =~= s.clauses + emitted(
                    reached(p, s),
                    s1.slots,
                    s.index as int,
                ));
            }
        },
        Predicate::Or(left, right) => {
            let sl = run(*left, s).1;
            lemma_clauses_follow_slots(*left, s);
            lemma_run_keeps_slots(*left, s);
            if !run(*left, s).0 {
                lemma_clauses_follow_slots(*right, sl);
                lemma_run_keeps_slots(*right, sl);
                assert(s1.clauses =~= s.clauses + emitted(
                    reached(p, s),
                    s1.slots,
                    s.index as int,
                ));
            }
        },
    }
}

} // verus!
