//! The replay engine: a predicate is evaluated again and again, with the most
//! recent slot negated after each pass that fails, until a pass succeeds.

use crate::error::OrmoluError;
use crate::filter::{fresh_session, rewound, FilterState, Session};
use crate::predicate::{run, Predicate};
use crate::traits::Filterable;
use vstd::prelude::*;

verus! {

/// Number of passes a replay makes at most unless the caller says otherwise.
pub const DEFAULT_MAX_ATTEMPTS: usize = 64;

/// Mathematical result of a replay that converged.
pub struct Converged {
    /// The session as the successful pass left it.
    pub session: Session,
    /// Number of passes made, the successful one included.
    pub passes: nat,
}

/// A result that took `k` passes more.
pub open spec fn later(r: Option<Converged>, k: nat) -> Option<Converged> {
    match r {
        Some(c) => Some(Converged { passes: c.passes + k, ..c }),
        None => None,
    }
}

/// Replay of `p` from session `s` with `attempts` passes left: the first pass
/// that gives `true` ends it; after any other pass only the most recent slot
/// is negated. `None` when the passes run out.
pub open spec fn replay(p: Predicate, s: Session, attempts: nat) -> Option<Converged>
    decreases attempts,
{
    if attempts == 0 {
        None
    } else {
        let (b, s1) = run(p, s);
        if b {
            Some(Converged { session: s1, passes: 1 })
        } else {
            later(replay(p, rewound(s1), (attempts - 1) as nat), 1)
        }
    }
}

/// Outcome of a replay that converged.
pub struct FieldsFilter {
    /// The state as the successful pass left it; its clauses are the filter.
    pub state: FilterState,
    /// Number of passes made, the successful one included.
    pub passes: usize,
}

impl FieldsFilter {
    /// Replays `predicate` with the default attempt ceiling.
    pub fn new(predicate: &Predicate) -> (r: Result<FieldsFilter, OrmoluError>)
        ensures
            match replay(*predicate, fresh_session(), DEFAULT_MAX_ATTEMPTS as nat) {
                Some(c) => r matches Ok(f) && f.state@ == c.session && f.passes == c.passes,
                None => r matches Err(OrmoluError::MalformedPredicate),
            },
    {
        FieldsFilter::with_ceiling(predicate, DEFAULT_MAX_ATTEMPTS)
    }

    /// Replays `predicate`, making at most `max_attempts` passes.
    pub fn with_ceiling(predicate: &Predicate, max_attempts: usize) -> (r: Result<
        FieldsFilter,
        OrmoluError,
    >)
        ensures
            match replay(*predicate, fresh_session(), max_attempts as nat) {
                Some(c) => r matches Ok(f) && f.state@ == c.session && f.passes == c.passes,
                None => r matches Err(OrmoluError::MalformedPredicate),
            },
    {
        let mut state = FilterState::new();
        let mut attempts: usize = 0;
        while attempts < max_attempts
            invariant
                attempts <= max_attempts,
                state.wf(),
                replay(*predicate, fresh_session(), max_attempts as nat) == later(
                    replay(*predicate, state@, (max_attempts - attempts) as nat),
                    attempts as nat,
                ),
            decreases max_attempts - attempts,
        {
            let ghost before = state@;
            let positive_context = predicate.eval(&mut state);
            attempts = attempts + 1;
            let ghost reached = state@;
            match after_pass(&mut state, positive_context, attempts, max_attempts) {
                Verdict::Converged => {
                    return Ok(FieldsFilter { state, passes: attempts });
                },
                Verdict::Retry => {
                    proof {
                        let rest = replay(*predicate, state@, (max_attempts - attempts) as nat);
                        assert(replay(*predicate, before, (max_attempts - attempts + 1) as nat)
                            == later(rest, 1));
                    }
                },
                Verdict::GaveUp => {
                    proof {
                        assert(replay(*predicate, rewound(reached), 0) is None);
                        assert(replay(*predicate, before, 1) is None);
                    }
                    return Err(OrmoluError::MalformedPredicate);
                },
            }
        }
        Err(OrmoluError::MalformedPredicate)
    }
}

/// What the engine does after a pass.
pub enum Verdict {
    /// The pass gave `true`: its conditions are the filter.
    Converged,
    /// The pass gave `false` and another one follows.
    Retry,
    /// The pass gave `false` and none is left.
    GaveUp,
}

/// Decides what follows pass number `passes` of at most `max_attempts`, which
/// gave `outcome`, and rewinds the state where another pass follows.
pub fn after_pass(state: &mut FilterState, outcome: bool, passes: usize, max_attempts: usize) -> (v:
    Verdict)
    ensures
        outcome ==> v is Converged && *final(state) == *old(state),
        !outcome && passes < max_attempts ==> v is Retry && final(state)@ == rewound(old(state)@)
            && final(state).wf(),
        !outcome && passes >= max_attempts ==> v is GaveUp && *final(state) == *old(state),
{
    if outcome {
        Verdict::Converged
    } else if passes < max_attempts {
        state.rewind();
        Verdict::Retry
    } else {
        Verdict::GaveUp
    }
}

impl FieldsFilter {
    /// Replays a predicate given as a function of the entity's proxy and the
    /// filter state, making at most `max_attempts` passes; each pass gets a
    /// fresh proxy from the entity. What the function does is its own: `Ok`
    /// holds the state that a pass which gave `true` left; a predicate that
    /// gives `false` whatever it is handed is an error, as is one that does
    /// not give `true` in time, and so is a proxy that the entity cannot make.
    pub fn replay_with<T: Filterable, P: Fn(T::Proxy, &mut FilterState) -> bool>(
        predicate: P,
        max_attempts: usize,
    ) -> (r: Result<FieldsFilter, OrmoluError>)
        requires
            forall|proxy: T::Proxy, s: &mut FilterState|
                s.wf() && s@.index == 0 && s@.clauses.len() == 0 ==> #[trigger] call_requires(
                    predicate,
                    (proxy, s),
                ),
        ensures
            match r {
                Ok(f) => 1 <= f.passes <= max_attempts && exists|
                    proxy: T::Proxy,
                    s: &mut FilterState,
                |
                    #[trigger] call_ensures(predicate, (proxy, s), true) && *final(s) == f.state
                        && s.wf() && s@.index == 0 && s@.clauses.len() == 0 && call_ensures(
                        T::to_field_filter,
                        (),
                        Ok::<T::Proxy, OrmoluError>(proxy),
                    ),
                Err(e) => (e is MalformedPredicate && (max_attempts == 0 || exists|
                    proxy: T::Proxy,
                    s: &mut FilterState,
                |
                    #[trigger] call_ensures(predicate, (proxy, s), false) && s.wf() && s@.index
                        == 0 && s@.clauses.len() == 0)) || call_ensures(
                    T::to_field_filter,
                    (),
                    Err::<T::Proxy, OrmoluError>(e),
                ),
            },
            max_attempts == 0 ==> r matches Err(OrmoluError::MalformedPredicate),
            (forall|proxy: T::Proxy, s: &mut FilterState|
                !#[trigger] call_ensures(predicate, (proxy, s), true)) ==> r is Err,
    {
        let mut state = FilterState::new();
        let mut passes: usize = 0;
        while passes < max_attempts
            invariant
                passes <= max_attempts,
                passes == 0 || passes < max_attempts,
                state.wf(),
                state@.index == 0,
                state@.clauses.len() == 0,
                forall|proxy: T::Proxy, s: &mut FilterState|
                    s.wf() && s@.index == 0 && s@.clauses.len() == 0 ==> #[trigger] call_requires(
                        predicate,
                        (proxy, s),
                    ),
            decreases max_attempts - passes,
        {
            let made = T::to_field_filter();
            let proxy = match made {
                Ok(proxy) => proxy,
                Err(e) => {
                    return Err(e);
                },
            };
            let positive_context = predicate(proxy, &mut state);
            let ghost left = state;
            assert(exists|proxy: T::Proxy, s: &mut FilterState|
                #[trigger] call_ensures(predicate, (proxy, s), positive_context) && *final(s)
                    == left && s.wf() && s@.index == 0 && s@.clauses.len() == 0 && call_ensures(
                    T::to_field_filter,
                    (),
                    Ok::<T::Proxy, OrmoluError>(proxy),
                ));
            passes = passes + 1;
            match after_pass(&mut state, positive_context, passes, max_attempts) {
                Verdict::Converged => {
                    let found = FieldsFilter { state, passes };
                    assert(found.state == left);
                    assert(exists|proxy: T::Proxy, s: &mut FilterState|
                        #[trigger] call_ensures(predicate, (proxy, s), true) && *final(s)
                            == found.state && s.wf() && s@.index == 0 && s@.clauses.len() == 0
                            && call_ensures(
                            T::to_field_filter,
                            (),
                            Ok::<T::Proxy, OrmoluError>(proxy),
                        ));
                    return Ok(found);
                },
                Verdict::Retry => {},
                Verdict::GaveUp => {
                    assert(exists|proxy: T::Proxy, s: &mut FilterState|
                        #[trigger] call_ensures(predicate, (proxy, s), false) && s.wf() && s@.index
                            == 0 && s@.clauses.len() == 0);
                    return Err(OrmoluError::MalformedPredicate);
                },
            }
        }
        Err(OrmoluError::MalformedPredicate)
    }
}

} // verus!
