//! A query that is built up by chained filters and rendered on demand.

use crate::error::OrmoluError;
use crate::filter::{conditions_of, fresh_session, FilterState};
use crate::predicate::Predicate;
use crate::command::names_of;
use crate::query_builder::{bare_select, statement_text, Query, QueryState};
use crate::replay::{replay, FieldsFilter, DEFAULT_MAX_ATTEMPTS};
use crate::traits::Table;
use crate::where_cond::Condition;
use vstd::prelude::*;

verus! {

impl<T: Table> QueryState<T> {
    /// A `SELECT` of all the columns of `T` from its table and nothing more:
    /// table and columns are what the entity gives as its object name and its
    /// database columns, in their order. The statement is terminated.
    pub fn new_select() -> (q: Self)
        ensures
            exists|table: &'static str, columns: &'static [&'static str]|
                #[trigger] call_ensures(T::object_name, (), table) && #[trigger] call_ensures(
                    T::database_columns,
                    (),
                    columns,
                ) && q@ == bare_select(table@, names_of(columns@)),
    {
        QueryState::select_from(T::object_name(), T::database_columns())
    }
}

/// The query with `more` conditions after its own.
pub open spec fn with_conditions(q: Query, more: Seq<Condition>) -> Query {
    Query { conditions: q.conditions + more, ..q }
}

/// A lazily built query on the table of `T`.
pub struct QuerySet<T: Table> {
    pub state: QueryState<T>,
}

impl<T: Table> QuerySet<T> {
    /// The query set of a query state.
    pub fn new(state: QueryState<T>) -> (q: Self)
        ensures
            q.state == state,
    {
        QuerySet { state }
    }

    /// Adds the conditions of `predicate`, found by replay with at most
    /// `max_attempts` passes, after those the query has; they are joined by
    /// `AND` when rendered. A predicate that does not converge is an error.
    pub fn filter_within(self, predicate: &Predicate, max_attempts: usize) -> (r: Result<
        Self,
        OrmoluError,
    >)
        ensures
            match replay(*predicate, fresh_session(), max_attempts as nat) {
                Some(c) => r matches Ok(q) && q.state@ == with_conditions(
                    self.state@,
                    c.session.clauses,
                ),
                None => r matches Err(OrmoluError::MalformedPredicate),
            },
    {
        let mut this = self;
        match FieldsFilter::with_ceiling(predicate, max_attempts) {
            Ok(filter) => {
                let mut found = filter.state.clauses;
                let ghost old_conditions = this.state.where_conditions@;
                let ghost new_conditions = found@;
                this.state.where_conditions.append(&mut found);
                assert(conditions_of(old_conditions + new_conditions) =~= conditions_of(
                    old_conditions,
                ) + conditions_of(new_conditions));
                Ok(this)
            },
            Err(e) => Err(OrmoluError::MalformedPredicate),
        }
    }

    /// Adds the conditions of `predicate` after those the query has; they are
    /// joined by `AND` when rendered.
    pub fn filter(self, predicate: &Predicate) -> (r: Result<Self, OrmoluError>)
        ensures
            match replay(*predicate, fresh_session(), DEFAULT_MAX_ATTEMPTS as nat) {
                Some(c) => r matches Ok(q) && q.state@ == with_conditions(
                    self.state@,
                    c.session.clauses,
                ),
                None => r matches Err(OrmoluError::MalformedPredicate),
            },
    {
        self.filter_within(predicate, DEFAULT_MAX_ATTEMPTS)
    }

    /// As `filter`: the grammar has no `OR` between conditions.
    pub fn filter_or(self, predicate: &Predicate) -> (r: Result<Self, OrmoluError>)
        ensures
            match replay(*predicate, fresh_session(), DEFAULT_MAX_ATTEMPTS as nat) {
                Some(c) => r matches Ok(q) && q.state@ == with_conditions(
                    self.state@,
                    c.session.clauses,
                ),
                None => r matches Err(OrmoluError::MalformedPredicate),
            },
    {
        self.filter_within(predicate, DEFAULT_MAX_ATTEMPTS)
    }

    /// Adds the conditions that a predicate given as a function leaves, found
    /// by replay with the default attempt ceiling, after those the query has.
    /// Nothing else of the query changes. A predicate that does not give
    /// `true` in time is an error, and so is one that gives `false` whatever
    /// it is handed, and a proxy that the entity cannot make.
    pub fn filter_with<P: Fn(T::Proxy, &mut FilterState) -> bool>(self, predicate: P) -> (r:
        Result<Self, OrmoluError>)
        requires
            forall|proxy: T::Proxy, s: &mut FilterState|
                s.wf() && s@.index == 0 && s@.clauses.len() == 0 ==> #[trigger] call_requires(
                    predicate,
                    (proxy, s),
                ),
        ensures
            match r {
                Ok(q) => exists|proxy: T::Proxy, s: &mut FilterState|
                    #[trigger] call_ensures(predicate, (proxy, s), true) && s.wf() && s@.index == 0
                        && s@.clauses.len() == 0 && call_ensures(
                        T::to_field_filter,
                        (),
                        Ok::<T::Proxy, OrmoluError>(proxy),
                    ) && q.state@ == with_conditions(self.state@, final(s)@.clauses),
                Err(e) => (e is MalformedPredicate && exists|
                    proxy: T::Proxy,
                    s: &mut FilterState,
                |
                    #[trigger] call_ensures(predicate, (proxy, s), false) && s.wf() && s@.index
                        == 0 && s@.clauses.len() == 0) || call_ensures(
                    T::to_field_filter,
                    (),
                    Err::<T::Proxy, OrmoluError>(e),
                ),
            },
            (forall|proxy: T::Proxy, s: &mut FilterState|
                !#[trigger] call_ensures(predicate, (proxy, s), true)) ==> r is Err,
    {
        let mut this = self;
        match FieldsFilter::replay_with::<T, P>(predicate, DEFAULT_MAX_ATTEMPTS) {
            Ok(filter) => {
                let ghost left = filter.state;
                assert(exists|proxy: T::Proxy, s: &mut FilterState|
                    #[trigger] call_ensures(predicate, (proxy, s), true) && *final(s) == left
                        && s.wf() && s@.index == 0 && s@.clauses.len() == 0 && call_ensures(
                        T::to_field_filter,
                        (),
                        Ok::<T::Proxy, OrmoluError>(proxy),
                    ));
                let mut found = filter.state.clauses;
                let ghost old_conditions = this.state.where_conditions@;
                let ghost new_conditions = found@;
                this.state.where_conditions.append(&mut found);
                assert(conditions_of(old_conditions + new_conditions) =~= conditions_of(
                    old_conditions,
                ) + conditions_of(new_conditions));
                assert(this.state@ == with_conditions(self.state@, left@.clauses));
                assert(exists|proxy: T::Proxy, s: &mut FilterState|
                    #[trigger] call_ensures(predicate, (proxy, s), true) && s.wf() && s@.index == 0
                        && s@.clauses.len() == 0 && call_ensures(
                        T::to_field_filter,
                        (),
                        Ok::<T::Proxy, OrmoluError>(proxy),
                    ) && this.state@ == with_conditions(self.state@, final(s)@.clauses));
                Ok(this)
            },
            Err(e) => Err(e),
        }
    }

    /// The SQL text of the query.
    pub fn to_string(&self) -> (r: Result<String, OrmoluError>)
        ensures
            self.state.is_supported() ==> (r matches Ok(s) && s@ == statement_text(self.state@)),
            !self.state.is_supported() ==> r matches Err(OrmoluError::UnsupportedCommand),
    {
        self.state.to_string()
    }
}

} // verus!
