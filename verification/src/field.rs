//! Column proxies: comparisons written on them are recorded as conditions.

use crate::data_type::PrimaryKey;
use crate::error::OrmoluError;
use crate::filter::FilterState;
use crate::predicate::{compare, compare_step, negate_field, negated_step};
use crate::text::{bool_text, bool_to_string, i32_to_string, int_text};
use crate::traits::has_column;
use crate::where_cond::{containing, contains_pattern, Condition, Where, WhereOp};
use std::marker::PhantomData;
use vstd::prelude::*;

verus! {

/// `column LIKE %s%`.
pub open spec fn like_condition(column: Seq<char>, s: Seq<char>) -> Condition {
    Condition { oper: WhereOp::Like, column, value: containing(s) }
}

/// `column = value`.
pub open spec fn eq_condition(column: Seq<char>, value: Seq<char>) -> Condition {
    Condition { oper: WhereOp::EqualTo, column, value }
}

/// Whether `columns` holds the column `name`.
pub open spec fn is_known(columns: Seq<&'static str>, name: Seq<char>) -> bool {
    exists|j: int| 0 <= j < columns.len() && columns[j]@ == name
}

/// Proxy of a column of type `T` in a filter. A proxy is made for a column
/// that its entity has, and for no other.
pub struct Col<T> {
    field_name: &'static str,
    _marker: PhantomData<T>,
}

impl<T> View for Col<T> {
    type V = Seq<char>;

    /// The name of the column.
    closed spec fn view(&self) -> Seq<char> {
        self.field_name@
    }
}

impl<T> Col<T> {
    /// The proxy of the column `field_name` of an entity with these columns,
    /// or `UnknownColumn` where the entity has no such column.
    pub fn new(columns: &[&'static str], field_name: &'static str) -> (r: Result<
        Self,
        OrmoluError,
    >)
        ensures
            match r {
                Ok(c) => c@ == field_name@ && is_known(columns@, field_name@),
                Err(e) => e is UnknownColumn && !is_known(columns@, field_name@),
            },
    {
        if has_column(columns, field_name) {
            Ok(Col { field_name, _marker: PhantomData })
        } else {
            Err(OrmoluError::UnknownColumn)
        }
    }

    /// The name of the column.
    pub fn field_name(&self) -> (r: &'static str)
        ensures
            r@ == self@,
    {
        self.field_name
    }
}

impl Col<String> {
    /// Records `column LIKE %s%` with the polarity of the next slot.
    pub fn contains(&self, state: &mut FilterState, s: &str) -> (r: bool)
        requires
            old(state).wf(),
        ensures
            (r, final(state)@) == compare_step(like_condition(self@, s@), old(state)@),
            final(state).wf(),
    {
        compare(state, Where::like(self.field_name, contains_pattern(s)))
    }

    /// Records `column = other` with the polarity of the next slot.
    pub fn eq(&self, state: &mut FilterState, other: &String) -> (r: bool)
        requires
            old(state).wf(),
        ensures
            (r, final(state)@) == compare_step(
                eq_condition(self@, other@),
                old(state)@,
            ),
            final(state).wf(),
    {
        compare(state, Where::eq(self.field_name, other.clone()))
    }
}

impl Col<&'static str> {
    /// Records `column = other` with the polarity of the next slot.
    pub fn eq(&self, state: &mut FilterState, other: &String) -> (r: bool)
        requires
            old(state).wf(),
        ensures
            (r, final(state)@) == compare_step(
                eq_condition(self@, other@),
                old(state)@,
            ),
            final(state).wf(),
    {
        compare(state, Where::eq(self.field_name, other.clone()))
    }
}

impl Col<i32> {
    /// Records `column = other` with the polarity of the next slot.
    pub fn eq(&self, state: &mut FilterState, other: &i32) -> (r: bool)
        requires
            old(state).wf(),
        ensures
            (r, final(state)@) == compare_step(
                eq_condition(self@, int_text(*other as int)),
                old(state)@,
            ),
            final(state).wf(),
    {
        compare(state, Where::eq(self.field_name, i32_to_string(*other)))
    }
}

impl<E, T: std::fmt::Display> Col<PrimaryKey<E, T>> {
    /// Records `column = other` with the polarity of the next slot, the key
    /// written as its value displays.
    pub fn eq(&self, state: &mut FilterState, other: &PrimaryKey<E, T>) -> (r: bool)
        requires
            old(state).wf(),
        ensures
            exists|text: String|
                #[trigger] vstd::string::to_string_from_display_ensures::<T>(&other@, text) && (
                    r,
                    final(state)@,
                ) == compare_step(eq_condition(self@, text@), old(state)@),
            final(state).wf(),
    {
        let text = other.as_ref().to_string();
        let ghost shown = text;
        let r = compare(state, Where::eq(self.field_name, text));
        assert(vstd::string::to_string_from_display_ensures::<T>(&other@, shown) && (
            r,
            state@,
        ) == compare_step(eq_condition(self@, shown@), old(state)@));
        r
    }
}

impl Col<bool> {
    /// Records `column = other` with the polarity of the next slot.
    pub fn eq(&self, state: &mut FilterState, other: &bool) -> (r: bool)
        requires
            old(state).wf(),
        ensures
            (r, final(state)@) == compare_step(
                eq_condition(self@, bool_text(*other)),
                old(state)@,
            ),
            final(state).wf(),
    {
        compare(state, Where::eq(self.field_name, bool_to_string(*other)))
    }

    /// Records the condition of `!column` with the polarity of the next slot.
    pub fn not(self, state: &mut FilterState) -> (r: bool)
        requires
            old(state).wf(),
        ensures
            (r, final(state)@) == negated_step(self@, old(state)@),
            final(state).wf(),
    {
        negate_field(state, self.field_name)
    }
}

/// Proxy of a field of type `T` in a filter. A proxy is made for a field that
/// its entity has, and for no other.
pub struct Field<T> {
    field_name: &'static str,
    _marker: PhantomData<T>,
}

impl<T> View for Field<T> {
    type V = Seq<char>;

    /// The name of the field.
    closed spec fn view(&self) -> Seq<char> {
        self.field_name@
    }
}

impl<T> Field<T> {
    /// The proxy of the field `field_name` of an entity with these fields, or
    /// `UnknownColumn` where the entity has no such field.
    pub fn new(fields: &[&'static str], field_name: &'static str) -> (r: Result<
        Self,
        OrmoluError,
    >)
        ensures
            match r {
                Ok(c) => c@ == field_name@ && is_known(fields@, field_name@),
                Err(e) => e is UnknownColumn && !is_known(fields@, field_name@),
            },
    {
        if has_column(fields, field_name) {
            Ok(Field { field_name, _marker: PhantomData })
        } else {
            Err(OrmoluError::UnknownColumn)
        }
    }

    /// The name of the field.
    pub fn field_name(&self) -> (r: &'static str)
        ensures
            r@ == self@,
    {
        self.field_name
    }
}

impl Field<String> {
    /// Records `field LIKE %s%` with the polarity of the next slot.
    pub fn contains(&self, state: &mut FilterState, s: &str) -> (r: bool)
        requires
            old(state).wf(),
        ensures
            (r, final(state)@) == compare_step(like_condition(self@, s@), old(state)@),
            final(state).wf(),
    {
        compare(state, Where::like(self.field_name, contains_pattern(s)))
    }

    /// Records `field = other` with the polarity of the next slot.
    pub fn eq(&self, state: &mut FilterState, other: &String) -> (r: bool)
        requires
            old(state).wf(),
        ensures
            (r, final(state)@) == compare_step(
                eq_condition(self@, other@),
                old(state)@,
            ),
            final(state).wf(),
    {
        compare(state, Where::eq(self.field_name, other.clone()))
    }
}

impl Field<i32> {
    /// Records `field = other` with the polarity of the next slot.
    pub fn eq(&self, state: &mut FilterState, other: &i32) -> (r: bool)
        requires
            old(state).wf(),
        ensures
            (r, final(state)@) == compare_step(
                eq_condition(self@, int_text(*other as int)),
                old(state)@,
            ),
            final(state).wf(),
    {
        compare(state, Where::eq(self.field_name, i32_to_string(*other)))
    }
}

impl Field<&'static str> {
    /// Records `field = other` with the polarity of the next slot.
    pub fn eq(&self, state: &mut FilterState, other: &String) -> (r: bool)
        requires
            old(state).wf(),
        ensures
            (r, final(state)@) == compare_step(eq_condition(self@, other@), old(state)@),
            final(state).wf(),
    {
        compare(state, Where::eq(self.field_name, other.clone()))
    }
}

} // verus!
