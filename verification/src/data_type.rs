//! Column types that carry a constraint of the schema.

use std::marker::PhantomData;
use vstd::prelude::*;
use vstd::std_specs::cmp::{PartialEqSpec, PartialEqSpecImpl};

verus! {

/// The primary key of `Entity`.
#[derive(Debug)]
pub struct PrimaryKey<Entity, T> {
    value: T,
    _entity: PhantomData<Entity>,
}

impl<Entity, T> View for PrimaryKey<Entity, T> {
    type V = T;

    closed spec fn view(&self) -> T {
        self.value
    }
}

impl<Entity, T> PrimaryKey<Entity, T> {
    /// The key with this value.
    pub fn new(value: T) -> (k: Self)
        ensures
            k@ == value,
    {
        PrimaryKey { value, _entity: PhantomData }
    }

    /// The value of the key.
    pub fn as_ref(&self) -> (r: &T)
        ensures
            *r == self@,
    {
        &self.value
    }

    /// The key given up for its value.
    pub fn into_inner(self) -> (r: T)
        ensures
            r == self@,
    {
        self.value
    }
}

impl<Entity, T: PartialEq> PartialEq for PrimaryKey<Entity, T> {
    /// Two keys are the same where their values are.
    fn eq(&self, other: &Self) -> (r: bool) {
        self.value == other.value
    }
}

impl<Entity, T: PartialEq> PartialEqSpecImpl for PrimaryKey<Entity, T> {
    open spec fn obeys_eq_spec() -> bool {
        T::obeys_eq_spec()
    }

    open spec fn eq_spec(&self, other: &Self) -> bool {
        self@.eq_spec(&other@)
    }
}

/// A key of the row of `Entity` that is referred to; `ORDINAL` is the
/// one-based position of the column referred to.
pub struct ForeignKey<Entity, const ORDINAL: usize, T> {
    _entity: PhantomData<Entity>,
    value: T,
}

impl<Entity, const ORDINAL: usize, T> View for ForeignKey<Entity, ORDINAL, T> {
    type V = T;

    closed spec fn view(&self) -> T {
        self.value
    }
}

impl<Entity, const ORDINAL: usize, T> ForeignKey<Entity, ORDINAL, T> {
    /// The key with this value.
    pub fn new(value: T) -> (k: Self)
        ensures
            k@ == value,
    {
        ForeignKey { _entity: PhantomData, value }
    }

    /// The value of the key.
    pub fn as_ref(&self) -> (r: &T)
        ensures
            *r == self@,
    {
        &self.value
    }

    /// The one-based position of the column referred to.
    pub fn ordinal(&self) -> (r: usize)
        ensures
            r == ORDINAL,
    {
        ORDINAL
    }
}

/// A value that is unique among the rows of its table.
pub struct Unique<T>(pub T);

impl<T> Unique<T> {
    /// The value under the constraint.
    pub fn as_ref(&self) -> (r: &T)
        ensures
            *r == self.0,
    {
        &self.0
    }
}

/// A column generated from an implicit sequence.
pub struct Identity<T>(pub T);

impl<T> Identity<T> {
    /// The value of the column.
    pub fn deref(&self) -> (r: &T)
        ensures
            *r == self.0,
    {
        &self.0
    }
}

/// An auto-incrementing integer column.
pub struct Serial(pub i32);

/// Text of exactly `N` bytes.
pub struct Char<const N: usize>(pub [u8; N]);

} // verus!
