//! Queries that carry the connection they run on, and typed comparison
//! values.

use crate::text::same_text;
use std::marker::PhantomData;
use vstd::prelude::*;

verus! {

/// A user row.
pub struct User {
    pub id: usize,
    pub name: String,
}

/// The table of users of one database.
pub struct UserTable {
    pub connection: String,
}

/// A database, by its connection string.
pub struct Database {
    pub connection: String,
}

impl Database {
    /// The database reached through `conn`.
    pub fn new(conn: String) -> (db: Self)
        ensures
            db.connection == conn,
    {
        Database { connection: conn }
    }

    /// The table of users of this database.
    pub fn user(&self) -> (t: UserTable)
        ensures
            t.connection@ == self.connection@,
    {
        UserTable { connection: self.connection.clone() }
    }
}

/// Picks what is read of a row.
pub trait Select<T> {
    fn select<F>(&self, selection: F) -> Vec<F>;
}

/// Finds rows, given the connection to use.
pub trait Query<T> {
    fn find_first(where_cond: String, connection: String) -> Option<T>;

    fn find_many(where_cond: String, connection: String) -> Vec<T>;
}

/// As `Query<T>`, with the connection known already.
pub trait ManagedQuery<T> {
    fn find_first(&self, where_cond: String) -> Option<T>;

    fn find_many(&self, where_cond: String) -> Vec<T>;
}

/// A value that a column must differ from.
pub struct NotEqual<T> {
    pub not_equal: T,
}

/// A value that a column must equal.
pub struct Equal<T> {
    pub equal: T,
}

/// A comparison with a value.
pub enum Compare<T> {
    Equal(Equal<T>),
    NotEqual(NotEqual<T>),
}

/// The comparison "differs from `not_equal`".
pub fn ne<T>(not_equal: T) -> (r: NotEqual<T>)
    ensures
        r.not_equal == not_equal,
{
    NotEqual { not_equal }
}

/// The comparison "equals `equal`".
pub fn eq<T>(equal: T) -> (r: Equal<T>)
    ensures
        r.equal == equal,
{
    Equal { equal }
}

/// Builder of queries with very little typing.
pub struct QueryBuilder {}

impl QueryBuilder {
    pub fn new() -> Self {
        QueryBuilder {  }
    }
}

/// A reference to the field at position `C` of the entity `E`.
pub struct Ref<E, const C: usize> {
    pub _entity: PhantomData<E>,
}

/// Whether `name` is among `names`.
pub open spec fn is_among(names: Seq<String>, name: Seq<char>) -> bool {
    exists|j: int| 0 <= j < names.len() && names[j]@ == name
}

/// Whether `name` is among `names`.
pub fn contains_name(names: &Vec<String>, name: &str) -> (r: bool)
    ensures
        r == is_among(names@, name@),
{
    let mut j: usize = 0;
    while j < names.len()
        invariant
            j <= names.len(),
            forall|m: int| 0 <= m < j ==> names@[m]@ != name@,
        decreases names.len() - j,
    {
        if same_text(names[j].as_str(), name) {
            return true;
        }
        j = j + 1;
    }
    false
}

/// Whether every name of `field_names` is among `struct_field_names`.
pub fn has_matching_fields(struct_field_names: &Vec<String>, field_names: &Vec<String>) -> (r:
    bool)
    ensures
        r == forall|i: int|
            0 <= i < field_names@.len() ==> is_among(
                struct_field_names@,
                (#[trigger] field_names@[i])@,
            ),
{
    let mut i: usize = 0;
    while i < field_names.len()
        invariant
            i <= field_names.len(),
            forall|k: int|
                0 <= k < i ==> is_among(struct_field_names@, (#[trigger] field_names@[k])@),
        decreases field_names.len() - i,
    {
        if !contains_name(struct_field_names, field_names[i].as_str()) {
            return false;
        }
        i = i + 1;
    }
    true
}

} // verus!
