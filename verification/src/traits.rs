//! What an entity type tells the library about its database object.

use crate::error::OrmoluError;
use crate::text::same_text;
use vstd::prelude::*;

verus! {

/// An entity with a table.
pub trait HasTableName {
    fn table_name() -> &'static str;
}

/// An object that lives in a schema.
pub trait HasSchemaName {
    /// The schema of the object.
    fn schema_name() -> &'static str;
}

/// An object that has a name within its schema.
pub trait HasObjectName {
    /// The name of the object within its schema.
    fn object_name() -> &'static str;
}

/// An object with a schema and a name, and so with a qualified name.
pub trait HasQualifiedName: HasSchemaName + HasObjectName {
    /// Schema and name, as `schema.name`.
    fn qualified_name() -> &'static str;
}

/// Anything defined in a database that stores or manipulates data.
pub trait DatabaseObject: HasQualifiedName {
}

/// A row type that knows its primary key.
pub trait HasPrimaryKey<T>: Sized {
    /// The primary key of this record.
    fn primary_key(&self) -> &T;
}

/// Marks a column whose values are unique within the table.
pub trait UniqueConstraint {
}

/// An entity whose columns can be filtered on through a proxy.
pub trait Filterable {
    type Proxy;

    /// The proxy on which filters are written, or the error of a proxy that
    /// could not be made.
    fn to_field_filter() -> Result<Self::Proxy, OrmoluError>;
}

/// An entity whose columns can be picked for selection.
pub trait Selectable {
    type Select;

    fn select() -> Self::Select;
}

/// A stored procedure of the database.
pub trait StoredProcedure: DatabaseObject {
    fn execute<T>(&self) -> Result<T, String>;
}

/// The zero-based position of the first occurrence of `column` in `columns`.
pub fn position_of(columns: &[&'static str], column: &str) -> (r: Option<usize>)
    ensures
        match r {
            Some(i) => i < columns@.len() && columns@[i as int]@ == column@ && forall|j: int|
                0 <= j < i ==> columns@[j]@ != column@,
            None => forall|j: int| 0 <= j < columns@.len() ==> columns@[j]@ != column@,
        },
{
    let mut i: usize = 0;
    while i < columns.len()
        invariant
            i <= columns@.len(),
            forall|j: int| 0 <= j < i ==> columns@[j]@ != column@,
        decreases columns.len() - i,
    {
        if same_text(columns[i], column) {
            return Some(i);
        }
        i = i + 1;
    }
    None
}

/// The one-based position of `column` among `columns`.
pub fn ordinal_in(columns: &[&'static str], column: &str) -> (r: Option<usize>)
    ensures
        match r {
            Some(n) => 1 <= n <= columns@.len() && columns@[n - 1]@ == column@ && forall|j: int|
                0 <= j < n - 1 ==> columns@[j]@ != column@,
            None => forall|j: int| 0 <= j < columns@.len() ==> columns@[j]@ != column@,
        },
{
    let n = columns.len();
    match position_of(columns, column) {
        Some(i) => {
            assert(i < n);
            Some(i + 1)
        },
        None => None,
    }
}

/// The column at the one-based position `ordinal`, if there is one.
pub fn column_at(columns: &[&'static str], ordinal: usize) -> (r: Option<&'static str>)
    ensures
        1 <= ordinal <= columns@.len() ==> r == Some(columns@[ordinal - 1]),
        !(1 <= ordinal <= columns@.len()) ==> r is None,
{
    if ordinal >= 1 && ordinal <= columns.len() {
        Some(columns[ordinal - 1])
    } else {
        None
    }
}

/// Whether `columns` holds `column`.
pub fn has_column(columns: &[&'static str], column: &str) -> (r: bool)
    ensures
        r == exists|j: int| 0 <= j < columns@.len() && columns@[j]@ == column@,
{
    position_of(columns, column).is_some()
}

#[verifier::external_type_specification]
#[verifier::external_body]
#[verifier::reject_recursive_types(K)]
#[verifier::reject_recursive_types(V)]
pub struct ExFieldMap<K: 'static, V: 'static>(phf::Map<K, V>);

/// The entries of a static map from field names to column names.
pub uninterp spec fn field_map_entries(m: phf::Map<&'static str, &'static str>) -> Map<
    Seq<char>,
    Seq<char>,
>;

/// `phf::Map::get`, with the value copied out: the value stored under `key`,
/// or `None` where the map has no such key. This is said of maps as `phf`
/// builds them; a map put together by hand from its fields may not be one.
#[verifier::external_body]
fn field_map_get(map: &phf::Map<&'static str, &'static str>, key: &str) -> (r: Option<
    &'static str,
>)
    ensures
        match r {
            Some(v) => field_map_entries(*map).contains_key(key@) && field_map_entries(*map)[key@]
                == v@,
            None => !field_map_entries(*map).contains_key(key@),
        },
{
    map.get(key).copied()
}

/// The column a field is stored in: the name the map gives for the field, or
/// the field's own name where the map has none.
pub fn db_column_name(map: &phf::Map<&'static str, &'static str>, key: &'static str) -> (r:
    &'static str)
    ensures
        r@ == if field_map_entries(*map).contains_key(key@) {
            field_map_entries(*map)[key@]
        } else {
            key@
        },
{
    match field_map_get(map, key) {
        Some(name) => name,
        None => key,
    }
}

/// The name under which a field is stored, given the renamed fields: the name
/// that the entries give for the field, or the field's own name where they
/// give none.
pub open spec fn stored_name(entries: Map<Seq<char>, Seq<char>>, key: Seq<char>) -> Seq<char> {
    if entries.contains_key(key) {
        entries[key]
    } else {
        key
    }
}

/// `r` is the one-based position of the first occurrence of `column` among
/// `columns`, or `None` where `column` is not among them.
pub open spec fn is_ordinal_of(columns: Seq<&'static str>, column: Seq<char>, r: Option<usize>)
    -> bool {
    match r {
        Some(n) => 1 <= n <= columns.len() && columns[n - 1]@ == column && forall|j: int|
            0 <= j < n - 1 ==> columns[j]@ != column,
        None => forall|j: int| 0 <= j < columns.len() ==> columns[j]@ != column,
    }
}

/// The column at the one-based position `ordinal`, if there is one.
pub open spec fn column_at_ordinal(columns: Seq<&'static str>, ordinal: usize) -> Option<
    &'static str,
> {
    if 1 <= ordinal <= columns.len() {
        Some(columns[ordinal - 1])
    } else {
        None
    }
}

/// An entity that knows its columns.
pub trait HasFields {
    /// The columns whose name differs from the field's, by field name.
    fn field_map() -> &'static phf::Map<&'static str, &'static str>;

    /// All the database columns, in order.
    fn database_columns() -> &'static [&'static str];

    /// The database column of a field: the name that the entity's field map
    /// gives for it, or the field's own name where the map has none.
    fn get_db_column_name(key: &'static str) -> (r: &'static str)
        ensures
            exists|map: &'static phf::Map<&'static str, &'static str>|
                #[trigger] call_ensures(Self::field_map, (), map) && r@ == stored_name(
                    field_map_entries(*map),
                    key@,
                ),
    {
        db_column_name(Self::field_map(), key)
    }

    /// The one-based position of the database column of this name among the
    /// entity's columns: that of its first occurrence, or `None` where the
    /// entity has no such column.
    fn ordinal(column: &'static str) -> (r: Option<usize>)
        ensures
            exists|columns: &'static [&'static str]|
                #[trigger] call_ensures(Self::database_columns, (), columns) && is_ordinal_of(
                    columns@,
                    column@,
                    r,
                ),
    {
        ordinal_in(Self::database_columns(), column)
    }

    /// The name of the entity's column at the one-based position `ordinal`,
    /// or `None` where the position is zero or beyond the last column.
    fn column(ordinal: usize) -> (r: Option<&'static str>)
        ensures
            exists|columns: &'static [&'static str]|
                #[trigger] call_ensures(Self::database_columns, (), columns) && r
                    == column_at_ordinal(columns@, ordinal),
    {
        column_at(Self::database_columns(), ordinal)
    }
}

/// A database table.
pub trait Table: DatabaseObject + Filterable + HasFields + Sized {
}

/// An entity that has everything a query needs.
pub trait Gilded: Filterable + Selectable + HasTableName + HasFields + Sized {
    /// Whether the entity has everything a query needs: it has, as the bounds
    /// of the trait say.
    fn is_gilded() -> (r: bool)
        ensures
            r,
    {
        true
    }
}

} // verus!
