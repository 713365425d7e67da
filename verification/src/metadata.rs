//! What the derive layer works out for an entity: the names of its database
//! object, the constraints of its columns and the names of what is generated.

use crate::naming::{naive_pluralize, naive_singularize, plural_of, singular_of};
use crate::text::same_text;
use crate::type_model::{custom_type_of, parse_custom_type, CustomType, CustomTypeModel, TypeRef};
use vstd::prelude::*;
use vstd::string::{StrSliceExecFns, StringExecFns};

verus! {

/// An attribute of the form `name = "value"`.
pub struct Attribute {
    pub name: String,
    pub value: String,
}

/// The names of a database object.
pub struct ObjectNames {
    pub schema_name: String,
    pub object_name: String,
    /// Schema and object, as `schema.object`.
    pub qualified_name: String,
}

/// Why the attributes of an entity do not name a database object. An index is
/// the position of the attribute at fault.
#[derive(Clone, Copy, Debug, PartialEq, Eq, Structural)]
pub enum AttributeError {
    /// `name` is not of the form `schema.object`.
    MalformedName(usize),
    /// The attribute is none of `name`, `object`, `schema`.
    UnknownAttribute(usize),
    /// `get_pool` is not supported yet.
    UnsupportedAttribute(usize),
    /// No attribute names the object.
    MissingObject,
    /// No attribute names the schema.
    MissingSchema,
}

/// `i` is the position of the only `.` in `v`.
pub open spec fn is_only_dot(v: Seq<char>, i: int) -> bool {
    0 <= i < v.len() && v[i] == '.' && forall|j: int| 0 <= j < v.len() && j != i ==> v[j] != '.'
}

/// What stands before and after the `.` of a text that holds exactly one.
pub open spec fn split_at_only_dot(v: Seq<char>) -> Option<(Seq<char>, Seq<char>)> {
    if exists|i: int| is_only_dot(v, i) {
        let i = choose|i: int| is_only_dot(v, i);
        Some((v.subrange(0, i), v.subrange(i + 1, v.len() as int)))
    } else {
        None
    }
}

/// Splits `schema.object` at its `.`; `None` unless there is exactly one.
pub fn split_qualified_name(value: &str) -> (r: Option<(String, String)>)
    ensures
        match split_at_only_dot(value@) {
            Some(parts) => r matches Some(found) && found.0@ == parts.0 && found.1@ == parts.1,
            None => r is None,
        },
{
    let n = value.unicode_len();
    let mut dot: Option<usize> = None;
    let mut i: usize = 0;
    while i < n
        invariant
            n == value@.len(),
            i <= n,
            match dot {
                Some(d) => d < i && value@[d as int] == '.' && forall|j: int|
                    0 <= j < i && j != d ==> value@[j] != '.',
                None => forall|j: int| 0 <= j < i ==> value@[j] != '.',
            },
        decreases n - i,
    {
        let c = value.get_char(i);
        if c == '.' {
            match dot {
                Some(d) => {
                    assert forall|k: int| !is_only_dot(value@, k) by {
                        if is_only_dot(value@, k) {
                            assert(value@[d as int] == '.');
                            assert(value@[i as int] == '.');
                        }
                    }
                    return None;
                },
                None => {
                    dot = Some(i);
                },
            }
        }
        i = i + 1;
    }
    match dot {
        Some(d) => {
            assert(is_only_dot(value@, d as int));
            let ghost chosen = choose|k: int| is_only_dot(value@, k);
            assert(chosen == d);
            let schema = String::from_str(value.substring_char(0, d));
            let object = String::from_str(value.substring_char(d + 1, n));
            Some((schema, object))
        },
        None => {
            assert forall|k: int| !is_only_dot(value@, k) by {}
            None
        },
    }
}

/// Schema and object name as the attributes read so far give them.
pub struct Names {
    pub schema: Seq<char>,
    pub object: Seq<char>,
}

/// The names after one more attribute, the one at `index`: `name` gives both,
/// `object` and `schema` give one each, anything else is an error.
pub open spec fn with_attribute(names: Names, attr: Attribute, index: int) -> Result<
    Names,
    AttributeError,
> {
    if attr.name@ == "name"@ {
        match split_at_only_dot(attr.value@) {
            Some(parts) => Ok(Names { schema: parts.0, object: parts.1 }),
            None => Err(AttributeError::MalformedName(index as usize)),
        }
    } else if attr.name@ == "object"@ {
        Ok(Names { object: attr.value@, ..names })
    } else if attr.name@ == "schema"@ {
        Ok(Names { schema: attr.value@, ..names })
    } else if attr.name@ == "get_pool"@ {
        Err(AttributeError::UnsupportedAttribute(index as usize))
    } else {
        Err(AttributeError::UnknownAttribute(index as usize))
    }
}

/// The names after the first `n` attributes, or the first error among them.
pub open spec fn names_after(attrs: Seq<Attribute>, n: int) -> Result<Names, AttributeError>
    decreases n,
{
    if n <= 0 {
        Ok(Names { schema: Seq::empty(), object: Seq::empty() })
    } else {
        match names_after(attrs, n - 1) {
            Ok(names) => with_attribute(names, attrs[n - 1], n - 1),
            Err(e) => Err(e),
        }
    }
}

/// The names that the attributes of an entity give its database object: both
/// must be given, and neither may be empty.
pub open spec fn object_names_of(attrs: Seq<Attribute>) -> Result<Names, AttributeError> {
    match names_after(attrs, attrs.len() as int) {
        Ok(names) => {
            if names.object.len() == 0 {
                Err(AttributeError::MissingObject)
            } else if names.schema.len() == 0 {
                Err(AttributeError::MissingSchema)
            } else {
                Ok(names)
            }
        },
        Err(e) => Err(e),
    }
}

/// Works out the names of an entity's database object from its attributes.
/// Later attributes overwrite earlier ones.
pub fn expand_derive_database_object(attrs: &Vec<Attribute>) -> (r: Result<
    ObjectNames,
    AttributeError,
>)
    ensures
        match object_names_of(attrs@) {
            Ok(names) => r matches Ok(found) && found.schema_name@ == names.schema
                && found.object_name@ == names.object && found.qualified_name@ == names.schema
                + "."@ + names.object,
            Err(e) => r == Err::<ObjectNames, AttributeError>(e),
        },
{
    let mut object_name = String::new();
    let mut schema_name = String::new();
    let mut i: usize = 0;
    while i < attrs.len()
        invariant
            i <= attrs.len(),
            names_after(attrs@, i as int) == Ok::<Names, AttributeError>(
                Names { schema: schema_name@, object: object_name@ },
            ),
        decreases attrs.len() - i,
    {
        let attr = &attrs[i];
        if same_text(attr.name.as_str(), "name") {
            match split_qualified_name(attr.value.as_str()) {
                Some((first, second)) => {
                    schema_name = first;
                    object_name = second;
                },
                None => {
                    assert(names_after(attrs@, i + 1) is Err);
                    proof {
                        lemma_error_stays(attrs@, i + 1, attrs@.len() as int);
                    }
                    return Err(AttributeError::MalformedName(i));
                },
            }
        } else if same_text(attr.name.as_str(), "object") {
            object_name = attr.value.clone();
        } else if same_text(attr.name.as_str(), "schema") {
            schema_name = attr.value.clone();
        } else if same_text(attr.name.as_str(), "get_pool") {
            proof {
                lemma_error_stays(attrs@, i + 1, attrs@.len() as int);
            }
            return Err(AttributeError::UnsupportedAttribute(i));
        } else {
            proof {
                lemma_error_stays(attrs@, i + 1, attrs@.len() as int);
            }
            return Err(AttributeError::UnknownAttribute(i));
        }
        i = i + 1;
    }
    if object_name.as_str().is_empty() {
        return Err(AttributeError::MissingObject);
    }
    if schema_name.as_str().is_empty() {
        return Err(AttributeError::MissingSchema);
    }
    let mut qualified_name = schema_name.clone();
    qualified_name.append(".");
    qualified_name.append(object_name.as_str());
    Ok(ObjectNames { schema_name, object_name, qualified_name })
}

/// An error among the first attributes is the error of all of them.
proof fn lemma_error_stays(attrs: Seq<Attribute>, n: int, m: int)
    requires
        0 <= n <= m,
        names_after(attrs, n) is Err,
    ensures
        names_after(attrs, m) == names_after(attrs, n),
    decreases m - n,
{
    if n < m {
        lemma_error_stays(attrs, n, m - 1);
    }
}

/// The constraints of a column.
pub struct ColumnConstraints {
    pub primary_key: bool,
    /// The entity referred to and the position of its column.
    pub foreign_key: Option<(String, usize)>,
    pub unique: bool,
}

/// What the attributes on a field say of its column.
pub struct FieldAttributes {
    /// The name of the database column, where it differs from the field's.
    pub column_name: Option<String>,
}

/// A field of an entity with what is known of its column.
pub struct ColumnMetadata {
    /// Name of the field of the Rust struct.
    pub name: String,
    pub ty: TypeRef,
    pub attributes: FieldAttributes,
    pub constraints: ColumnConstraints,
}

/// An entity struct with what is known of its columns.
pub struct TableMetadata {
    /// Name of the struct: the table's name in Pascal case.
    pub struct_name: String,
    pub fields: Vec<ColumnMetadata>,
}

/// Why a column's constraints cannot be worked out.
#[derive(Clone, Copy, Debug, PartialEq, Eq, Structural)]
pub enum ConstraintError {
    /// A foreign key refers to an entity that is not named by one identifier.
    EntityIsNoIdentifier,
}

/// Mathematical value of a column's constraints.
pub struct Constraints {
    pub primary_key: bool,
    pub foreign_key: Option<(Seq<char>, usize)>,
    pub unique: bool,
}

impl View for ColumnConstraints {
    type V = Constraints;

    open spec fn view(&self) -> Constraints {
        Constraints {
            primary_key: self.primary_key,
            foreign_key: match self.foreign_key {
                Some(key) => Some((key.0@, key.1)),
                None => None,
            },
            unique: self.unique,
        }
    }
}

/// The constraints that a field's type stands for: a primary key is unique
/// too, and a foreign key names its entity.
pub open spec fn constraints_of(ct: CustomTypeModel) -> Result<Constraints, ConstraintError> {
    match ct {
        CustomTypeModel::PrimaryKey => Ok(
            Constraints { primary_key: true, foreign_key: None, unique: true },
        ),
        CustomTypeModel::Unique => Ok(
            Constraints { primary_key: false, foreign_key: None, unique: true },
        ),
        CustomTypeModel::ForeignKey(entity, ordinal) => match entity {
            Some(name) => Ok(
                Constraints {
                    primary_key: false,
                    foreign_key: Some((name, ordinal)),
                    unique: false,
                },
            ),
            None => Err(ConstraintError::EntityIsNoIdentifier),
        },
        CustomTypeModel::Other => Ok(
            Constraints { primary_key: false, foreign_key: None, unique: false },
        ),
    }
}

/// The constraints that a field's type stands for.
pub fn column_constraints(ct: CustomType) -> (r: Result<ColumnConstraints, ConstraintError>)
    ensures
        match constraints_of(ct@) {
            Ok(c) => r matches Ok(found) && found@ == c,
            Err(e) => r == Err::<ColumnConstraints, ConstraintError>(e),
        },
{
    match ct {
        CustomType::PrimaryKey => Ok(
            ColumnConstraints { primary_key: true, foreign_key: None, unique: true },
        ),
        CustomType::Unique => Ok(
            ColumnConstraints { primary_key: false, foreign_key: None, unique: true },
        ),
        CustomType::ForeignKey(entity, ordinal) => match entity {
            Some(name) => Ok(
                ColumnConstraints {
                    primary_key: false,
                    foreign_key: Some((name, ordinal)),
                    unique: false,
                },
            ),
            None => Err(ConstraintError::EntityIsNoIdentifier),
        },
        CustomType::Other => Ok(
            ColumnConstraints { primary_key: false, foreign_key: None, unique: false },
        ),
    }
}

impl ColumnMetadata {
    /// A field without attributes or constraints.
    pub fn new(name: String, ty: TypeRef) -> (c: Self)
        ensures
            c.name == name,
            c.ty == ty,
            c.attributes.column_name is None,
            c.constraints@ == (Constraints {
                primary_key: false,
                foreign_key: None,
                unique: false,
            }),
    {
        ColumnMetadata {
            name,
            ty,
            attributes: FieldAttributes { column_name: None },
            constraints: ColumnConstraints { primary_key: false, foreign_key: None, unique: false },
        }
    }

    /// A field with the constraints its type stands for, and the column name
    /// that its attributes give.
    pub fn from_field(name: String, ty: TypeRef, column_name: Option<String>) -> (r: Result<
        Self,
        ConstraintError,
    >)
        ensures
            match constraints_of(custom_type_of(ty)) {
                Ok(c) => r matches Ok(found) && found.name == name && found.ty == ty
                    && found.attributes.column_name == column_name && found.constraints@ == c,
                Err(e) => r matches Err(f) && f == e,
            },
    {
        let ct = parse_custom_type(&ty);
        match column_constraints(ct) {
            Ok(constraints) => Ok(
                ColumnMetadata {
                    name,
                    ty,
                    attributes: FieldAttributes { column_name },
                    constraints,
                },
            ),
            Err(e) => Err(e),
        }
    }

    /// The database column the field is stored in: the name its attributes
    /// give, or its own.
    pub fn db_column(&self) -> (r: &str)
        ensures
            r@ == match self.attributes.column_name {
                Some(name) => name@,
                None => self.name@,
            },
    {
        match &self.attributes.column_name {
            Some(name) => name.as_str(),
            None => self.name.as_str(),
        }
    }
}

impl TableMetadata {
    /// An entity without fields.
    pub fn new(struct_name: String) -> (t: Self)
        ensures
            t.struct_name == struct_name,
            t.fields@.len() == 0,
    {
        TableMetadata { struct_name, fields: Vec::new() }
    }

    /// The names of the fields, in order.
    pub fn field_names(&self) -> (r: Vec<String>)
        ensures
            r@.len() == self.fields@.len(),
            forall|i: int| 0 <= i < r@.len() ==> r@[i]@ == self.fields@[i].name@,
    {
        let mut names: Vec<String> = Vec::new();
        let mut i: usize = 0;
        while i < self.fields.len()
            invariant
                i <= self.fields.len(),
                names@.len() == i,
                forall|k: int| 0 <= k < i ==> names@[k]@ == self.fields@[k].name@,
            decreases self.fields.len() - i,
        {
            names.push(self.fields[i].name.clone());
            i = i + 1;
        }
        names
    }

    /// The fields that are stored under another name, each with that name, in
    /// the order of the fields.
    pub fn exceptions(&self) -> (r: Vec<(String, String)>)
        ensures
            pairs_of(r@) == renamed_among(self.fields@),
    {
        let mut found: Vec<(String, String)> = Vec::new();
        let mut i: usize = 0;
        assert(pairs_of(found@) =~= renamed_among(self.fields@.take(0)));
        while i < self.fields.len()
            invariant
                i <= self.fields.len(),
                pairs_of(found@) == renamed_among(self.fields@.take(i as int)),
            decreases self.fields.len() - i,
        {
            proof {
                assert(self.fields@.take(i + 1).drop_last() =~= self.fields@.take(i as int));
                assert(self.fields@.take(i + 1).last() == self.fields@[i as int]);
            }
            let ghost before = found@;
            if let Some(db_name) = &self.fields[i].attributes.column_name {
                let pair = (self.fields[i].name.clone(), db_name.clone());
                found.push(pair);
                assert(pairs_of(found@) =~= pairs_of(before).push((pair.0@, pair.1@)));
            }
            i = i + 1;
        }
        assert(self.fields@.take(i as int) =~= self.fields@);
        found
    }
}

/// The texts of pairs of strings.
pub open spec fn pairs_of(v: Seq<(String, String)>) -> Seq<(Seq<char>, Seq<char>)> {
    v.map_values(|p: (String, String)| (p.0@, p.1@))
}

/// The fields that are stored under another name than their own, each with
/// that name, in the order of the fields.
pub open spec fn renamed_among(fields: Seq<ColumnMetadata>) -> Seq<(Seq<char>, Seq<char>)>
    decreases fields.len(),
{
    if fields.len() == 0 {
        Seq::empty()
    } else {
        match fields.last().attributes.column_name {
            Some(db_name) => renamed_among(fields.drop_last()).push(
                (fields.last().name@, db_name@),
            ),
            None => renamed_among(fields.drop_last()),
        }
    }
}

/// A field as the struct declares it.
pub struct FieldSource {
    pub name: String,
    pub ty: TypeRef,
    /// The column name that the field's attributes give, if any.
    pub column_name: Option<String>,
}

/// Whether the constraints of a declared field can be worked out.
pub open spec fn has_constraints(f: FieldSource) -> bool {
    constraints_of(custom_type_of(f.ty)) is Ok
}

/// `col` is what `f` declares, with the constraints its type stands for.
pub open spec fn describes(col: ColumnMetadata, f: FieldSource) -> bool {
    &&& col.name == f.name
    &&& col.ty == f.ty
    &&& col.attributes.column_name == f.column_name
    &&& constraints_of(custom_type_of(f.ty)) == Ok::<Constraints, ConstraintError>(
        col.constraints@,
    )
}

/// Works out the metadata of an entity from the fields its struct declares:
/// one column for each field, in order. A field whose constraints cannot be
/// worked out is an error.
pub fn expand_derive_table(struct_name: String, fields: Vec<FieldSource>) -> (r: Result<
    TableMetadata,
    ConstraintError,
>)
    ensures
        match r {
            Ok(table) => table.struct_name == struct_name && table.fields@.len()
                == fields@.len() && forall|i: int|
                0 <= i < fields@.len() ==> describes(#[trigger] table.fields@[i], fields@[i]),
            Err(e) => exists|i: int| 0 <= i < fields@.len() && !has_constraints(fields@[i]),
        },
{
    let mut table = TableMetadata::new(struct_name);
    let mut rest = fields;
    while rest.len() > 0
        invariant
            table.struct_name == struct_name,
            rest@.len() <= fields@.len(),
            rest@ == fields@.take(rest@.len() as int),
            table.fields@.len() == fields@.len() - rest@.len(),
            forall|i: int|
                0 <= i < table.fields@.len() ==> describes(
                    #[trigger] table.fields@[i],
                    fields@[rest@.len() + i],
                ),
        decreases rest@.len(),
    {
        let ghost before = table.fields@;
        let ghost n = rest@.len();
        let field = match rest.pop() {
            Some(field) => field,
            None => {
                return Ok(table);
            },
        };
        assert(field == fields@[n - 1]);
        let FieldSource { name, ty, column_name } = field;
        match ColumnMetadata::from_field(name, ty, column_name) {
            Ok(col) => {
                table.fields.insert(0, col);
                assert forall|i: int| 0 <= i < table.fields@.len() implies describes(
                    #[trigger] table.fields@[i],
                    fields@[rest@.len() + i],
                ) by {
                    if i > 0 {
                        assert(table.fields@[i] == before[i - 1]);
                    }
                }
            },
            Err(e) => {
                assert(!has_constraints(fields@[n - 1]));
                return Err(e);
            },
        }
    }
    Ok(table)
}

/// A name in lower case, as the standard library writes it.
pub uninterp spec fn lowercase_of(name: Seq<char>) -> Seq<char>;

/// A name in upper case, as the standard library writes it.
pub uninterp spec fn uppercase_of(name: Seq<char>) -> Seq<char>;

/// `str::to_lowercase`: the name in lower case.
#[verifier::external_body]
fn to_lowercase(name: &str) -> (r: String)
    ensures
        r@ == lowercase_of(name@),
{
    name.to_lowercase()
}

/// `str::to_uppercase`: the name in upper case.
#[verifier::external_body]
fn to_uppercase(name: &str) -> (r: String)
    ensures
        r@ == uppercase_of(name@),
{
    name.to_uppercase()
}

/// The name of the proxy struct on which filters of an entity are written.
pub fn filter_name(struct_name: &str) -> (r: String)
    ensures
        r@ == struct_name@ + "Filter"@,
{
    String::from_str(struct_name).concat("Filter")
}

/// The name of the struct on which the columns of an entity are picked.
pub fn select_name(struct_name: &str) -> (r: String)
    ensures
        r@ == struct_name@ + "Select"@,
{
    String::from_str(struct_name).concat("Select")
}

/// The name of the method that fetches an entity by a unique field.
pub fn getter_name(field_name: &str) -> (r: String)
    ensures
        r@ == "get_by_"@ + field_name@,
{
    String::from_str("get_by_").concat(field_name)
}

/// The name of the static map that holds the renamed fields of an entity.
pub fn exceptions_name(struct_name: &str) -> (r: String)
    ensures
        r@ == uppercase_of(struct_name@) + "_EXCEPTIONS"@,
{
    to_uppercase(struct_name).concat("_EXCEPTIONS")
}

/// The name of the method that leads from a row to the one row of `entity`
/// it refers to: the entity's name in lower case, in the singular.
pub fn singular_relation_name(entity: &str) -> (r: String)
    ensures
        r@ == singular_of(lowercase_of(entity@)),
{
    let lower = to_lowercase(entity);
    naive_singularize(lower.as_str())
}

/// The name of the method that leads from a row to the rows of `entity` that
/// refer to it: the entity's name in lower case, in the plural.
pub fn plural_relation_name(entity: &str) -> (r: String)
    ensures
        r@ == plural_of(lowercase_of(entity@)),
{
    let lower = to_lowercase(entity);
    naive_pluralize(lower.as_str())
}

} // verus!
