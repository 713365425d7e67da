//! From the columns of a database to the Rust source of its entities: the
//! rules that pick a field's type and name the generated items.

use crate::managed::contains_name;
use crate::text::{find, i64_to_string, int_text, joined, occurs_at, same_text};
use vstd::prelude::*;
use vstd::string::{StrSliceExecFns, StringExecFns};

verus! {

/// Generator of entities for a PostgreSQL database.
pub struct PostgreSQL;

/// One row of the information schema: a column with its constraint, if any.
pub struct InfoSchemaColumn {
    pub table_catalog: String,
    pub table_schema: String,
    pub table_name: String,
    pub column_name: String,
    pub ordinal_position: i32,
    pub column_default: Option<String>,
    pub is_nullable: String,
    pub data_type: String,
    pub character_maximum_length: Option<i32>,
    pub udt_name: String,
    pub is_self_referencing: String,
    pub is_identity: String,
    pub is_updatable: String,
    pub constraint_type: Option<String>,
    pub referenced_table_schema: Option<String>,
    pub referenced_table: Option<String>,
    pub referenced_column: Option<String>,
    pub referenced_column_ordinal_position: Option<i32>,
}

/// Why no field type could be picked for a column.
#[derive(Debug)]
pub enum FieldTypeError {
    /// A foreign key without the position of the column it refers to.
    MissingReferencedOrdinal,
    /// A foreign key without the table it refers to.
    MissingReferencedTable,
    /// A constraint that is neither primary key, foreign key nor unique.
    UnknownConstraint,
}

/// The database backends entities can be generated for.
#[derive(Debug)]
pub enum Backend {
    Postgres,
}

/// Why no backend could be picked for a database URL.
#[derive(Debug)]
pub enum BackendError {
    /// The text is no absolute URL.
    InvalidUrl,
    /// No backend serves the URL's scheme.
    UnsupportedScheme,
}

/// The letter cases in which generated names are written.
#[derive(Clone, Copy, Debug, PartialEq, Eq, Structural)]
pub enum NameCase {
    Pascal,
    Snake,
}

/// A name in the given case, as `convert_case` writes it.
pub uninterp spec fn cased(name: Seq<char>, case: NameCase) -> Seq<char>;

/// A name in Pascal case.
pub open spec fn pascal_case_of(name: Seq<char>) -> Seq<char> {
    cased(name, NameCase::Pascal)
}

/// A name in snake case.
pub open spec fn snake_case_of(name: Seq<char>) -> Seq<char> {
    cased(name, NameCase::Snake)
}

/// `convert_case::Casing::to_case`, with `Case::Pascal` or `Case::Snake`: the
/// result is the form of the name in that case.
#[verifier::external_body]
fn to_case(name: &str, case: NameCase) -> (r: String)
    ensures
        r@ == cased(name@, case),
{
    let case = match case {
        NameCase::Pascal => convert_case::Case::Pascal,
        NameCase::Snake => convert_case::Case::Snake,
    };
    convert_case::Casing::to_case(&name, case)
}

/// What is read of a database URL.
pub struct DatabaseUrl {
    pub scheme: String,
    /// The decoded pairs of the query, in order.
    pub query: Vec<(String, String)>,
}

/// Mathematical value of a [`DatabaseUrl`].
pub struct UrlParts {
    pub scheme: Seq<char>,
    pub query: Seq<(Seq<char>, Seq<char>)>,
}

impl View for DatabaseUrl {
    type V = UrlParts;

    open spec fn view(&self) -> UrlParts {
        UrlParts { scheme: self.scheme@, query: pair_texts(self.query@) }
    }
}

/// The texts of pairs of strings.
pub open spec fn pair_texts(v: Seq<(String, String)>) -> Seq<(Seq<char>, Seq<char>)> {
    v.map_values(|p: (String, String)| (p.0@, p.1@))
}

/// Scheme and query pairs of the absolute URL that a text parses to, if it
/// parses.
pub uninterp spec fn parsed_url(text: Seq<char>) -> Option<UrlParts>;

/// The scheme of the absolute URL that a text parses to, if it parses.
pub open spec fn parsed_scheme(text: Seq<char>) -> Option<Seq<char>> {
    match parsed_url(text) {
        Some(parts) => Some(parts.scheme),
        None => None,
    }
}

/// The pairs of the query of the absolute URL that a text parses to, in
/// order, if the text parses.
pub open spec fn parsed_query_pairs(text: Seq<char>) -> Option<Seq<(Seq<char>, Seq<char>)>> {
    match parsed_url(text) {
        Some(parts) => Some(parts.query),
        None => None,
    }
}

/// `url::Url::parse`, with `Url::scheme` and `Url::query_pairs` of what it
/// gives: the scheme and the decoded pairs of the query of the URL, or `None`
/// where the text is no absolute URL.
#[verifier::external_body]
fn parse_database_url(text: &str) -> (r: Option<DatabaseUrl>)
    ensures
        match r {
            Some(parts) => parsed_url(text@) == Some(parts@),
            None => parsed_url(text@) is None,
        },
{
    match url::Url::parse(text) {
        Ok(u) => Some(
            DatabaseUrl {
                scheme: u.scheme().to_string(),
                query: u.query_pairs().map(|(k, v)| (k.into_owned(), v.into_owned())).collect(),
            },
        ),
        Err(_) => None,
    }
}

/// The Rust type of a column by the name of its underlying type; a `varchar`
/// with a maximum length keeps the length in its type.
pub open spec fn base_type_text(udt_name: Seq<char>, max_len: Option<i32>) -> Seq<char> {
    if udt_name == "text"@ || udt_name == "_text"@ || udt_name == "bytea"@ {
        "String"@
    } else if udt_name == "bool"@ {
        "bool"@
    } else if udt_name == "int2"@ {
        "i16"@
    } else if udt_name == "int4"@ {
        "i32"@
    } else if udt_name == "float4"@ {
        "f32"@
    } else if udt_name == "timestamp"@ {
        "chrono::NaiveDateTime"@
    } else if udt_name == "varchar"@ {
        match max_len {
            Some(n) => "VarChar<"@ + int_text(n as int) + ">"@,
            None => "String"@,
        }
    } else {
        "String"@
    }
}

/// The Rust type of a column by the name of its underlying type.
pub fn base_type(udt_name: &str, max_len: Option<i32>) -> (r: String)
    ensures
        r@ == base_type_text(udt_name@, max_len),
{
    if same_text(udt_name, "text") || same_text(udt_name, "_text") || same_text(
        udt_name,
        "bytea",
    ) {
        String::from_str("String")
    } else if same_text(udt_name, "bool") {
        String::from_str("bool")
    } else if same_text(udt_name, "int2") {
        String::from_str("i16")
    } else if same_text(udt_name, "int4") {
        String::from_str("i32")
    } else if same_text(udt_name, "float4") {
        String::from_str("f32")
    } else if same_text(udt_name, "timestamp") {
        String::from_str("chrono::NaiveDateTime")
    } else if same_text(udt_name, "varchar") {
        match max_len {
            Some(n) => {
                let mut out = String::from_str("VarChar<");
                let digits = i64_to_string(n as i64);
                out.append(digits.as_str());
                out.append(">");
                out
            },
            None => String::from_str("String"),
        }
    } else {
        String::from_str("String")
    }
}

/// `inner` inside the generic type `wrapper`.
pub open spec fn wrapped_text(wrapper: Seq<char>, inner: Seq<char>) -> Seq<char> {
    wrapper + "<"@ + inner + ">"@
}

/// `inner` inside the generic type `wrapper`.
pub fn wrap_type(wrapper: &str, inner: &str) -> (r: String)
    ensures
        r@ == wrapped_text(wrapper@, inner@),
{
    let mut out = String::from_str(wrapper);
    out.append("<");
    out.append(inner);
    out.append(">");
    out
}

/// The type of a foreign key to the column at position `ordinal` of `entity`.
pub open spec fn foreign_key_text(entity: Seq<char>, ordinal: int, inner: Seq<char>) -> Seq<
    char,
> {
    "ForeignKey<"@ + entity + ", "@ + int_text(ordinal) + ", "@ + inner + ">"@
}

/// The type of a column under its constraint, or why there is none.
pub open spec fn constrained_text(col: InfoSchemaColumn, base: Seq<char>) -> Result<
    Seq<char>,
    FieldTypeError,
> {
    match col.constraint_type {
        None => Ok(base),
        Some(constraint) => {
            if constraint@ == "PRIMARY KEY"@ {
                Ok("PrimaryKey<Self, "@ + base + ">"@)
            } else if constraint@ == "FOREIGN KEY"@ {
                match col.referenced_column_ordinal_position {
                    None => Err(FieldTypeError::MissingReferencedOrdinal),
                    Some(ord) => match col.referenced_table {
                        None => Err(FieldTypeError::MissingReferencedTable),
                        Some(table) => Ok(
                            foreign_key_text(pascal_case_of(table@), ord as int, base),
                        ),
                    },
                }
            } else if constraint@ == "UNIQUE"@ {
                Ok(wrapped_text("Unique"@, base))
            } else {
                Err(FieldTypeError::UnknownConstraint)
            }
        },
    }
}

/// The type with `Identity` around it for an identity column, and `Option`
/// around that for a nullable one.
pub open spec fn qualified_text(col: InfoSchemaColumn, ty: Seq<char>) -> Seq<char> {
    let ty = if col.is_identity@ == "YES"@ {
        wrapped_text("Identity"@, ty)
    } else {
        ty
    };
    if col.is_nullable@ == "YES"@ {
        wrapped_text("Option"@, ty)
    } else {
        ty
    }
}

/// The Rust type of the field of a column.
pub open spec fn field_type_text(col: InfoSchemaColumn) -> Result<Seq<char>, FieldTypeError> {
    match constrained_text(col, base_type_text(col.udt_name@, col.character_maximum_length)) {
        Ok(ty) => Ok(qualified_text(col, ty)),
        Err(e) => Err(e),
    }
}

/// The type of a column under its constraint.
pub fn constrained_type(col: &InfoSchemaColumn, base: String) -> (r: Result<
    String,
    FieldTypeError,
>)
    ensures
        match constrained_text(*col, base@) {
            Ok(t) => r matches Ok(s) && s@ == t,
            Err(e) => r matches Err(f) && f == e,
        },
{
    match &col.constraint_type {
        None => Ok(base),
        Some(constraint) => {
            if same_text(constraint.as_str(), "PRIMARY KEY") {
                let mut out = String::from_str("PrimaryKey<Self, ");
                out.append(base.as_str());
                out.append(">");
                Ok(out)
            } else if same_text(constraint.as_str(), "FOREIGN KEY") {
                let ord = match col.referenced_column_ordinal_position {
                    Some(ord) => ord,
                    None => {
                        return Err(FieldTypeError::MissingReferencedOrdinal);
                    },
                };
                let ref_entity = match &col.referenced_table {
                    Some(table) => to_case(table.as_str(), NameCase::Pascal),
                    None => {
                        return Err(FieldTypeError::MissingReferencedTable);
                    },
                };
                let mut out = String::from_str("ForeignKey<");
                out.append(ref_entity.as_str());
                out.append(", ");
                let digits = i64_to_string(ord as i64);
                out.append(digits.as_str());
                out.append(", ");
                out.append(base.as_str());
                out.append(">");
                assert(out@ =~= foreign_key_text(ref_entity@, ord as int, base@));
                Ok(out)
            } else if same_text(constraint.as_str(), "UNIQUE") {
                Ok(wrap_type("Unique", base.as_str()))
            } else {
                Err(FieldTypeError::UnknownConstraint)
            }
        },
    }
}

/// The Rust type of the field of a column.
pub fn field_type(col: &InfoSchemaColumn) -> (r: Result<String, FieldTypeError>)
    ensures
        match field_type_text(*col) {
            Ok(t) => r matches Ok(s) && s@ == t,
            Err(e) => r matches Err(f) && f == e,
        },
{
    let base = base_type(col.udt_name.as_str(), col.character_maximum_length);
    let mut ty = match constrained_type(col, base) {
        Ok(ty) => ty,
        Err(e) => {
            return Err(e);
        },
    };
    if same_text(col.is_identity.as_str(), "YES") {
        ty = wrap_type("Identity", ty.as_str());
    }
    if same_text(col.is_nullable.as_str(), "YES") {
        ty = wrap_type("Option", ty.as_str());
    }
    Ok(ty)
}

/// The declaration of the field of a column: `pub name: type`.
pub fn typed_field(col: &InfoSchemaColumn) -> (r: Result<String, FieldTypeError>)
    ensures
        match field_type_text(*col) {
            Ok(t) => r matches Ok(s) && s@ == "pub "@ + col.column_name@ + ": "@ + t,
            Err(e) => r matches Err(f) && f == e,
        },
{
    match field_type(col) {
        Ok(ty) => {
            let mut out = String::from_str("pub ");
            out.append(col.column_name.as_str());
            out.append(": ");
            out.append(ty.as_str());
            Ok(out)
        },
        Err(e) => Err(e),
    }
}

/// The name of the struct generated for a table: the table's name in Pascal
/// case.
pub fn struct_name(table_name: &str) -> (r: String)
    ensures
        r@ == pascal_case_of(table_name@),
{
    to_case(table_name, NameCase::Pascal)
}

/// The path of the file generated for a table: its name in snake case, with
/// the extension of Rust sources, under the output directory.
pub fn source_file_path(output_path: &str, table_name: &str) -> (r: String)
    ensures
        r@ == output_path@ + "/"@ + snake_case_of(table_name@) + ".rs"@,
{
    let mut out = String::from_str(output_path);
    out.append("/");
    let stem = to_case(table_name, NameCase::Snake);
    out.append(stem.as_str());
    out.append(".rs");
    out
}

/// The backend that serves a URL scheme.
pub fn backend_of_scheme(scheme: &str) -> (r: Option<Backend>)
    ensures
        r is Some <==> scheme@ == "postgres"@ || scheme@ == "postgresql"@,
{
    if same_text(scheme, "postgres") || same_text(scheme, "postgresql") {
        Some(Backend::Postgres)
    } else {
        None
    }
}

/// The backend that serves a database URL.
pub fn backend_for(database_url: &str) -> (r: Result<Backend, BackendError>)
    ensures
        match parsed_scheme(database_url@) {
            None => r matches Err(BackendError::InvalidUrl),
            Some(scheme) => if scheme == "postgres"@ || scheme == "postgresql"@ {
                r is Ok
            } else {
                r matches Err(BackendError::UnsupportedScheme)
            },
        },
{
    match parse_database_url(database_url) {
        None => Err(BackendError::InvalidUrl),
        Some(url) => match backend_of_scheme(url.scheme.as_str()) {
            Some(backend) => Ok(backend),
            None => Err(BackendError::UnsupportedScheme),
        },
    }
}

/// The Rust type of a column by the SQL name of its data type, not yet made
/// optional. Unknown types are kept as text.
pub open spec fn sql_type_text(sql_type: Seq<char>) -> Seq<char> {
    if sql_type == "integer"@ {
        "i32"@
    } else if sql_type == "text"@ {
        "String"@
    } else if sql_type == "boolean"@ {
        "bool"@
    } else if sql_type == "date"@ {
        "chrono::NaiveDate"@
    } else if sql_type == "timestamp without time zone"@ || sql_type
        == "timestamp with time zone"@ {
        "chrono::NaiveDateTime"@
    } else if sql_type == "real"@ {
        "f32"@
    } else if sql_type == "double precision"@ {
        "f64"@
    } else {
        "String"@
    }
}

/// The import that the Rust type of a SQL data type needs, if it needs one.
pub open spec fn sql_type_import(sql_type: Seq<char>) -> Option<Seq<char>> {
    if sql_type == "date"@ {
        Some("chrono::NaiveDate"@)
    } else if sql_type == "timestamp without time zone"@ || sql_type
        == "timestamp with time zone"@ {
        Some("chrono::NaiveDateTime"@)
    } else {
        None
    }
}

/// The Rust type of a column by the SQL name of its data type.
pub fn sql_type_name(sql_type: &str) -> (r: &'static str)
    ensures
        r@ == sql_type_text(sql_type@),
{
    if same_text(sql_type, "integer") {
        "i32"
    } else if same_text(sql_type, "text") {
        "String"
    } else if same_text(sql_type, "boolean") {
        "bool"
    } else if same_text(sql_type, "date") {
        "chrono::NaiveDate"
    } else if same_text(sql_type, "timestamp without time zone") || same_text(
        sql_type,
        "timestamp with time zone",
    ) {
        "chrono::NaiveDateTime"
    } else if same_text(sql_type, "real") {
        "f32"
    } else if same_text(sql_type, "double precision") {
        "f64"
    } else {
        "String"
    }
}

/// The import that the Rust type of a SQL data type needs.
pub fn required_import(sql_type: &str) -> (r: Option<&'static str>)
    ensures
        match sql_type_import(sql_type@) {
            Some(import) => r matches Some(i) && i@ == import,
            None => r is None,
        },
{
    if same_text(sql_type, "date") {
        Some("chrono::NaiveDate")
    } else if same_text(sql_type, "timestamp without time zone") || same_text(
        sql_type,
        "timestamp with time zone",
    ) {
        Some("chrono::NaiveDateTime")
    } else {
        None
    }
}

/// The Rust type of a column by the SQL name of its data type, inside `Option`
/// where the column is nullable, and the import that the type needs.
pub fn map_sql_type_to_rust(sql_type: &str, is_nullable: bool) -> (r: (
    String,
    Option<&'static str>,
))
    ensures
        r.0@ == if is_nullable {
            wrapped_text("Option"@, sql_type_text(sql_type@))
        } else {
            sql_type_text(sql_type@)
        },
        match sql_type_import(sql_type@) {
            Some(import) => r.1 matches Some(i) && i@ == import,
            None => r.1 is None,
        },
{
    let base = sql_type_name(sql_type);
    let ty = if is_nullable {
        wrap_type("Option", base)
    } else {
        String::from_str(base)
    };
    (ty, required_import(sql_type))
}

/// Marks the start of the generated part of a file.
pub const START_TAG: &'static str = "// ormolu begin";

/// Marks the end of the generated part of a file.
pub const END_TAG: &'static str = "// ormolu end";

/// Generated code between the two tags, each on a line of its own.
pub open spec fn tagged_text(code: Seq<char>) -> Seq<char> {
    START_TAG@ + "\n"@ + code + "\n"@ + END_TAG@
}

/// Generated code between the two tags, each on a line of its own.
pub fn tagged_section(code: &str) -> (r: String)
    ensures
        r@ == tagged_text(code@),
{
    let mut out = String::from_str(START_TAG);
    out.append("\n");
    out.append(code);
    out.append("\n");
    out.append(END_TAG);
    out
}

/// The text of a generated entity file: imports, then the struct, between the
/// tags, and a final line break.
pub fn entity_file_text(imports: &str, struct_source: &str) -> (r: String)
    ensures
        r@ == tagged_text(imports@ + "\n"@ + struct_source@) + "\n"@,
{
    let mut code = String::from_str(imports);
    code.append("\n");
    code.append(struct_source);
    let mut out = tagged_section(code.as_str());
    out.append("\n");
    out
}

/// The value of the first pair whose key is `key`.
pub open spec fn first_value(pairs: Seq<(Seq<char>, Seq<char>)>, key: Seq<char>) -> Option<
    Seq<char>,
>
    decreases pairs.len(),
{
    if pairs.len() == 0 {
        None
    } else if pairs[0].0 == key {
        Some(pairs[0].1)
    } else {
        first_value(pairs.drop_first(), key)
    }
}

/// The schema that query pairs ask for: the value of the first `currentSchema`,
/// or `public` where there is none.
pub open spec fn schema_among(pairs: Seq<(Seq<char>, Seq<char>)>) -> Seq<char> {
    match first_value(pairs, "currentSchema"@) {
        Some(schema) => schema,
        None => "public"@,
    }
}

/// The schema that query pairs ask for.
pub fn current_schema(pairs: &Vec<(String, String)>) -> (r: String)
    ensures
        r@ == schema_among(pair_texts(pairs@)),
{
    let mut i: usize = 0;
    assert(pair_texts(pairs@).skip(0) =~= pair_texts(pairs@));
    while i < pairs.len()
        invariant
            i <= pairs.len(),
            first_value(pair_texts(pairs@), "currentSchema"@) == first_value(
                pair_texts(pairs@).skip(i as int),
                "currentSchema"@,
            ),
        decreases pairs.len() - i,
    {
        let ghost rest = pair_texts(pairs@).skip(i as int);
        proof {
            assert(rest[0] == (pairs@[i as int].0@, pairs@[i as int].1@));
            assert(rest.drop_first() =~= pair_texts(pairs@).skip(i + 1));
        }
        if same_text(pairs[i].0.as_str(), "currentSchema") {
            return pairs[i].1.clone();
        }
        i = i + 1;
    }
    String::from_str("public")
}

/// The schema that a database URL asks for, or `None` where the text is no
/// absolute URL.
pub fn schema_of_url(database_url: &str) -> (r: Option<String>)
    ensures
        match parsed_query_pairs(database_url@) {
            Some(pairs) => r matches Some(schema) && schema@ == schema_among(pairs),
            None => r is None,
        },
{
    match parse_database_url(database_url) {
        Some(url) => Some(current_schema(&url.query)),
        None => None,
    }
}

/// The texts of names.
pub open spec fn texts_of(names: Seq<String>) -> Seq<Seq<char>> {
    names.map_values(|n: String| n@)
}

/// The names in order, each at its first occurrence only.
pub open spec fn without_repeats(names: Seq<Seq<char>>) -> Seq<Seq<char>>
    decreases names.len(),
{
    if names.len() == 0 {
        Seq::empty()
    } else {
        let before = without_repeats(names.drop_last());
        if before.contains(names.last()) {
            before
        } else {
            before.push(names.last())
        }
    }
}

/// One statement for each name, with `before` in front of the name and `;`
/// behind it, each on a line of its own.
pub open spec fn statement_lines(names: Seq<Seq<char>>, before: Seq<char>) -> Seq<char> {
    joined(names.map_values(|n: Seq<char>| before + n + ";"@), "\n"@)
}

/// The names in order, each at its first occurrence only.
pub fn distinct(names: &Vec<String>) -> (r: Vec<String>)
    ensures
        texts_of(r@) == without_repeats(texts_of(names@)),
{
    let mut kept: Vec<String> = Vec::new();
    let mut i: usize = 0;
    assert(texts_of(names@).take(0) =~= Seq::<Seq<char>>::empty());
    assert(texts_of(kept@) =~= Seq::<Seq<char>>::empty());
    while i < names.len()
        invariant
            i <= names.len(),
            texts_of(kept@) == without_repeats(texts_of(names@).take(i as int)),
        decreases names.len() - i,
    {
        let ghost all = texts_of(names@);
        let ghost before = kept@;
        proof {
            assert(all.take(i + 1).drop_last() =~= all.take(i as int));
            assert(all.take(i + 1).last() == names@[i as int]@);
        }
        let known = contains_name(&kept, names[i].as_str());
        proof {
            let name = names@[i as int]@;
            if known {
                let j = choose|j: int| 0 <= j < before.len() && before[j]@ == name;
                assert(texts_of(before)[j] == name);
            } else {
                assert forall|j: int| 0 <= j < texts_of(before).len() implies texts_of(
                    before,
                )[j] != name by {
                    assert(texts_of(before)[j] == before[j]@);
                }
            }
            assert(known == texts_of(before).contains(name));
        }
        if !known {
            kept.push(names[i].clone());
            assert(texts_of(kept@) =~= texts_of(before).push(names@[i as int]@));
        }
        i = i + 1;
    }
    assert(texts_of(names@).take(i as int) =~= texts_of(names@));
    kept
}

/// One statement for each name, with `before` in front of the name and `;`
/// behind it, each on a line of its own.
pub fn statements(names: &Vec<String>, before: &str) -> (r: String)
    ensures
        r@ == statement_lines(texts_of(names@), before@),
{
    let ghost lines = texts_of(names@).map_values(|n: Seq<char>| before@ + n + ";"@);
    let mut out = String::new();
    let mut i: usize = 0;
    while i < names.len()
        invariant
            i <= names.len(),
            lines == texts_of(names@).map_values(|n: Seq<char>| before@ + n + ";"@),
            out@ == joined(lines.take(i as int), "\n"@),
        decreases names.len() - i,
    {
        proof {
            assert(lines.take(i + 1).drop_last() =~= lines.take(i as int));
            assert(lines.take(i + 1).last() == before@ + names@[i as int]@ + ";"@);
        }
        if i > 0 {
            out.append("\n");
        } else {
            assert(out@ =~= Seq::<char>::empty());
        }
        let ghost so_far = out@;
        out.append(before);
        out.append(names[i].as_str());
        out.append(";");
        assert(out@ =~= so_far + (before@ + names@[i as int]@ + ";"@));
        i = i + 1;
    }
    assert(lines.take(i as int) =~= lines);
    out
}

/// The statements that declare the modules, one on each line: one for each
/// module, however often it is named, in the order of first naming.
pub fn generate_mod_statements(modules: &Vec<String>) -> (r: String)
    ensures
        r@ == statement_lines(without_repeats(texts_of(modules@)), "pub mod "@),
{
    let names = distinct(modules);
    statements(&names, "pub mod ")
}

/// The statements that import the paths, one on each line: one for each
/// path, however often it is named, in the order of first naming.
pub fn generate_imports(required_imports: &Vec<String>) -> (r: String)
    ensures
        r@ == statement_lines(without_repeats(texts_of(required_imports@)), "use "@),
{
    let names = distinct(required_imports);
    statements(&names, "use ")
}

/// Why the generated part of a file cannot be replaced.
#[derive(Clone, Copy, Debug, PartialEq, Eq, Structural)]
pub enum SpliceError {
    /// The file does not hold the start tag.
    StartTagMissing,
    /// The file does not hold the end tag.
    EndTagMissing,
}

/// The file with `body` in place of what stood between the first start tag
/// and the first end tag: what stood up to the end of the start tag, `body` on
/// lines of its own, and what stood from the end tag on.
pub open spec fn spliced_text(content: Seq<char>, start: int, end: int, body: Seq<char>) -> Seq<
    char,
> {
    content.subrange(0, start + START_TAG@.len()) + "\n"@ + body + "\n"@ + content.subrange(
        end,
        content.len() as int,
    )
}

/// Replaces the generated part of a file: `body` takes the place of what
/// stands between the first start tag and the first end tag.
pub fn splice_section(file_content: &str, body: &str) -> (r: Result<String, SpliceError>)
    ensures
        match r {
            Ok(text) => exists|start: int, end: int|
                occurs_at(file_content@, START_TAG@, start) && (forall|j: int|
                    0 <= j < start ==> !occurs_at(file_content@, START_TAG@, j)) && occurs_at(
                    file_content@,
                    END_TAG@,
                    end,
                ) && (forall|j: int| 0 <= j < end ==> !occurs_at(file_content@, END_TAG@, j))
                    && text@ == spliced_text(file_content@, start, end, body@),
            Err(SpliceError::StartTagMissing) => forall|j: int|
                !occurs_at(file_content@, START_TAG@, j),
            Err(SpliceError::EndTagMissing) => (exists|j: int|
                occurs_at(file_content@, START_TAG@, j)) && forall|j: int|
                !occurs_at(file_content@, END_TAG@, j),
        },
{
    let start = match find(file_content, START_TAG) {
        Some(start) => start,
        None => {
            return Err(SpliceError::StartTagMissing);
        },
    };
    let end = match find(file_content, END_TAG) {
        Some(end) => end,
        None => {
            return Err(SpliceError::EndTagMissing);
        },
    };
    let n = file_content.unicode_len();
    let tag_len = START_TAG.unicode_len();
    let mut out = String::from_str(file_content.substring_char(0, start + tag_len));
    out.append("\n");
    out.append(body);
    out.append("\n");
    out.append(file_content.substring_char(end, n));
    assert(out@ =~= spliced_text(file_content@, start as int, end as int, body@));
    Ok(out)
}

} // verus!
