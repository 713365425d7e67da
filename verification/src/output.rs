//! The source text of the entities of a database: the columns grouped by
//! table, and one struct for each table.

use crate::generate::{
    field_type_text, map_sql_type_to_rust, pascal_case_of, required_import, sql_type_import,
    sql_type_text, struct_name, typed_field, wrapped_text, FieldTypeError, InfoSchemaColumn,
};
use crate::managed::{contains_name, is_among};
use crate::text::same_text;
use vstd::prelude::*;
use vstd::string::StringExecFns;

verus! {

/// The columns of one table, by their positions in the data they came in.
pub struct TableGroup {
    pub table_schema: String,
    pub table_name: String,
    pub members: Vec<usize>,
}

/// Mathematical value of a [`TableGroup`].
pub struct Group {
    pub schema: Seq<char>,
    pub table: Seq<char>,
    pub members: Seq<usize>,
}

impl View for TableGroup {
    type V = Group;

    open spec fn view(&self) -> Group {
        Group { schema: self.table_schema@, table: self.table_name@, members: self.members@ }
    }
}

/// The values of a sequence of groups.
pub open spec fn groups_of(v: Seq<TableGroup>) -> Seq<Group> {
    v.map_values(|g: TableGroup| g@)
}

/// The position of the first group of this schema and table, or the number of
/// groups where there is none.
pub open spec fn group_position(groups: Seq<Group>, schema: Seq<char>, table: Seq<char>) -> int
    decreases groups.len(),
{
    if groups.len() == 0 {
        0
    } else if groups[0].schema == schema && groups[0].table == table {
        0
    } else {
        1 + group_position(groups.drop_first(), schema, table)
    }
}

/// The groups with the column at position `i` added: to the group of its
/// table, or to a new group behind the others.
pub open spec fn with_member(groups: Seq<Group>, schema: Seq<char>, table: Seq<char>, i: usize)
    -> Seq<Group> {
    let g = group_position(groups, schema, table);
    if g < groups.len() {
        groups.update(g, Group { members: groups[g].members.push(i), ..groups[g] })
    } else {
        groups.push(Group { schema, table, members: seq![i] })
    }
}

/// The first `n` columns grouped by schema and table: the groups stand in the
/// order in which their tables first appear, and the columns of a group in
/// the order of the data.
pub open spec fn grouped(data: Seq<InfoSchemaColumn>, n: int) -> Seq<Group>
    decreases n,
{
    if n <= 0 {
        Seq::empty()
    } else {
        with_member(
            grouped(data, n - 1),
            data[n - 1].table_schema@,
            data[n - 1].table_name@,
            (n - 1) as usize,
        )
    }
}

proof fn lemma_group_position_bounds(groups: Seq<Group>, schema: Seq<char>, table: Seq<char>)
    ensures
        0 <= group_position(groups, schema, table) <= groups.len(),
        group_position(groups, schema, table) < groups.len() ==> groups[group_position(
            groups,
            schema,
            table,
        )].schema == schema && groups[group_position(groups, schema, table)].table == table,
        forall|j: int|
            0 <= j < group_position(groups, schema, table) ==> !(groups[j].schema == schema
                && groups[j].table == table),
    decreases groups.len(),
{
    if groups.len() == 0 {
    } else if groups[0].schema == schema && groups[0].table == table {
    } else {
        lemma_group_position_bounds(groups.drop_first(), schema, table);
        assert forall|j: int| 0 <= j < group_position(groups, schema, table) implies !(
        groups[j].schema == schema && groups[j].table == table) by {
            if j > 0 {
                assert(groups.drop_first()[j - 1] == groups[j]);
            }
        }
    }
}

/// The position of the first group of this schema and table.
pub fn find_group(groups: &Vec<TableGroup>, schema: &str, table: &str) -> (r: usize)
    ensures
        r == group_position(groups_of(groups@), schema@, table@),
        r <= groups@.len(),
{
    let mut g: usize = 0;
    while g < groups.len()
        invariant
            g <= groups.len(),
            forall|j: int|
                0 <= j < g ==> !(groups@[j].table_schema@ == schema@ && groups@[j].table_name@
                    == table@),
        decreases groups.len() - g,
    {
        if same_text(groups[g].table_schema.as_str(), schema) && same_text(
            groups[g].table_name.as_str(),
            table,
        ) {
            proof {
                lemma_group_position_bounds(groups_of(groups@), schema@, table@);
                let p = group_position(groups_of(groups@), schema@, table@);
                assert(groups_of(groups@)[g as int] == groups@[g as int]@);
                if p < g {
                    assert(groups_of(groups@)[p] == groups@[p]@);
                }
            }
            return g;
        }
        g = g + 1;
    }
    proof {
        lemma_group_position_bounds(groups_of(groups@), schema@, table@);
        let p = group_position(groups_of(groups@), schema@, table@);
        if p < groups@.len() {
            assert(groups_of(groups@)[p] == groups@[p]@);
        }
    }
    g
}

/// Every member of every group is a position below `n`.
pub open spec fn members_below(groups: Seq<Group>, n: int) -> bool {
    forall|g: int, k: int|
        0 <= g < groups.len() && 0 <= k < groups[g].members.len() ==> (
        #[trigger] groups[g].members[k]) < n
}

/// Groups the columns by schema and table.
pub fn group_tables(data: &Vec<InfoSchemaColumn>) -> (r: Vec<TableGroup>)
    ensures
        groups_of(r@) == grouped(data@, data@.len() as int),
        members_below(groups_of(r@), data@.len() as int),
{
    let mut groups: Vec<TableGroup> = Vec::new();
    let mut i: usize = 0;
    assert(groups_of(groups@) =~= grouped(data@, 0));
    while i < data.len()
        invariant
            i <= data.len(),
            groups_of(groups@) == grouped(data@, i as int),
            members_below(groups_of(groups@), i as int),
        decreases data.len() - i,
    {
        let ghost before = groups_of(groups@);
        let column = &data[i];
        let g = find_group(&groups, column.table_schema.as_str(), column.table_name.as_str());
        if g < groups.len() {
            let mut group = groups.remove(g);
            group.members.push(i);
            groups.insert(g, group);
            assert(groups_of(groups@) =~= with_member(
                before,
                column.table_schema@,
                column.table_name@,
                i,
            ));
        } else {
            let mut members: Vec<usize> = Vec::new();
            members.push(i);
            groups.push(
                TableGroup {
                    table_schema: column.table_schema.clone(),
                    table_name: column.table_name.clone(),
                    members,
                },
            );
            assert(groups_of(groups@) =~= with_member(
                before,
                column.table_schema@,
                column.table_name@,
                i,
            ));
        }
        i = i + 1;
    }
    groups
}

/// The declarations of the fields of the first `n` members, one on each
/// line, or the first error among them.
pub open spec fn fields_text(data: Seq<InfoSchemaColumn>, members: Seq<usize>, n: int) -> Result<
    Seq<char>,
    FieldTypeError,
>
    decreases n,
{
    if n <= 0 {
        Ok(Seq::empty())
    } else {
        match fields_text(data, members, n - 1) {
            Err(e) => Err(e),
            Ok(text) => match field_type_text(data[members[n - 1] as int]) {
                Ok(ty) => Ok(
                    text + "    pub "@ + data[members[n - 1] as int].column_name@ + ": "@ + ty
                        + ",\n"@,
                ),
                Err(e) => Err(e),
            },
        }
    }
}

/// The source of the entity struct of a table with these field declarations.
pub open spec fn struct_text(schema: Seq<char>, table: Seq<char>, fields: Seq<char>) -> Seq<
    char,
> {
    "#[derive(Table)]\n#[gild(table = \""@ + table + "\", schema = \""@ + schema
        + "\")]\npub struct "@ + pascal_case_of(table) + " {\n"@ + fields + "}\n"@
}

/// The source of the entity structs of the first `n` groups, or the first
/// error among their columns.
pub open spec fn output_text(data: Seq<InfoSchemaColumn>, groups: Seq<Group>, n: int) -> Result<
    Seq<char>,
    FieldTypeError,
>
    decreases n,
{
    if n <= 0 {
        Ok(Seq::empty())
    } else {
        match output_text(data, groups, n - 1) {
            Err(e) => Err(e),
            Ok(text) => {
                let group = groups[n - 1];
                match fields_text(data, group.members, group.members.len() as int) {
                    Ok(fields) => Ok(text + struct_text(group.schema, group.table, fields)),
                    Err(e) => Err(e),
                }
            },
        }
    }
}

/// The declarations of the fields of a group, one on each line.
pub fn group_fields(data: &Vec<InfoSchemaColumn>, group: &TableGroup) -> (r: Result<
    String,
    FieldTypeError,
>)
    requires
        forall|k: int| 0 <= k < group.members@.len() ==> group.members@[k] < data@.len(),
    ensures
        match fields_text(data@, group.members@, group.members@.len() as int) {
            Ok(text) => r matches Ok(s) && s@ == text,
            Err(e) => r matches Err(f) && f == e,
        },
{
    let mut out = String::new();
    let mut k: usize = 0;
    while k < group.members.len()
        invariant
            k <= group.members.len(),
            forall|j: int| 0 <= j < group.members@.len() ==> group.members@[j] < data@.len(),
            fields_text(data@, group.members@, k as int) == Ok::<Seq<char>, FieldTypeError>(out@),
        decreases group.members.len() - k,
    {
        let column = &data[group.members[k]];
        match typed_field(column) {
            Ok(declaration) => {
                let ghost so_far = out@;
                out.append("    ");
                out.append(declaration.as_str());
                out.append(",\n");
                proof {
                    reveal_strlit("    ");
                    reveal_strlit("pub ");
                    reveal_strlit("    pub ");
                    assert("    pub "@ =~= "    "@ + "pub "@);
                    let ty = field_type_text(*column)->Ok_0;
                    assert(out@ =~= so_far + "    pub "@ + column.column_name@ + ": "@ + ty
                        + ",\n"@);
                }
            },
            Err(e) => {
                proof {
                    lemma_fields_error_stays(
                        data@,
                        group.members@,
                        k + 1,
                        group.members@.len() as int,
                    );
                }
                return Err(e);
            },
        }
        k = k + 1;
    }
    Ok(out)
}

proof fn lemma_fields_error_stays(
    data: Seq<InfoSchemaColumn>,
    members: Seq<usize>,
    n: int,
    m: int,
)
    requires
        0 <= n <= m,
        fields_text(data, members, n) is Err,
    ensures
        fields_text(data, members, m) == fields_text(data, members, n),
    decreases m - n,
{
    if n < m {
        lemma_fields_error_stays(data, members, n, m - 1);
    }
}

proof fn lemma_output_error_stays(data: Seq<InfoSchemaColumn>, groups: Seq<Group>, n: int, m: int)
    requires
        0 <= n <= m,
        output_text(data, groups, n) is Err,
    ensures
        output_text(data, groups, m) == output_text(data, groups, n),
    decreases m - n,
{
    if n < m {
        lemma_output_error_stays(data, groups, n, m - 1);
    }
}

/// The source of the entity struct of a table with these field declarations.
pub fn struct_source(schema: &str, table: &str, fields: &str) -> (r: String)
    ensures
        r@ == struct_text(schema@, table@, fields@),
{
    let mut out = String::from_str("#[derive(Table)]\n#[gild(table = \"");
    out.append(table);
    out.append("\", schema = \"");
    out.append(schema);
    out.append("\")]\npub struct ");
    let name = struct_name(table);
    out.append(name.as_str());
    out.append(" {\n");
    out.append(fields);
    out.append("}\n");
    out
}

/// The source of the entities of a database: one struct for each table, in
/// the order in which the tables first appear among the columns. A column for
/// which no field type can be picked is an error.
pub fn create_output(data: &Vec<InfoSchemaColumn>) -> (r: Result<String, FieldTypeError>)
    ensures
        match output_text(
            data@,
            grouped(data@, data@.len() as int),
            grouped(data@, data@.len() as int).len() as int,
        ) {
            Ok(text) => r matches Ok(s) && s@ == text,
            Err(e) => r matches Err(f) && f == e,
        },
{
    let groups = group_tables(data);
    let mut out = String::new();
    let mut g: usize = 0;
    while g < groups.len()
        invariant
            g <= groups.len(),
            groups_of(groups@) == grouped(data@, data@.len() as int),
            members_below(groups_of(groups@), data@.len() as int),
            output_text(data@, groups_of(groups@), g as int) == Ok::<Seq<char>, FieldTypeError>(
                out@,
            ),
        decreases groups.len() - g,
    {
        let group = &groups[g];
        proof {
            assert(groups_of(groups@)[g as int] == group@);
            assert forall|k: int| 0 <= k < group.members@.len() implies group.members@[k]
                < data@.len() by {
                assert(groups_of(groups@)[g as int].members[k] < data@.len());
            }
        }
        match group_fields(data, group) {
            Ok(fields) => {
                let text = struct_source(
                    group.table_schema.as_str(),
                    group.table_name.as_str(),
                    fields.as_str(),
                );
                out.append(text.as_str());
            },
            Err(e) => {
                proof {
                    lemma_output_error_stays(
                        data@,
                        groups_of(groups@),
                        g + 1,
                        groups@.len() as int,
                    );
                }
                return Err(e);
            },
        }
        g = g + 1;
    }
    Ok(out)
}

/// A column as the catalogue of the database describes it.
pub struct PgColumn {
    pub name: String,
    /// The SQL name of the data type.
    pub type_info: String,
    pub ordinal: i32,
    pub is_nullable: bool,
}

/// A table with its columns in order.
pub struct Table {
    pub name: String,
    pub columns: Vec<PgColumn>,
}

/// The type of the field of a catalogue column.
pub open spec fn plain_field_type(c: PgColumn) -> Seq<char> {
    if c.is_nullable {
        wrapped_text("Option"@, sql_type_text(c.type_info@))
    } else {
        sql_type_text(c.type_info@)
    }
}

/// The declarations of the fields of the first `n` columns, one on each line.
pub open spec fn plain_fields_text(columns: Seq<PgColumn>, n: int) -> Seq<char>
    decreases n,
{
    if n <= 0 {
        Seq::empty()
    } else {
        plain_fields_text(columns, n - 1) + "    pub "@ + columns[n - 1].name@ + ": "@
            + plain_field_type(columns[n - 1]) + ",\n"@
    }
}

/// The source of the plain struct of a table: its name in Pascal case, and
/// one public field for each column.
pub open spec fn plain_struct_text(table: Table) -> Seq<char> {
    "#[derive(Debug)]\npub struct "@ + pascal_case_of(table.name@) + " {\n"@ + plain_fields_text(
        table.columns@,
        table.columns@.len() as int,
    ) + "}\n"@
}

/// The source of the plain struct of a table.
pub fn generate_rust_struct(table: &Table) -> (r: String)
    ensures
        r@ == plain_struct_text(*table),
{
    let mut fields = String::new();
    let mut i: usize = 0;
    while i < table.columns.len()
        invariant
            i <= table.columns.len(),
            fields@ == plain_fields_text(table.columns@, i as int),
        decreases table.columns.len() - i,
    {
        let column = &table.columns[i];
        let ty = map_sql_type_to_rust(
            column.type_info.as_str(),
            column.is_nullable,
        ).0;
        let ghost so_far = fields@;
        fields.append("    pub ");
        fields.append(column.name.as_str());
        fields.append(": ");
        fields.append(ty.as_str());
        fields.append(",\n");
        assert(fields@ =~= so_far + "    pub "@ + column.name@ + ": "@ + plain_field_type(*column)
            + ",\n"@);
        i = i + 1;
    }
    let mut out = String::from_str("#[derive(Debug)]\npub struct ");
    let name = struct_name(table.name.as_str());
    out.append(name.as_str());
    out.append(" {\n");
    out.append(fields.as_str());
    out.append("}\n");
    out
}

/// Whether one of the first `n` columns needs the import `path`.
pub open spec fn is_needed(columns: Seq<PgColumn>, n: int, path: Seq<char>) -> bool {
    exists|i: int| 0 <= i < n && #[trigger] import_at(columns, i) == Some(path)
}

/// The import that the column at position `i` needs.
pub open spec fn import_at(columns: Seq<PgColumn>, i: int) -> Option<Seq<char>> {
    sql_type_import(columns[i].type_info@)
}

/// The imports that the fields of a table need: each import that a column
/// needs, once.
pub fn required_imports(table: &Table) -> (r: Vec<String>)
    ensures
        forall|k: int|
            0 <= k < r@.len() ==> is_needed(
                table.columns@,
                table.columns@.len() as int,
                (#[trigger] r@[k])@,
            ),
        forall|path: Seq<char>|
            is_needed(table.columns@, table.columns@.len() as int, path)
                ==> is_among(r@, path),
        forall|k: int, m: int| 0 <= k < m < r@.len() ==> r@[k]@ != r@[m]@,
{
    let mut imports: Vec<String> = Vec::new();
    let mut i: usize = 0;
    while i < table.columns.len()
        invariant
            i <= table.columns.len(),
            forall|k: int|
                0 <= k < imports@.len() ==> is_needed(
                    table.columns@,
                    i as int,
                    (#[trigger] imports@[k])@,
                ),
            forall|path: Seq<char>|
                is_needed(table.columns@, i as int, path) ==> is_among(
                    imports@,
                    path,
                ),
            forall|k: int, m: int| 0 <= k < m < imports@.len() ==> imports@[k]@ != imports@[m]@,
        decreases table.columns.len() - i,
    {
        let ghost before = imports@;
        let needed = required_import(table.columns[i].type_info.as_str());
        let mut added = false;
        if let Some(path) = needed {
            if !contains_name(&imports, path) {
                imports.push(String::from_str(path));
                added = true;
            }
        }
        proof {
            let columns = table.columns@;
            let here = import_at(columns, i as int);
            assert forall|k: int| 0 <= k < imports@.len() implies is_needed(
                columns,
                i + 1,
                (#[trigger] imports@[k])@,
            ) by {
                if k < before.len() {
                    assert(imports@[k] == before[k]);
                    assert(is_needed(columns, i as int, before[k]@));
                    let j = choose|j: int|
                        0 <= j < i && #[trigger] import_at(columns, j) == Some(before[k]@);
                    assert(import_at(columns, j) == Some(imports@[k]@));
                } else {
                    assert(here == Some(imports@[k]@));
                }
            }
            assert forall|path: Seq<char>|
                is_needed(columns, i + 1, path) implies is_among(
                imports@,
                path,
            ) by {
                let j = choose|j: int|
                    0 <= j < i + 1 && #[trigger] import_at(columns, j) == Some(path);
                if j < i {
                    assert(import_at(columns, j) == Some(path));
                    assert(is_needed(columns, i as int, path));
                    assert(is_among(before, path));
                    let k = choose|k: int| 0 <= k < before.len() && before[k]@ == path;
                    assert(imports@[k]@ == path);
                } else if added {
                    assert(imports@[imports@.len() - 1]@ == path);
                } else {
                    assert(is_among(before, path));
                    let k = choose|k: int| 0 <= k < before.len() && before[k]@ == path;
                    assert(imports@[k]@ == path);
                }
            }
            assert forall|k: int, m: int| 0 <= k < m < imports@.len() implies imports@[k]@
                != imports@[m]@ by {
                if added && m == imports@.len() - 1 {
                    assert(imports@[k] == before[k]);
                }
            }
        }
        i = i + 1;
    }
    imports
}

} // verus!
