//! The state of a query under construction, and its rendering as SQL text.

use crate::command::{names_of, Command};
use crate::error::OrmoluError;
use crate::filter::conditions_of;
use crate::text::{i64_to_string, int_text, joined};
use crate::where_cond::{condition_text, Condition, Where};
use std::marker::PhantomData;
use vstd::prelude::*;
use vstd::string::StringExecFns;

verus! {

/// How two tables are joined.
pub enum JoinType {
    Inner,
    Left,
    Right,
    Full,
    Cross,
}

/// A column of a database object, with its schema where one is given.
pub struct ColRef {
    pub schema: Option<String>,
    pub object: String,
    pub column: String,
}

/// A join on two columns.
pub struct Join {
    pub join_type: JoinType,
    pub on: [ColRef; 2],
}

/// Columns to group by.
pub struct GroupBy {
    pub columns: Vec<ColRef>,
}

/// Columns to order by.
pub struct OrderBy {
    pub columns: Vec<ColRef>,
}

/// A filter on groups, where `WHERE` cannot be used.
pub struct Having {}

impl Join {
    pub fn inner(dbo1: ColRef, dbo2: ColRef) -> (j: Join)
        ensures
            j.join_type is Inner,
            j.on@ == seq![dbo1, dbo2],
    {
        Join { join_type: JoinType::Inner, on: [dbo1, dbo2] }
    }

    pub fn left(dbo1: ColRef, dbo2: ColRef) -> (j: Join)
        ensures
            j.join_type is Left,
            j.on@ == seq![dbo1, dbo2],
    {
        Join { join_type: JoinType::Left, on: [dbo1, dbo2] }
    }

    pub fn right(dbo1: ColRef, dbo2: ColRef) -> (j: Join)
        ensures
            j.join_type is Right,
            j.on@ == seq![dbo1, dbo2],
    {
        Join { join_type: JoinType::Right, on: [dbo1, dbo2] }
    }

    pub fn full(dbo1: ColRef, dbo2: ColRef) -> (j: Join)
        ensures
            j.join_type is Full,
            j.on@ == seq![dbo1, dbo2],
    {
        Join { join_type: JoinType::Full, on: [dbo1, dbo2] }
    }

    pub fn cross(dbo1: ColRef, dbo2: ColRef) -> (j: Join)
        ensures
            j.join_type is Cross,
            j.on@ == seq![dbo1, dbo2],
    {
        Join { join_type: JoinType::Cross, on: [dbo1, dbo2] }
    }
}

/// Kind of command, as the renderer sees it.
pub enum CommandKind {
    Select { columns: Seq<Seq<char>> },
    Delete,
    Unsupported,
}

/// Mathematical value of a [`QueryState`]: what the rendered text depends on.
pub struct Query {
    pub command: CommandKind,
    pub table: Seq<char>,
    pub conditions: Seq<Condition>,
    pub joins: Seq<Join>,
    pub order_by: Option<OrderBy>,
    pub group_by: Option<GroupBy>,
    pub having: Option<Having>,
    pub limit: Option<int>,
    pub offset: Option<int>,
    pub terminated: bool,
}

/// The query that selects `columns` from `table` and nothing more: no
/// condition, join, ordering, grouping, limit or offset; the statement is
/// terminated.
pub open spec fn bare_select(table: Seq<char>, columns: Seq<Seq<char>>) -> Query {
    Query {
        command: CommandKind::Select { columns },
        table,
        conditions: Seq::empty(),
        joins: Seq::empty(),
        order_by: None,
        group_by: None,
        having: None,
        limit: None,
        offset: None,
        terminated: true,
    }
}

/// The command kind of a command.
pub open spec fn kind_of(c: Command) -> CommandKind {
    match c {
        Command::Select { columns } => CommandKind::Select { columns: names_of(columns@) },
        Command::Delete => CommandKind::Delete,
        _ => CommandKind::Unsupported,
    }
}

/// The selected columns separated by `, `, or `*` where none is named.
pub open spec fn select_list(columns: Seq<Seq<char>>) -> Seq<char> {
    if columns.len() == 0 {
        "*"@
    } else {
        joined(columns, ", "@)
    }
}

/// The head of a statement: the command with its table.
pub open spec fn head_text(command: CommandKind, table: Seq<char>) -> Seq<char> {
    match command {
        CommandKind::Select { columns } => "SELECT "@ + select_list(columns) + " FROM "@ + table,
        _ => "DELETE FROM "@ + table,
    }
}

/// The `WHERE` segment: nothing without conditions, else the conditions
/// joined by `AND`.
pub open spec fn where_text(conditions: Seq<Condition>) -> Seq<char> {
    if conditions.len() == 0 {
        Seq::empty()
    } else {
        " WHERE "@ + joined(conditions.map_values(|c: Condition| condition_text(c)), " AND "@)
    }
}

/// A segment that is present only with a number: the keyword and the number.
pub open spec fn number_segment(keyword: Seq<char>, n: Option<int>) -> Seq<char> {
    match n {
        Some(v) => keyword + int_text(v),
        None => Seq::empty(),
    }
}

/// The statement terminator, where one is asked for.
pub open spec fn terminator_text(terminated: bool) -> Seq<char> {
    if terminated {
        ";"@
    } else {
        Seq::empty()
    }
}

/// The SQL text of a query whose command has a grammar.
pub open spec fn statement_text(q: Query) -> Seq<char> {
    head_text(q.command, q.table) + where_text(q.conditions) + number_segment(
        " LIMIT "@,
        q.limit,
    ) + number_segment(" OFFSET "@, q.offset) + terminator_text(q.terminated)
}

/// A query under construction on the table of entity `T`.
pub struct QueryState<T> {
    pub command: Command,
    pub table: &'static str,
    pub where_conditions: Vec<Where>,
    pub joins: Vec<Join>,
    pub order_by: Option<OrderBy>,
    pub group_by: Option<GroupBy>,
    pub having: Option<Having>,
    pub limit: Option<i64>,
    pub offset: Option<i64>,
    /// Whether the rendered statement ends in `;`.
    pub terminated: bool,
    pub _table: PhantomData<T>,
}

/// The integer under an optional number.
pub open spec fn as_int(n: Option<i64>) -> Option<int> {
    match n {
        Some(v) => Some(v as int),
        None => None,
    }
}

impl<T> View for QueryState<T> {
    type V = Query;

    open spec fn view(&self) -> Query {
        Query {
            command: kind_of(self.command),
            table: self.table@,
            conditions: conditions_of(self.where_conditions@),
            joins: self.joins@,
            order_by: self.order_by,
            group_by: self.group_by,
            having: self.having,
            limit: as_int(self.limit),
            offset: as_int(self.offset),
            terminated: self.terminated,
        }
    }
}

/// Joins `parts` with `sep`.
pub fn join_names(parts: &[&'static str], sep: &str) -> (r: String)
    ensures
        r@ == joined(names_of(parts@), sep@),
{
    let mut out = String::new();
    let mut i: usize = 0;
    while i < parts.len()
        invariant
            i <= parts.len(),
            out@ == joined(names_of(parts@).take(i as int), sep@),
        decreases parts.len() - i,
    {
        let ghost names = names_of(parts@);
        proof {
            assert(names.take(i + 1).drop_last() =~= names.take(i as int));
            assert(names.take(i + 1).last() == parts@[i as int]@);
        }
        if i > 0 {
            out.append(sep);
        } else {
            assert(out@ =~= Seq::<char>::empty());
            assert(out@ + parts@[0]@ =~= parts@[0]@);
        }
        out.append(parts[i]);
        i = i + 1;
    }
    assert(names_of(parts@).take(i as int) =~= names_of(parts@));
    out
}

/// Joins the texts of `conditions` with ` AND `.
pub fn join_conditions(conditions: &Vec<Where>) -> (r: String)
    ensures
        r@ == joined(
            conditions_of(conditions@).map_values(|c: Condition| condition_text(c)),
            " AND "@,
        ),
{
    let ghost texts = conditions_of(conditions@).map_values(|c: Condition| condition_text(c));
    let mut out = String::new();
    let mut i: usize = 0;
    while i < conditions.len()
        invariant
            i <= conditions.len(),
            texts == conditions_of(conditions@).map_values(|c: Condition| condition_text(c)),
            out@ == joined(texts.take(i as int), " AND "@),
        decreases conditions.len() - i,
    {
        proof {
            assert(texts.take(i + 1).drop_last() =~= texts.take(i as int));
            assert(texts.take(i + 1).last() == condition_text(conditions@[i as int]@));
        }
        if i > 0 {
            out.append(" AND ");
        } else {
            assert(out@ =~= Seq::<char>::empty());
            assert(out@ + texts[0] =~= texts[0]);
        }
        let text = conditions[i].to_string();
        out.append(text.as_str());
        i = i + 1;
    }
    assert(texts.take(i as int) =~= texts);
    out
}

impl<T> QueryState<T> {
    /// A `SELECT` of `columns` from `table` and nothing more; the statement is
    /// terminated.
    pub fn select_from(table: &'static str, columns: &'static [&'static str]) -> (q: Self)
        ensures
            q@ == bare_select(table@, names_of(columns@)),
    {
        let q = QueryState {
            command: Command::Select { columns },
            table,
            where_conditions: Vec::new(),
            joins: Vec::new(),
            order_by: None,
            group_by: None,
            having: None,
            limit: None,
            offset: None,
            terminated: true,
            _table: PhantomData,
        };
        assert(q@.conditions =~= Seq::empty());
        assert(q@.joins =~= Seq::empty());
        q
    }

    /// Whether the command of the query has a grammar.
    pub open spec fn is_supported(&self) -> bool {
        !(self@.command is Unsupported)
    }

    /// The head of the statement, or the error of a command without grammar.
    pub fn head(&self) -> (r: Result<String, OrmoluError>)
        ensures
            self.is_supported() ==> (r matches Ok(s) && s@ == head_text(self@.command, self@.table)),
            !self.is_supported() ==> r matches Err(OrmoluError::UnsupportedCommand),
    {
        match &self.command {
            Command::Select { columns } => {
                let mut out = String::from_str("SELECT ");
                if columns.len() == 0 {
                    out.append("*");
                } else {
                    let list = join_names(columns, ", ");
                    out.append(list.as_str());
                }
                out.append(" FROM ");
                out.append(self.table);
                Ok(out)
            },
            Command::Delete => {
                let mut out = String::from_str("DELETE FROM ");
                out.append(self.table);
                Ok(out)
            },
            _ => Err(OrmoluError::UnsupportedCommand),
        }
    }

    /// The SQL text of the query: head, `WHERE` with the conditions joined by
    /// `AND`, `LIMIT`, `OFFSET` and terminator, each only where it is set.
    /// A command without grammar is an error.
    pub fn to_string(&self) -> (r: Result<String, OrmoluError>)
        ensures
            self.is_supported() ==> (r matches Ok(s) && s@ == statement_text(self@)),
            !self.is_supported() ==> r matches Err(OrmoluError::UnsupportedCommand),
    {
        let mut out = match self.head() {
            Ok(s) => s,
            Err(e) => {
                return Err(OrmoluError::UnsupportedCommand);
            },
        };
        if self.where_conditions.len() > 0 {
            out.append(" WHERE ");
            let conditions = join_conditions(&self.where_conditions);
            out.append(conditions.as_str());
        }
        if let Some(lmt) = self.limit {
            out.append(" LIMIT ");
            let n = i64_to_string(lmt);
            out.append(n.as_str());
        }
        if let Some(oft) = self.offset {
            out.append(" OFFSET ");
            let n = i64_to_string(oft);
            out.append(n.as_str());
        }
        if self.terminated {
            out.append(";");
        }
        assert(out@ =~= statement_text(self@));
        Ok(out)
    }
}

/// Rendering depends on the value of the query alone: two states of one value
/// have one text.
pub proof fn lemma_render_is_function_of_value<T, U>(a: QueryState<T>, b: QueryState<U>)
    requires
        a@ == b@,
    ensures
        statement_text(a@) == statement_text(b@),
        a.is_supported() == b.is_supported(),
{
}

/// A `SELECT` without condition, limit or offset renders as its columns and
/// its table alone: `SELECT c1, ..., cn FROM table`, with the terminator where
/// one is asked for, and with no `WHERE`, `LIMIT` or `OFFSET` segment.
pub proof fn lemma_bare_select_text(q: Query)
    requires
        q.command is Select,
        q.conditions.len() == 0,
        q.limit is None,
        q.offset is None,
    ensures
        statement_text(q) == "SELECT "@ + select_list(q.command->columns) + " FROM "@ + q.table
            + terminator_text(q.terminated),
        q.command->columns.len() > 0 ==> select_list(q.command->columns) == joined(
            q.command->columns,
            ", "@,
        ),
{
    assert(statement_text(q) =~= head_text(q.command, q.table) + terminator_text(q.terminated));
}

} // verus!
