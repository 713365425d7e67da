//! One comparison of a `WHERE` clause: column, operator and literal.

use vstd::prelude::*;
use vstd::string::StringExecFns;

verus! {

/// Comparison operator of a condition. `Not` holds the operator it negates.
#[derive(Debug)]
pub enum WhereOp {
    EqualTo,
    GreaterThan,
    LessThan,
    GreaterThanOrEqualTo,
    LessThanOrEqualTo,
    Like,
    Not(Box<WhereOp>),
}

/// The operator that `op` turns into when its condition is negated: a `Not`
/// is unwrapped, anything else is wrapped once.
pub open spec fn toggled(op: WhereOp) -> WhereOp {
    match op {
        WhereOp::Not(inner) => *inner,
        _ => WhereOp::Not(Box::new(op)),
    }
}

/// An operator is normal when no `Not` stands directly inside another `Not`.
pub open spec fn is_normal(op: WhereOp) -> bool {
    match op {
        WhereOp::Not(inner) => !(*inner is Not),
        _ => true,
    }
}

/// SQL text of an operator. A negated comparison is written as its inverse
/// comparison; a `Not` that holds another `Not` has no text of its own and is
/// written as the inner operator would be after toggling twice.
pub open spec fn op_text(op: WhereOp) -> Seq<char>
    decreases op,
{
    match op {
        WhereOp::EqualTo => "="@,
        WhereOp::GreaterThan => ">"@,
        WhereOp::LessThan => "<"@,
        WhereOp::GreaterThanOrEqualTo => ">="@,
        WhereOp::LessThanOrEqualTo => "<="@,
        WhereOp::Like => "LIKE"@,
        WhereOp::Not(inner) => match *inner {
            WhereOp::EqualTo => "!="@,
            WhereOp::GreaterThan => "<="@,
            WhereOp::GreaterThanOrEqualTo => "<"@,
            WhereOp::LessThan => ">="@,
            WhereOp::LessThanOrEqualTo => ">"@,
            WhereOp::Like => "NOT LIKE"@,
            WhereOp::Not(inner2) => op_text(*inner2),
        },
    }
}

impl WhereOp {
    /// A copy of the operator.
    pub fn duplicate(&self) -> (r: WhereOp)
        ensures
            r == *self,
        decreases *self,
    {
        match self {
            WhereOp::EqualTo => WhereOp::EqualTo,
            WhereOp::GreaterThan => WhereOp::GreaterThan,
            WhereOp::LessThan => WhereOp::LessThan,
            WhereOp::GreaterThanOrEqualTo => WhereOp::GreaterThanOrEqualTo,
            WhereOp::LessThanOrEqualTo => WhereOp::LessThanOrEqualTo,
            WhereOp::Like => WhereOp::Like,
            WhereOp::Not(inner) => WhereOp::Not(Box::new(inner.duplicate())),
        }
    }

    /// The SQL text of the operator.
    pub fn symbol(&self) -> (r: &'static str)
        ensures
            r@ == op_text(*self),
        decreases *self,
    {
        match self {
            WhereOp::EqualTo => "=",
            WhereOp::GreaterThan => ">",
            WhereOp::LessThan => "<",
            WhereOp::GreaterThanOrEqualTo => ">=",
            WhereOp::LessThanOrEqualTo => "<=",
            WhereOp::Like => "LIKE",
            WhereOp::Not(nop) => match &**nop {
                WhereOp::EqualTo => "!=",
                WhereOp::GreaterThan => "<=",
                WhereOp::GreaterThanOrEqualTo => "<",
                WhereOp::LessThan => ">=",
                WhereOp::LessThanOrEqualTo => ">",
                WhereOp::Like => "NOT LIKE",
                WhereOp::Not(inner) => inner.symbol(),
            },
        }
    }

    /// The operator's SQL text as an owned string.
    pub fn to_string(&self) -> (r: String)
        ensures
            r@ == op_text(*self),
    {
        String::from_str(self.symbol())
    }
}

/// Mathematical value of a condition.
pub struct Condition {
    pub oper: WhereOp,
    pub column: Seq<char>,
    pub value: Seq<char>,
}

/// SQL text of one condition: column, operator and literal, separated by
/// single spaces.
pub open spec fn condition_text(c: Condition) -> Seq<char> {
    c.column + " "@ + op_text(c.oper) + " "@ + c.value
}

/// One comparison of a `WHERE` clause.
#[derive(Debug)]
pub struct Where {
    oper: WhereOp,
    column: &'static str,
    // the literal is kept as text: it ends up in the statement as text anyway
    value: String,
}

impl View for Where {
    type V = Condition;

    closed spec fn view(&self) -> Condition {
        Condition { oper: self.oper, column: self.column@, value: self.value@ }
    }
}

impl Where {
    /// A condition is well formed when its operator is normal.
    pub open spec fn wf(&self) -> bool {
        is_normal(self@.oper)
    }

    /// `column LIKE value`.
    pub fn like(column: &'static str, value: String) -> (w: Where)
        ensures
            w@ == (Condition { oper: WhereOp::Like, column: column@, value: value@ }),
            w.wf(),
    {
        Where { oper: WhereOp::Like, column, value }
    }

    /// `column = value`.
    pub fn eq(column: &'static str, value: String) -> (w: Where)
        ensures
            w@ == (Condition { oper: WhereOp::EqualTo, column: column@, value: value@ }),
            w.wf(),
    {
        Where { oper: WhereOp::EqualTo, column, value }
    }

    /// `column != value`.
    pub fn neq(column: &'static str, value: String) -> (w: Where)
        ensures
            w@ == (Condition {
                oper: WhereOp::Not(Box::new(WhereOp::EqualTo)),
                column: column@,
                value: value@,
            }),
            w.wf(),
    {
        Where { oper: WhereOp::Not(Box::new(WhereOp::EqualTo)), column, value }
    }

    /// Negates the condition: a negated operator loses its `Not`, any other
    /// operator gains one. Column and literal stay.
    pub fn wrap_not(self) -> (w: Where)
        ensures
            w@ == (Condition { oper: toggled(self@.oper), ..self@ }),
            self.wf() ==> w.wf(),
    {
        let Where { oper, column, value } = self;
        let oper = match oper {
            WhereOp::Not(op) => *op,
            other => WhereOp::Not(Box::new(other)),
        };
        Where { oper, column, value }
    }

    /// A copy of the condition.
    pub fn duplicate(&self) -> (w: Where)
        ensures
            w@ == self@,
    {
        Where { oper: self.oper.duplicate(), column: self.column, value: self.value.clone() }
    }

    /// The operator of the condition.
    pub fn oper(&self) -> (r: &WhereOp)
        ensures
            *r == self@.oper,
    {
        &self.oper
    }

    /// The column the condition compares.
    pub fn column(&self) -> (r: &'static str)
        ensures
            r@ == self@.column,
    {
        self.column
    }

    /// The literal the column is compared with.
    pub fn value(&self) -> (r: &str)
        ensures
            r@ == self@.value,
    {
        self.value.as_str()
    }

    /// The SQL text of the condition.
    pub fn to_string(&self) -> (r: String)
        ensures
            r@ == condition_text(self@),
    {
        let mut out = String::from_str(self.column);
        out.append(" ");
        out.append(self.oper.symbol());
        out.append(" ");
        out.append(self.value.as_str());
        out
    }
}

/// The `LIKE` pattern that matches every text holding `s`.
pub open spec fn containing(s: Seq<char>) -> Seq<char> {
    "%"@ + s + "%"@
}

/// The `LIKE` pattern that matches every text holding `s`.
pub fn contains_pattern(s: &str) -> (r: String)
    ensures
        r@ == containing(s@),
{
    let mut out = String::from_str("%");
    out.append(s);
    out.append("%");
    out
}

/// Negating a well-formed condition twice gives the condition back.
pub proof fn lemma_wrap_not_involution(op: WhereOp)
    requires
        is_normal(op),
    ensures
        toggled(toggled(op)) == op,
        is_normal(toggled(op)),
{
}

} // verus!
