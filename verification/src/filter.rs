//! The filter step and its recursive boolean condition tree: comparison,
//! nullability, inclusion and pattern-match leaves, with AND/OR composites,
//! and the text each of them renders to.

use vstd::prelude::*;
use vstd::string::StringExecFns;

use crate::text::{join_texts, joined, quoted_literal};
use crate::translate::{
    ident_prql, ident_raw, is_postgres, value_json_view, BuildError, Column, Dialect, ToPrql,
    ToSString, Value,
};

verus! {

/// The comparison operators of a condition leaf.
#[derive(Clone, Copy, Debug, PartialEq, Eq, Structural)]
pub enum ComparisonOperator {
    Eq,
    Ne,
    Gt,
    Gte,
    Lt,
    Lte,
}

/// The query-language token for a comparison operator.
pub open spec fn comparison_token(op: ComparisonOperator) -> Seq<char> {
    match op {
        ComparisonOperator::Eq => "=="@,
        ComparisonOperator::Ne => "!="@,
        ComparisonOperator::Gt => ">"@,
        ComparisonOperator::Gte => ">="@,
        ComparisonOperator::Lt => "<"@,
        ComparisonOperator::Lte => "<="@,
    }
}

fn comparison_token_str(op: &ComparisonOperator) -> (r: &'static str)
    ensures
        r@ == comparison_token(*op),
{
    match op {
        ComparisonOperator::Eq => "==",
        ComparisonOperator::Ne => "!=",
        ComparisonOperator::Gt => ">",
        ComparisonOperator::Gte => ">=",
        ComparisonOperator::Lt => "<",
        ComparisonOperator::Lte => "<=",
    }
}

/// A comparison of a column against one scalar value.
#[derive(Clone, Debug, PartialEq)]
pub struct ComparisonCondition {
    pub column: Column,
    pub operator: ComparisonOperator,
    pub value: Value,
}

impl ToPrql for ComparisonCondition {
    open spec fn prql_wf(&self) -> bool {
        true
    }

    open spec fn prql_view(&self, pg: bool) -> Seq<char> {
        ident_prql(self.column.0@) + " "@ + comparison_token(self.operator) + " "@
            + value_json_view(self.value)
    }

    fn to_prql(&self, dialect: &Dialect) -> (r: String) {
        let mut out = self.column.to_prql(dialect);
        out.append(" ");
        out.append(comparison_token_str(&self.operator));
        out.append(" ");
        let value_text = self.value.to_json_text();
        out.append(value_text.as_str());
        out
    }
}

/// The nullability operators of a condition leaf.
#[derive(Clone, Copy, Debug, PartialEq, Eq, Structural)]
pub enum NullabilityOperator {
    IsNull,
    NotNull,
}

/// A null test on a column, rendered as a comparison against the query
/// language's null keyword rather than a dedicated null-test construct.
#[derive(Clone, Debug, PartialEq)]
pub struct NullabilityCondition {
    pub column: Column,
    pub operator: NullabilityOperator,
}

impl ToPrql for NullabilityCondition {
    open spec fn prql_wf(&self) -> bool {
        true
    }

    open spec fn prql_view(&self, pg: bool) -> Seq<char> {
        match self.operator {
            NullabilityOperator::IsNull => ident_prql(self.column.0@) + " == null"@,
            NullabilityOperator::NotNull => ident_prql(self.column.0@) + " != null"@,
        }
    }

    fn to_prql(&self, dialect: &Dialect) -> (r: String) {
        let mut out = self.column.to_prql(dialect);
        match self.operator {
            NullabilityOperator::IsNull => out.append(" == null"),
            NullabilityOperator::NotNull => out.append(" != null"),
        }
        out
    }
}

/// The inclusion operators of a condition leaf.
#[derive(Clone, Copy, Debug, PartialEq, Eq, Structural)]
pub enum InclusionOperator {
    In,
    Nin,
}

/// A membership test of a column against a list of scalar values. The query
/// language has no native IN construct, so this renders as a raw embedded
/// SQL expression.
#[derive(Clone, Debug, PartialEq)]
pub struct InclusionCondition {
    pub column: Column,
    pub operator: InclusionOperator,
    pub value: Vec<Value>,
}

impl ToPrql for InclusionCondition {
    open spec fn prql_wf(&self) -> bool {
        true
    }

    open spec fn prql_view(&self, pg: bool) -> Seq<char> {
        "s\""@ + ident_raw(self.column.0@, pg) + (if self.operator is In {
            " IN ("@
        } else {
            " NOT IN ("@
        }) + joined(self.value@.map_values(|v: Value| v.s_string_view(pg)), ", "@) + ")\""@
    }

    fn to_prql(&self, dialect: &Dialect) -> (r: String) {
        let ghost pg = is_postgres(*dialect);
        let mut parts: Vec<String> = Vec::new();
        let mut i: usize = 0;
        while i < self.value.len()
            invariant
                i <= self.value@.len(),
                parts@.len() == i,
                forall|k: int| 0 <= k < i ==> parts@[k]@ == self.value@[k].s_string_view(pg),
                pg == is_postgres(*dialect),
            decreases self.value@.len() - i,
        {
            parts.push(self.value[i].to_s_string(dialect));
            i = i + 1;
        }
        proof {
            assert(parts@.map_values(|p: String| p@) =~= self.value@.map_values(
                |v: Value| v.s_string_view(pg),
            ));
        }
        let joined_values = join_texts(&parts, ", ");
        let mut out = String::from_str("s\"");
        let column_text = self.column.to_s_string(dialect);
        out.append(column_text.as_str());
        match self.operator {
            InclusionOperator::In => out.append(" IN ("),
            InclusionOperator::Nin => out.append(" NOT IN ("),
        }
        out.append(joined_values.as_str());
        out.append(")\"");
        out
    }
}

/// The pattern-match operators of a condition leaf.
#[derive(Clone, Copy, Debug, PartialEq, Eq, Structural)]
pub enum MatchesOperator {
    Matches,
    NotMatches,
}

/// A pattern match of a column against a string pattern; raw-expression-only,
/// with dialect-divergent templates.
#[derive(Clone, Debug, PartialEq)]
pub struct MatchesCondition {
    pub column: Column,
    pub operator: MatchesOperator,
    pub value: String,
}

impl ToPrql for MatchesCondition {
    open spec fn prql_wf(&self) -> bool {
        true
    }

    open spec fn prql_view(&self, pg: bool) -> Seq<char> {
        if pg {
            match self.operator {
                MatchesOperator::Matches => "s\""@ + ident_raw(self.column.0@, true)
                    + " SIMILAR TO "@ + quoted_literal(self.value@, true) + "\""@,
                MatchesOperator::NotMatches => "s\""@ + ident_raw(self.column.0@, true)
                    + " NOT SIMILAR TO "@ + quoted_literal(self.value@, true) + "\""@,
            }
        } else {
            match self.operator {
                MatchesOperator::Matches => "s\"REGEXP_CONTAINS("@ + ident_raw(
                    self.column.0@,
                    false,
                ) + ","@ + quoted_literal(self.value@, false) + ")\""@,
                MatchesOperator::NotMatches => "s\"NOT REGEXP_CONTAINS("@ + ident_raw(
                    self.column.0@,
                    false,
                ) + ","@ + quoted_literal(self.value@, false) + ")\""@,
            }
        }
    }

    fn to_prql(&self, dialect: &Dialect) -> (r: String) {
        let column_text = self.column.to_s_string(dialect);
        let pattern_text = self.value.to_s_string(dialect);
        match dialect {
            Dialect::Postgres => {
                let mut out = String::from_str("s\"");
                out.append(column_text.as_str());
                match self.operator {
                    MatchesOperator::Matches => out.append(" SIMILAR TO "),
                    MatchesOperator::NotMatches => out.append(" NOT SIMILAR TO "),
                }
                out.append(pattern_text.as_str());
                out.append("\"");
                out
            },
            Dialect::BigQuery => {
                let mut out = match self.operator {
                    MatchesOperator::Matches => String::from_str("s\"REGEXP_CONTAINS("),
                    MatchesOperator::NotMatches => String::from_str("s\"NOT REGEXP_CONTAINS("),
                };
                out.append(column_text.as_str());
                out.append(",");
                out.append(pattern_text.as_str());
                out.append(")\"");
                out
            },
        }
    }
}

/// A boolean condition: one of the four leaves, or an AND/OR composite over
/// sub-conditions to arbitrary depth.
#[derive(Debug, PartialEq)]
pub enum Condition {
    Comparison(ComparisonCondition),
    Nullability(NullabilityCondition),
    Inclusion(InclusionCondition),
    Matches(MatchesCondition),
    And(Vec<Condition>),
    Or(Vec<Condition>),
}

/// Construction-time validity of a condition: a composite never has an empty
/// operand list.
pub open spec fn condition_wf(c: Condition) -> bool
    decreases c,
{
    match c {
        Condition::And(ops) => ops@.len() > 0 && (forall|i: int|
            0 <= i < ops@.len() ==> condition_wf(#[trigger] ops@[i])),
        Condition::Or(ops) => ops@.len() > 0 && (forall|i: int|
            0 <= i < ops@.len() ==> condition_wf(#[trigger] ops@[i])),
        _ => true,
    }
}

/// The text a condition renders to: leaves by their own rule, AND operands
/// joined by `&&` without enclosing parentheses, OR operands joined by `||`
/// with the whole group parenthesized.
pub open spec fn condition_view(c: Condition, pg: bool) -> Seq<char>
    decreases c,
{
    match c {
        Condition::Comparison(cc) => cc.prql_view(pg),
        Condition::Nullability(nc) => nc.prql_view(pg),
        Condition::Inclusion(ic) => ic.prql_view(pg),
        Condition::Matches(mc) => mc.prql_view(pg),
        Condition::And(ops) => joined(condition_views(ops@, pg), " && "@),
        Condition::Or(ops) => "("@ + joined(condition_views(ops@, pg), " || "@) + ")"@,
    }
}

/// The texts of a list of conditions, in order.
pub open spec fn condition_views(cs: Seq<Condition>, pg: bool) -> Seq<Seq<char>>
    decreases cs,
{
    if cs.len() == 0 {
        Seq::empty()
    } else {
        condition_views(cs.drop_last(), pg).push(condition_view(cs.last(), pg))
    }
}

impl Condition {
    /// Builds the conjunction of `operands`; an empty operand list is a
    /// construction error, never an empty rendering.
    pub fn conjunction(operands: Vec<Condition>) -> (r: Result<Condition, BuildError>)
        ensures
            r is Err <==> operands@.len() == 0,
            r matches Err(e) ==> e == BuildError::EmptyComposite,
            r matches Ok(c) ==> c == Condition::And(operands),
    {
        if operands.len() == 0 {
            Err(BuildError::EmptyComposite)
        } else {
            Ok(Condition::And(operands))
        }
    }

    /// Builds the disjunction of `operands`; an empty operand list is a
    /// construction error, never an empty rendering.
    pub fn disjunction(operands: Vec<Condition>) -> (r: Result<Condition, BuildError>)
        ensures
            r is Err <==> operands@.len() == 0,
            r matches Err(e) ==> e == BuildError::EmptyComposite,
            r matches Ok(c) ==> c == Condition::Or(operands),
    {
        if operands.len() == 0 {
            Err(BuildError::EmptyComposite)
        } else {
            Ok(Condition::Or(operands))
        }
    }
}

/// Renders a condition tree for the given dialect.
pub fn render_condition(c: &Condition, dialect: &Dialect) -> (r: String)
    requires
        condition_wf(*c),
    ensures
        r@ == condition_view(*c, is_postgres(*dialect)),
    decreases *c,
{
    match c {
        Condition::Comparison(cc) => cc.to_prql(dialect),
        Condition::Nullability(nc) => nc.to_prql(dialect),
        Condition::Inclusion(ic) => ic.to_prql(dialect),
        Condition::Matches(mc) => mc.to_prql(dialect),
        Condition::And(ops) => {
            let parts = render_condition_list(ops, dialect);
            join_texts(&parts, " && ")
        },
        Condition::Or(ops) => {
            let parts = render_condition_list(ops, dialect);
            let body = join_texts(&parts, " || ");
            let mut out = String::from_str("(");
            out.append(body.as_str());
            out.append(")");
            out
        },
    }
}

/// Renders each condition of a list, in order.
fn render_condition_list(ops: &Vec<Condition>, dialect: &Dialect) -> (r: Vec<String>)
    requires
        forall|i: int| 0 <= i < ops@.len() ==> condition_wf(#[trigger] ops@[i]),
    ensures
        r@.map_values(|p: String| p@) == condition_views(ops@, is_postgres(*dialect)),
    decreases ops@,
{
    let ghost pg = is_postgres(*dialect);
    let mut parts: Vec<String> = Vec::new();
    let mut i: usize = 0;
    while i < ops.len()
        invariant
            i <= ops@.len(),
            forall|j: int| 0 <= j < ops@.len() ==> condition_wf(#[trigger] ops@[j]),
            parts@.map_values(|p: String| p@) == condition_views(ops@.take(i as int), pg),
            pg == is_postgres(*dialect),
        decreases ops@.len() - i,
    {
        let text = render_condition(&ops[i], dialect);
        parts.push(text);
        proof {
            assert(ops@.take(i as int + 1).drop_last() =~= ops@.take(i as int));
            assert(ops@.take(i as int + 1).last() == ops@[i as int]);
            assert(parts@.map_values(|p: String| p@) =~= condition_views(
                ops@.take(i as int + 1),
                pg,
            ));
        }
        i = i + 1;
    }
    proof {
        assert(ops@.take(ops@.len() as int) =~= ops@);
    }
    parts
}

impl ToPrql for Condition {
    open spec fn prql_wf(&self) -> bool {
        condition_wf(*self)
    }

    open spec fn prql_view(&self, pg: bool) -> Seq<char> {
        condition_view(*self, pg)
    }

    fn to_prql(&self, dialect: &Dialect) -> (r: String) {
        render_condition(self, dialect)
    }
}

/// A filter step: keeps the rows on which its condition holds.
#[derive(Debug, PartialEq)]
pub struct FilterStep {
    pub condition: Condition,
}

impl ToPrql for FilterStep {
    open spec fn prql_wf(&self) -> bool {
        condition_wf(self.condition)
    }

    open spec fn prql_view(&self, pg: bool) -> Seq<char> {
        "filter "@ + condition_view(self.condition, pg)
    }

    fn to_prql(&self, dialect: &Dialect) -> (r: String) {
        let mut out = String::from_str("filter ");
        let condition_text = render_condition(&self.condition, dialect);
        out.append(condition_text.as_str());
        out
    }
}

} // verus!
