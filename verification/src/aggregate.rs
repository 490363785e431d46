//! The aggregate step: grouping columns, a list of aggregations, and the
//! four-way policy matrix that picks among the query language's aggregate,
//! derive, group and window constructs.

use vstd::prelude::*;
use vstd::string::StringExecFns;

use crate::text::{join_texts, joined};
use crate::translate::{ident_prql, BuildError, Column, Dialect, ToPrql};

verus! {

/// An aggregation function of the data model. `First` and `Last` have no
/// native equivalent in the query language and are rendered as `min` and
/// `max`: a documented, lossy approximation that is valid only when the
/// aggregation picks some representative value, not a true first/last-by-order
/// semantic.
#[derive(Clone, Copy, Debug, PartialEq, Eq, Structural)]
pub enum AggregationFn {
    Min,
    Max,
    Count,
    Avg,
    Sum,
    CountDistinct,
    First,
    Last,
}

/// The query-language token an aggregation function renders to.
pub open spec fn aggregation_fn_token(f: AggregationFn) -> Seq<char> {
    match f {
        AggregationFn::Min => "min"@,
        AggregationFn::Max => "max"@,
        AggregationFn::Count => "count"@,
        AggregationFn::Avg => "avg"@,
        AggregationFn::Sum => "sum"@,
        AggregationFn::CountDistinct => "count_distinct"@,
        AggregationFn::First => "min"@,
        AggregationFn::Last => "max"@,
    }
}

impl ToPrql for AggregationFn {
    open spec fn prql_wf(&self) -> bool {
        true
    }

    open spec fn prql_view(&self, pg: bool) -> Seq<char> {
        aggregation_fn_token(*self)
    }

    fn to_prql(&self, dialect: &Dialect) -> (r: String) {
        match self {
            AggregationFn::Min => String::from_str("min"),
            AggregationFn::Max => String::from_str("max"),
            AggregationFn::Count => String::from_str("count"),
            AggregationFn::Avg => String::from_str("avg"),
            AggregationFn::Sum => String::from_str("sum"),
            AggregationFn::CountDistinct => String::from_str("count_distinct"),
            AggregationFn::First => String::from_str("min"),
            AggregationFn::Last => String::from_str("max"),
        }
    }
}

/// One aggregation: source columns and result columns paired positionally,
/// all under one aggregation function.
#[derive(Clone, Debug, PartialEq, Eq)]
pub struct Aggregation {
    pub columns: Vec<Column>,
    pub new_columns: Vec<Column>,
    pub function: AggregationFn,
}

/// The entries an aggregation renders to, one per positional pair:
/// `<resultColumn> = <function-token> <sourceColumn>`.
pub open spec fn aggregation_entry_views(agg: Aggregation) -> Seq<Seq<char>> {
    Seq::new(
        agg.columns@.len(),
        |k: int|
            ident_prql(agg.new_columns@[k].0@) + " = "@ + aggregation_fn_token(agg.function) + " "@
                + ident_prql(agg.columns@[k].0@),
    )
}

impl Aggregation {
    /// Builds an aggregation; source and result column lists of different
    /// lengths are a construction error.
    pub fn new(columns: Vec<Column>, new_columns: Vec<Column>, function: AggregationFn) -> (r:
        Result<Aggregation, BuildError>)
        ensures
            r is Err <==> columns@.len() != new_columns@.len(),
            r matches Err(e) ==> e == BuildError::MismatchedAggregation,
            r matches Ok(a) ==> a == (Aggregation { columns, new_columns, function }),
    {
        if columns.len() != new_columns.len() {
            Err(BuildError::MismatchedAggregation)
        } else {
            Ok(Aggregation { columns, new_columns, function })
        }
    }
}

impl ToPrql for Aggregation {
    /// The two column lists pair positionally, so they must agree in length.
    open spec fn prql_wf(&self) -> bool {
        self.columns@.len() == self.new_columns@.len()
    }

    open spec fn prql_view(&self, pg: bool) -> Seq<char> {
        joined(aggregation_entry_views(*self), ", "@)
    }

    fn to_prql(&self, dialect: &Dialect) -> (r: String) {
        let mut parts: Vec<String> = Vec::new();
        let mut k: usize = 0;
        while k < self.columns.len()
            invariant
                k <= self.columns@.len(),
                self.columns@.len() == self.new_columns@.len(),
                parts@.len() == k,
                forall|j: int| 0 <= j < k ==> parts@[j]@ == aggregation_entry_views(*self)[j],
            decreases self.columns@.len() - k,
        {
            let mut entry = self.new_columns[k].to_prql(dialect);
            entry.append(" = ");
            let function_text = self.function.to_prql(dialect);
            entry.append(function_text.as_str());
            entry.append(" ");
            let column_text = self.columns[k].to_prql(dialect);
            entry.append(column_text.as_str());
            parts.push(entry);
            k = k + 1;
        }
        proof {
            assert(parts@.map_values(|p: String| p@) =~= aggregation_entry_views(*self));
        }
        join_texts(&parts, ", ")
    }
}

/// An aggregate step: optional grouping columns, the aggregations, and
/// whether the original row count is kept.
#[derive(Clone, Debug, PartialEq, Eq)]
pub struct AggregateStep {
    pub on: Vec<Column>,
    pub aggregations: Vec<Aggregation>,
    pub keep_original_granularity: bool,
}

/// The comma-joined aggregation list of an aggregate step.
pub open spec fn aggregation_list_view(step: AggregateStep, pg: bool) -> Seq<char> {
    joined(step.aggregations@.map_values(|a: Aggregation| a.prql_view(pg)), ", "@)
}

/// The comma-joined quoted grouping columns of an aggregate step.
pub open spec fn grouping_list_view(step: AggregateStep) -> Seq<char> {
    joined(step.on@.map_values(|c: Column| ident_prql(c.0@)), ", "@)
}

impl ToPrql for AggregateStep {
    open spec fn prql_wf(&self) -> bool {
        forall|j: int| 0 <= j < self.aggregations@.len() ==> (#[trigger] self.aggregations@[j]).prql_wf()
    }

    /// The four-way policy matrix on (grouping empty?, keep granularity?):
    /// collapse to one row, whole-set derive, one row per group, or a
    /// per-group window derive that keeps the original row count.
    open spec fn prql_view(&self, pg: bool) -> Seq<char> {
        if self.on@.len() == 0 && !self.keep_original_granularity {
            "aggregate { "@ + aggregation_list_view(*self, pg) + " }"@
        } else if self.on@.len() == 0 && self.keep_original_granularity {
            "derive { "@ + aggregation_list_view(*self, pg) + " }"@
        } else if !self.keep_original_granularity {
            "group { "@ + grouping_list_view(*self) + " } ( aggregate { "@
                + aggregation_list_view(*self, pg) + " } )"@
        } else {
            "group { "@ + grouping_list_view(*self) + " } ( window rows:.. ( derive { "@
                + aggregation_list_view(*self, pg) + " } ) )"@
        }
    }

    fn to_prql(&self, dialect: &Dialect) -> (r: String) {
        let ghost pg = crate::translate::is_postgres(*dialect);
        let mut aggregation_parts: Vec<String> = Vec::new();
        let mut k: usize = 0;
        while k < self.aggregations.len()
            invariant
                k <= self.aggregations@.len(),
                aggregation_parts@.len() == k,
                forall|j: int|
                    0 <= j < self.aggregations@.len() ==> (#[trigger] self.aggregations@[j]).prql_wf(),
                forall|j: int|
                    0 <= j < k ==> aggregation_parts@[j]@ == self.aggregations@[j].prql_view(pg),
                pg == crate::translate::is_postgres(*dialect),
            decreases self.aggregations@.len() - k,
        {
            aggregation_parts.push(self.aggregations[k].to_prql(dialect));
            k = k + 1;
        }
        proof {
            assert(aggregation_parts@.map_values(|p: String| p@) =~= self.aggregations@.map_values(
                |a: Aggregation| a.prql_view(pg),
            ));
        }
        let aggregation_list = join_texts(&aggregation_parts, ", ");
        if self.on.len() == 0 {
            let mut out = if self.keep_original_granularity {
                String::from_str("derive { ")
            } else {
                String::from_str("aggregate { ")
            };
            out.append(aggregation_list.as_str());
            out.append(" }");
            out
        } else {
            let mut grouping_parts: Vec<String> = Vec::new();
            let mut g: usize = 0;
            while g < self.on.len()
                invariant
                    g <= self.on@.len(),
                    grouping_parts@.len() == g,
                    forall|j: int| 0 <= j < g ==> grouping_parts@[j]@ == ident_prql(self.on@[j].0@),
                decreases self.on@.len() - g,
            {
                grouping_parts.push(self.on[g].to_prql(dialect));
                g = g + 1;
            }
            proof {
                assert(grouping_parts@.map_values(|p: String| p@) =~= self.on@.map_values(
                    |c: Column| ident_prql(c.0@),
                ));
            }
            let grouping_list = join_texts(&grouping_parts, ", ");
            let mut out = String::from_str("group { ");
            out.append(grouping_list.as_str());
            if self.keep_original_granularity {
                out.append(" } ( window rows:.. ( derive { ");
                out.append(aggregation_list.as_str());
                out.append(" } ) )");
            } else {
                out.append(" } ( aggregate { ");
                out.append(aggregation_list.as_str());
                out.append(" } )");
            }
            out
        }
    }
}

} // verus!
