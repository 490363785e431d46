//! The pipeline: an ordered sequence of steps, each rendered by its own rule
//! and joined with the query language's step separator.

use vstd::prelude::*;

use crate::aggregate::AggregateStep;
use crate::domain::DomainStep;
use crate::filter::FilterStep;
use crate::text::{join_texts, joined};
use crate::translate::{is_postgres, Dialect, ToPrql};

verus! {

/// One stage of a pipeline: source selection, aggregation or filtering. The
/// translator renders whatever sequence it is given and does not enforce that
/// a domain step comes first.
#[derive(Debug, PartialEq)]
pub enum PipelineStep {
    Domain(DomainStep),
    Aggregate(AggregateStep),
    Filter(FilterStep),
}

impl ToPrql for PipelineStep {
    open spec fn prql_wf(&self) -> bool {
        match self {
            PipelineStep::Domain(step) => step.prql_wf(),
            PipelineStep::Aggregate(step) => step.prql_wf(),
            PipelineStep::Filter(step) => step.prql_wf(),
        }
    }

    open spec fn prql_view(&self, pg: bool) -> Seq<char> {
        match self {
            PipelineStep::Domain(step) => step.prql_view(pg),
            PipelineStep::Aggregate(step) => step.prql_view(pg),
            PipelineStep::Filter(step) => step.prql_view(pg),
        }
    }

    fn to_prql(&self, dialect: &Dialect) -> (r: String) {
        match self {
            PipelineStep::Domain(step) => step.to_prql(dialect),
            PipelineStep::Aggregate(step) => step.to_prql(dialect),
            PipelineStep::Filter(step) => step.to_prql(dialect),
        }
    }
}

/// An ordered sequence of steps; order is significant, each step conceptually
/// operates on the output of the previous one.
#[derive(Debug, PartialEq)]
pub struct Pipeline(pub Vec<PipelineStep>);

impl ToPrql for Pipeline {
    open spec fn prql_wf(&self) -> bool {
        forall|j: int| 0 <= j < self.0@.len() ==> (#[trigger] self.0@[j]).prql_wf()
    }

    /// The steps' texts in original order, joined with the step separator.
    open spec fn prql_view(&self, pg: bool) -> Seq<char> {
        joined(self.0@.map_values(|s: PipelineStep| s.prql_view(pg)), " | "@)
    }

    fn to_prql(&self, dialect: &Dialect) -> (r: String) {
        let ghost pg = is_postgres(*dialect);
        let mut parts: Vec<String> = Vec::new();
        let mut i: usize = 0;
        while i < self.0.len()
            invariant
                i <= self.0@.len(),
                parts@.len() == i,
                forall|j: int| 0 <= j < self.0@.len() ==> (#[trigger] self.0@[j]).prql_wf(),
                forall|j: int| 0 <= j < i ==> parts@[j]@ == self.0@[j].prql_view(pg),
                pg == is_postgres(*dialect),
            decreases self.0@.len() - i,
        {
            parts.push(self.0[i].to_prql(dialect));
            i = i + 1;
        }
        proof {
            assert(parts@.map_values(|p: String| p@) =~= self.0@.map_values(
                |s: PipelineStep| s.prql_view(pg),
            ));
        }
        join_texts(&parts, " | ")
    }
}

/// Law: a pipeline of exactly one domain step in table form renders to
/// `from <quoted domain>` and nothing else — no separator, no other text.
pub proof fn lemma_single_table_domain_pipeline(p: Pipeline, step: DomainStep, pg: bool)
    requires
        p.0@ == seq![PipelineStep::Domain(step)],
        step.table,
    ensures
        p.prql_view(pg) == "from "@ + crate::translate::ident_prql(step.domain@),
{
    let views = p.0@.map_values(|s: PipelineStep| s.prql_view(pg));
    assert(views =~= seq![step.prql_view(pg)]);
    assert(joined(views, " | "@) == step.prql_view(pg));
}

} // verus!
