//! One inbound request: a pipeline and a dialect, rendered to the query
//! language and, on demand, handed to the external compiler.

use vstd::prelude::*;

use crate::compile::{compile_prql, compiled_sql};
use crate::pipeline::Pipeline;
use crate::translate::{is_postgres, Dialect, ToPrql};

verus! {

/// A translation request: the pipeline to render and the SQL flavour to
/// render it for.
#[derive(Debug, PartialEq)]
pub struct Request {
    pub pipeline: Pipeline,
    pub dialect: Dialect,
}

impl Request {
    /// Construction-time validity of the whole request.
    pub open spec fn wf(&self) -> bool {
        self.pipeline.prql_wf()
    }

    /// The query-language text this request renders to.
    pub open spec fn prql_text(&self) -> Seq<char> {
        self.pipeline.prql_view(is_postgres(self.dialect))
    }

    /// Renders the request's pipeline for its dialect.
    pub fn to_prql(&self) -> (r: String)
        requires
            self.wf(),
        ensures
            r@ == self.prql_text(),
    {
        self.pipeline.to_prql(&self.dialect)
    }

    /// Renders the request and lowers the text to SQL through the external
    /// compiler; a compile failure is passed through as its diagnostic.
    pub fn to_sql(&self) -> (r: Result<String, String>)
        requires
            self.wf(),
        ensures
            match r {
                Ok(sql) => compiled_sql(self.prql_text(), is_postgres(self.dialect)) == Some(
                    sql@,
                ),
                Err(_) => compiled_sql(self.prql_text(), is_postgres(self.dialect)) is None,
            },
    {
        let prql = self.to_prql();
        compile_prql(prql.as_str(), self.dialect.is_postgres())
    }
}

} // verus!
