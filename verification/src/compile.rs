//! The boundary to the external query compiler: one trusted call that lowers
//! a query-language text to SQL for the chosen dialect.

use vstd::prelude::*;

use crate::translate::{is_postgres, Dialect};

verus! {

/// What the external compiler makes of a query-language text under a dialect:
/// the SQL text where compilation succeeds, nothing where it fails.
pub uninterp spec fn compiled_sql(prql: Seq<char>, pg: bool) -> Option<Seq<char>>;

/// Relies on prql_compiler::compile with a fixed target (SQL for the given
/// dialect, no formatting, no signature comment, plain error display): the
/// result is a deterministic function of the text and the dialect alone, and
/// the call returns the SQL text exactly when compilation succeeds, else the
/// compiler's diagnostic.
#[verifier::external_body]
pub(crate) fn compile_prql(prql: &str, postgres: bool) -> (r: Result<String, String>)
    ensures
        match r {
            Ok(sql) => compiled_sql(prql@, postgres) == Some(sql@),
            Err(_) => compiled_sql(prql@, postgres) is None,
        },
{
    let dialect = if postgres {
        prql_compiler::sql::Dialect::Postgres
    } else {
        prql_compiler::sql::Dialect::BigQuery
    };
    let options = prql_compiler::Options::default()
        .with_format(false)
        .with_signature_comment(false)
        .with_target(prql_compiler::Target::Sql(Some(dialect)))
        .with_display(prql_compiler::DisplayOptions::Plain);
    prql_compiler::compile(prql, &options).map_err(|e| e.to_string())
}

/// Lowers a query-language text to SQL for the given dialect; on failure the
/// external compiler's diagnostic is passed through unchanged.
pub fn translate(prql: &str, dialect: Dialect) -> (r: Result<String, String>)
    ensures
        match r {
            Ok(sql) => compiled_sql(prql@, is_postgres(dialect)) == Some(sql@),
            Err(_) => compiled_sql(prql@, is_postgres(dialect)) is None,
        },
{
    compile_prql(prql, dialect.is_postgres())
}

} // verus!
