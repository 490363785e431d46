//! The domain step: selection of the data source, either a table identifier
//! or an opaque raw sub-query embedded verbatim.

use vstd::prelude::*;
use vstd::string::StringExecFns;

use crate::translate::{ident_prql, Dialect, ToPrql};

verus! {

/// A source-selection step. If `table` holds, `domain` is a table name and is
/// rendered as a quoted identifier; otherwise `domain` is an opaque raw
/// sub-query and is embedded verbatim in a raw expression.
#[derive(Clone, Debug, PartialEq, Eq)]
pub struct DomainStep {
    pub domain: String,
    pub table: bool,
}

impl ToPrql for DomainStep {
    open spec fn prql_wf(&self) -> bool {
        true
    }

    open spec fn prql_view(&self, pg: bool) -> Seq<char> {
        if self.table {
            "from "@ + ident_prql(self.domain@)
        } else {
            "from s\""@ + self.domain@ + "\""@
        }
    }

    fn to_prql(&self, dialect: &Dialect) -> (r: String) {
        if self.table {
            let mut out = String::from_str("from ");
            out.append("`");
            out.append(self.domain.as_str());
            out.append("`");
            proof {
                reveal_strlit("`");
                assert(out@ =~= "from "@ + ident_prql(self.domain@));
            }
            out
        } else {
            let mut out = String::from_str("from s\"");
            out.append(self.domain.as_str());
            out.append("\"");
            out
        }
    }
}

} // verus!
