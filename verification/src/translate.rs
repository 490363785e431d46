//! The shared rendering contracts: the dialect, the two rendering traits, and
//! the leaf entities (columns and scalar values) with their quoting rules.

use vstd::prelude::*;
use vstd::string::StringExecFns;

use crate::text::{json_quote, json_string, quote_literal, quoted_literal};

verus! {

/// The target SQL flavour. Selected once per request and passed by reference
/// into every translation call; it controls identifier quoting inside raw
/// expressions and the escaping of string literals.
#[derive(Clone, Copy, Debug, PartialEq, Eq, Structural)]
pub enum Dialect {
    Postgres,
    BigQuery,
}

/// Whether `d` is the Postgres flavour; the one bit of the dialect that the
/// rendering rules depend on.
pub open spec fn is_postgres(d: Dialect) -> bool {
    d is Postgres
}

impl Dialect {
    /// Tells the two flavours apart at run time.
    pub fn is_postgres(&self) -> (r: bool)
        ensures
            r == is_postgres(*self),
    {
        match self {
            Dialect::Postgres => true,
            Dialect::BigQuery => false,
        }
    }
}

/// A construction-time failure: the inbound document described an entity that
/// the data model rejects.
#[derive(Clone, Copy, Debug, PartialEq, Eq, Structural)]
pub enum BuildError {
    /// A composite condition with an empty operand list.
    EmptyComposite,
    /// An aggregation whose source and result column lists differ in length.
    MismatchedAggregation,
}

/// An entity that renders to a fragment of the pipelined query language.
///
/// `prql_view` is the exact text the entity renders to; `prql_wf` holds the
/// construction-time validity under which rendering is defined.
pub trait ToPrql {
    /// Construction-time validity of this entity.
    spec fn prql_wf(&self) -> bool;

    /// The exact text this entity renders to under the given dialect.
    spec fn prql_view(&self, pg: bool) -> Seq<char>;

    /// Renders this entity for the given dialect.
    fn to_prql(&self, dialect: &Dialect) -> (r: String)
        requires
            self.prql_wf(),
        ensures
            r@ == self.prql_view(is_postgres(*dialect)),
    ;
}

/// An entity that renders to a fragment of a raw embedded SQL expression (an
/// s-string), whose quoting rules differ per dialect from the structured
/// query-language ones.
pub trait ToSString {
    /// The exact raw-expression text this entity renders to.
    spec fn s_string_view(&self, pg: bool) -> Seq<char>;

    /// Renders this entity for splicing into a raw expression.
    fn to_s_string(&self, dialect: &Dialect) -> (r: String)
        ensures
            r@ == self.s_string_view(is_postgres(*dialect)),
    ;
}

/// A column identifier: a raw name, quoted on rendering. No validation of the
/// character set is performed, and embedded quote characters are not escaped.
#[derive(Clone, Debug, PartialEq, Eq)]
pub struct Column(pub String);

/// `name` wrapped in the query language's identifier quotes (backticks).
pub open spec fn ident_prql(name: Seq<char>) -> Seq<char> {
    seq!['`'] + name + seq!['`']
}

/// `name` wrapped in the identifier quotes of a raw SQL expression:
/// escaped double quotes for Postgres, backticks for BigQuery.
pub open spec fn ident_raw(name: Seq<char>, pg: bool) -> Seq<char> {
    if pg {
        seq!['\\', '"'] + name + seq!['\\', '"']
    } else {
        seq!['`'] + name + seq!['`']
    }
}

/// Law: quoting an identifier produces a single pair of delimiters around the
/// unchanged name — for a name free of backticks (one with internal
/// whitespace, say) the delimiters are neither nested nor doubled.
pub proof fn lemma_quote_identifier_single_pair(name: Seq<char>)
    ensures
        ident_prql(name).len() == name.len() + 2,
        ident_prql(name).first() == '`',
        ident_prql(name).last() == '`',
        ident_prql(name).subrange(1, name.len() as int + 1) == name,
        forall|i: int|
            0 <= i < name.len() && name[i] != '`' ==> ident_prql(name)[i + 1] != '`',
{
    assert(ident_prql(name).subrange(1, name.len() as int + 1) =~= name);
}

impl ToPrql for Column {
    open spec fn prql_wf(&self) -> bool {
        true
    }

    open spec fn prql_view(&self, pg: bool) -> Seq<char> {
        ident_prql(self.0@)
    }

    fn to_prql(&self, dialect: &Dialect) -> (r: String) {
        let mut out = String::from_str("`");
        out.append(self.0.as_str());
        out.append("`");
        proof {
            reveal_strlit("`");
            assert(out@ =~= ident_prql(self.0@));
        }
        out
    }
}

impl ToSString for Column {
    open spec fn s_string_view(&self, pg: bool) -> Seq<char> {
        ident_raw(self.0@, pg)
    }

    fn to_s_string(&self, dialect: &Dialect) -> (r: String) {
        match dialect {
            Dialect::Postgres => {
                let mut out = String::from_str("\\\"");
                out.append(self.0.as_str());
                out.append("\\\"");
                proof {
                    reveal_strlit("\\\"");
                    assert(out@ =~= ident_raw(self.0@, true));
                }
                out
            },
            Dialect::BigQuery => {
                let mut out = String::from_str("`");
                out.append(self.0.as_str());
                out.append("`");
                proof {
                    reveal_strlit("`");
                    assert(out@ =~= ident_raw(self.0@, false));
                }
                out
            },
        }
    }
}

/// A scalar value of a condition leaf: a string, a number, a boolean or null.
///
/// A number is held as its decimal text, exactly as it stood in the inbound
/// document: rendering only ever splices that text, and keeping the text
/// keeps the library free of floating point.
#[derive(Clone, Debug, PartialEq)]
pub enum Value {
    Str(String),
    Num(String),
    Bool(bool),
    Null,
}

/// The JSON textual form of a scalar value: the form in which it stands in a
/// rendered comparison.
pub open spec fn value_json_view(v: Value) -> Seq<char> {
    match v {
        Value::Str(s) => json_string(s@),
        Value::Num(t) => t@,
        Value::Bool(b) => if b {
            "true"@
        } else {
            "false"@
        },
        Value::Null => "null"@,
    }
}

impl Value {
    /// The JSON textual form of this value.
    pub fn to_json_text(&self) -> (r: String)
        ensures
            r@ == value_json_view(*self),
    {
        match self {
            Value::Str(s) => json_quote(s.as_str()),
            Value::Num(t) => t.clone(),
            Value::Bool(b) => {
                if *b {
                    String::from_str("true")
                } else {
                    String::from_str("false")
                }
            },
            Value::Null => String::from_str("null"),
        }
    }
}

impl ToSString for Value {
    /// In a raw expression a string value stands as a quoted SQL literal;
    /// numbers, booleans and null keep their JSON textual form.
    open spec fn s_string_view(&self, pg: bool) -> Seq<char> {
        match self {
            Value::Str(s) => quoted_literal(s@, pg),
            _ => value_json_view(*self),
        }
    }

    fn to_s_string(&self, dialect: &Dialect) -> (r: String) {
        match self {
            Value::Str(s) => quote_literal(s.as_str(), dialect.is_postgres()),
            _ => self.to_json_text(),
        }
    }
}

impl ToSString for String {
    /// A plain string renders as a quoted SQL literal.
    open spec fn s_string_view(&self, pg: bool) -> Seq<char> {
        quoted_literal(self@, pg)
    }

    fn to_s_string(&self, dialect: &Dialect) -> (r: String) {
        quote_literal(self.as_str(), dialect.is_postgres())
    }
}

} // verus!
