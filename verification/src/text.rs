//! Text-level primitives shared by all renderers: joining a list of fragments
//! with a separator, and the dialect-specific escaping of single quotes inside
//! SQL string literals, with its round-trip proof.

use vstd::prelude::*;
use vstd::string::StringExecFns;

verus! {

/// The fragments of `parts` in order, with `sep` between neighbours.
pub open spec fn joined(parts: Seq<Seq<char>>, sep: Seq<char>) -> Seq<char>
    decreases parts.len(),
{
    if parts.len() == 0 {
        Seq::empty()
    } else if parts.len() == 1 {
        parts[0]
    } else {
        joined(parts.drop_last(), sep) + sep + parts.last()
    }
}

/// Joins the given texts with `sep` between neighbours.
pub fn join_texts(parts: &Vec<String>, sep: &str) -> (r: String)
    ensures
        r@ == joined(parts@.map_values(|p: String| p@), sep@),
{
    let ghost views = parts@.map_values(|p: String| p@);
    let mut out = String::new();
    let mut i: usize = 0;
    while i < parts.len()
        invariant
            i <= parts.len(),
            views == parts@.map_values(|p: String| p@),
            views.len() == parts@.len(),
            out@ == joined(views.take(i as int), sep@),
        decreases parts.len() - i,
    {
        if i > 0 {
            out.append(sep);
        }
        out.append(parts[i].as_str());
        proof {
            assert(views.take(i as int + 1).drop_last() =~= views.take(i as int));
            assert(views.take(i as int + 1).last() == views[i as int]);
        }
        i = i + 1;
    }
    proof {
        assert(views.take(parts@.len() as int) =~= views);
    }
    out
}

/// Relies on String::push: appends the one character to the end of the string.
pub assume_specification[ String::push ](s: &mut String, c: char)
    ensures
        final(s)@ == old(s)@ + seq![c],
;

/// How a single quote is written inside a quoted SQL literal: doubled for
/// Postgres, backslash-escaped (with the backslash itself doubled for the
/// s-string layer) for BigQuery.
pub open spec fn quote_escape(pg: bool) -> Seq<char> {
    if pg {
        seq!['\'', '\'']
    } else {
        seq!['\\', '\\', '\'']
    }
}

/// One character of a quoted literal's body: a single quote becomes the
/// dialect's escape for it, every other character stands unchanged.
pub open spec fn escaped_char(c: char, pg: bool) -> Seq<char> {
    if c == '\'' {
        quote_escape(pg)
    } else {
        seq![c]
    }
}

/// `s` with every single quote replaced by the dialect's escape for it.
pub open spec fn escaped_literal(s: Seq<char>, pg: bool) -> Seq<char>
    decreases s.len(),
{
    if s.len() == 0 {
        Seq::empty()
    } else {
        escaped_char(s[0], pg) + escaped_literal(s.drop_first(), pg)
    }
}

/// `s` wrapped in single quotes, with embedded single quotes escaped.
pub open spec fn quoted_literal(s: Seq<char>, pg: bool) -> Seq<char> {
    seq!['\''] + escaped_literal(s, pg) + seq!['\'']
}

proof fn lemma_escaped_literal_snoc(s: Seq<char>, c: char, pg: bool)
    ensures
        escaped_literal(s.push(c), pg) == escaped_literal(s, pg) + escaped_char(c, pg),
    decreases s.len(),
{
    if s.len() == 0 {
        assert(s.push(c).drop_first() =~= Seq::<char>::empty());
        assert(s.push(c)[0] == c);
        assert(escaped_literal(Seq::<char>::empty(), pg) == Seq::<char>::empty());
        assert(escaped_literal(s.push(c), pg) == escaped_char(c, pg) + Seq::<char>::empty());
        assert(escaped_char(c, pg) + Seq::<char>::empty() =~= escaped_char(c, pg));
        assert(escaped_literal(s, pg) + escaped_char(c, pg) =~= escaped_char(c, pg));
    } else {
        lemma_escaped_literal_snoc(s.drop_first(), c, pg);
        assert(s.push(c).drop_first() =~= s.drop_first().push(c));
        assert(s.push(c)[0] == s[0]);
        assert(escaped_literal(s.push(c), pg) == escaped_char(s[0], pg) + (escaped_literal(
            s.drop_first(),
            pg,
        ) + escaped_char(c, pg)));
        assert(escaped_char(s[0], pg) + (escaped_literal(s.drop_first(), pg) + escaped_char(c, pg))
            =~= (escaped_char(s[0], pg) + escaped_literal(s.drop_first(), pg)) + escaped_char(
            c,
            pg,
        ));
    }
}

/// `s` wrapped in single quotes with its single quotes escaped, as the
/// dialect's raw-SQL layer wants a string literal written.
pub fn quote_literal(s: &str, pg: bool) -> (r: String)
    ensures
        r@ == quoted_literal(s@, pg),
{
    let n = s.unicode_len();
    let mut out = String::from_str("'");
    proof {
        reveal_strlit("'");
        assert(out@ =~= seq!['\''] + escaped_literal(s@.take(0), pg));
    }
    let mut i: usize = 0;
    while i < n
        invariant
            i <= n,
            n == s@.len(),
            out@ == seq!['\''] + escaped_literal(s@.take(i as int), pg),
        decreases n - i,
    {
        let c = s.get_char(i);
        if c == '\'' {
            if pg {
                out.append("''");
                proof {
                    reveal_strlit("''");
                    assert("''"@ =~= quote_escape(true));
                }
            } else {
                out.append("\\\\'");
                proof {
                    reveal_strlit("\\\\'");
                    assert("\\\\'"@ =~= quote_escape(false));
                }
            }
        } else {
            out.push(c);
        }
        proof {
            lemma_escaped_literal_snoc(s@.take(i as int), c, pg);
            assert(s@.take(i as int + 1) =~= s@.take(i as int).push(c));
        }
        i = i + 1;
    }
    out.append("'");
    proof {
        reveal_strlit("'");
        assert(s@.take(n as int) =~= s@);
        assert(out@ =~= quoted_literal(s@, pg));
    }
    out
}

/// The inverse reading of an escaped literal body: each occurrence of the
/// dialect's quote escape is read back as a single quote, every other
/// character as itself.
pub open spec fn unescaped_literal(s: Seq<char>, pg: bool) -> Seq<char>
    decreases s.len(),
{
    if pg && s.len() >= 2 && s[0] == '\'' && s[1] == '\'' {
        seq!['\''] + unescaped_literal(s.skip(2), pg)
    } else if !pg && s.len() >= 3 && s[0] == '\\' && s[1] == '\\' && s[2] == '\'' {
        seq!['\''] + unescaped_literal(s.skip(3), pg)
    } else if s.len() == 0 {
        Seq::empty()
    } else {
        seq![s[0]] + unescaped_literal(s.drop_first(), pg)
    }
}

proof fn lemma_escaped_first_not_quote(s: Seq<char>)
    ensures
        escaped_literal(s, false).len() > 0 ==> escaped_literal(s, false)[0] != '\'',
{
}

proof fn lemma_escaped_no_escape_prefix(s: Seq<char>)
    ensures
        escaped_literal(s, false).len() >= 2 ==> !(escaped_literal(s, false)[0] == '\\'
            && escaped_literal(s, false)[1] == '\''),
{
    if s.len() > 0 && s[0] != '\'' && s[0] == '\\' {
        lemma_escaped_first_not_quote(s.drop_first());
    }
}

/// The lower-case hexadecimal digit for a value below sixteen.
pub open spec fn hex_digit(n: int) -> char {
    if n == 0 {
        '0'
    } else if n == 1 {
        '1'
    } else if n == 2 {
        '2'
    } else if n == 3 {
        '3'
    } else if n == 4 {
        '4'
    } else if n == 5 {
        '5'
    } else if n == 6 {
        '6'
    } else if n == 7 {
        '7'
    } else if n == 8 {
        '8'
    } else if n == 9 {
        '9'
    } else if n == 10 {
        'a'
    } else if n == 11 {
        'b'
    } else if n == 12 {
        'c'
    } else if n == 13 {
        'd'
    } else if n == 14 {
        'e'
    } else {
        'f'
    }
}

/// One character of a JSON string body: quote and backslash are
/// backslash-escaped, control characters take their short escape or the
/// `\u00..` form, everything else stands unchanged.
pub open spec fn json_escaped_char(c: char) -> Seq<char> {
    if c == '"' {
        seq!['\\', '"']
    } else if c == '\\' {
        seq!['\\', '\\']
    } else if c == '\u{8}' {
        seq!['\\', 'b']
    } else if c == '\t' {
        seq!['\\', 't']
    } else if c == '\n' {
        seq!['\\', 'n']
    } else if c == '\u{c}' {
        seq!['\\', 'f']
    } else if c == '\r' {
        seq!['\\', 'r']
    } else if (c as u32) < 0x20 {
        seq!['\\', 'u', '0', '0', hex_digit(c as u32 as int / 16), hex_digit(c as u32 as int % 16)]
    } else {
        seq![c]
    }
}

/// `s` with every character escaped as a JSON string body wants it.
pub open spec fn json_escaped(s: Seq<char>) -> Seq<char>
    decreases s.len(),
{
    if s.len() == 0 {
        Seq::empty()
    } else {
        json_escaped_char(s[0]) + json_escaped(s.drop_first())
    }
}

/// A JSON string: `s` escaped and wrapped in double quotes, the textual form
/// in which a string value stands in a rendered comparison.
pub open spec fn json_string(s: Seq<char>) -> Seq<char> {
    seq!['"'] + json_escaped(s) + seq!['"']
}

proof fn lemma_json_escaped_snoc(s: Seq<char>, c: char)
    ensures
        json_escaped(s.push(c)) == json_escaped(s) + json_escaped_char(c),
    decreases s.len(),
{
    if s.len() == 0 {
        assert(s.push(c).drop_first() =~= Seq::<char>::empty());
        assert(s.push(c)[0] == c);
        assert(json_escaped(Seq::<char>::empty()) == Seq::<char>::empty());
        assert(json_escaped(s.push(c)) == json_escaped_char(c) + Seq::<char>::empty());
        assert(json_escaped_char(c) + Seq::<char>::empty() =~= json_escaped_char(c));
        assert(json_escaped(s) + json_escaped_char(c) =~= json_escaped_char(c));
    } else {
        lemma_json_escaped_snoc(s.drop_first(), c);
        assert(s.push(c).drop_first() =~= s.drop_first().push(c));
        assert(s.push(c)[0] == s[0]);
        assert(json_escaped(s.push(c)) == json_escaped_char(s[0]) + (json_escaped(s.drop_first())
            + json_escaped_char(c)));
        assert(json_escaped_char(s[0]) + (json_escaped(s.drop_first()) + json_escaped_char(c))
            =~= (json_escaped_char(s[0]) + json_escaped(s.drop_first())) + json_escaped_char(c));
    }
}

fn hex_digit_char(n: u32) -> (r: char)
    requires
        n < 16,
    ensures
        r == hex_digit(n as int),
{
    match n {
        0 => '0',
        1 => '1',
        2 => '2',
        3 => '3',
        4 => '4',
        5 => '5',
        6 => '6',
        7 => '7',
        8 => '8',
        9 => '9',
        10 => 'a',
        11 => 'b',
        12 => 'c',
        13 => 'd',
        14 => 'e',
        _ => 'f',
    }
}

fn push_json_escaped_char(out: &mut String, c: char)
    ensures
        final(out)@ == old(out)@ + json_escaped_char(c),
{
    if c == '"' {
        out.append("\\\"");
        proof {
            reveal_strlit("\\\"");
            assert(old(out)@ + "\\\""@ =~= old(out)@ + json_escaped_char(c));
        }
    } else if c == '\\' {
        out.append("\\\\");
        proof {
            reveal_strlit("\\\\");
            assert(old(out)@ + "\\\\"@ =~= old(out)@ + json_escaped_char(c));
        }
    } else if c == '\u{8}' {
        out.append("\\b");
        proof {
            reveal_strlit("\\b");
            assert(old(out)@ + "\\b"@ =~= old(out)@ + json_escaped_char(c));
        }
    } else if c == '\t' {
        out.append("\\t");
        proof {
            reveal_strlit("\\t");
            assert(old(out)@ + "\\t"@ =~= old(out)@ + json_escaped_char(c));
        }
    } else if c == '\n' {
        out.append("\\n");
        proof {
            reveal_strlit("\\n");
            assert(old(out)@ + "\\n"@ =~= old(out)@ + json_escaped_char(c));
        }
    } else if c == '\u{c}' {
        out.append("\\f");
        proof {
            reveal_strlit("\\f");
            assert(old(out)@ + "\\f"@ =~= old(out)@ + json_escaped_char(c));
        }
    } else if c == '\r' {
        out.append("\\r");
        proof {
            reveal_strlit("\\r");
            assert(old(out)@ + "\\r"@ =~= old(out)@ + json_escaped_char(c));
        }
    } else if (c as u32) < 0x20 {
        let code = c as u32;
        out.append("\\u00");
        out.push(hex_digit_char(code / 16));
        out.push(hex_digit_char(code % 16));
        proof {
            reveal_strlit("\\u00");
            assert(old(out)@ + "\\u00"@ + seq![hex_digit(code as int / 16)] + seq![
                hex_digit(code as int % 16),
            ] =~= old(out)@ + json_escaped_char(c));
        }
    } else {
        out.push(c);
        proof {
            assert(old(out)@ + seq![c] =~= old(out)@ + json_escaped_char(c));
        }
    }
}

/// The JSON textual form of `s`: escaped and wrapped in double quotes.
pub fn json_quote(s: &str) -> (r: String)
    ensures
        r@ == json_string(s@),
{
    let n = s.unicode_len();
    let mut out = String::from_str("\"");
    proof {
        reveal_strlit("\"");
        assert(out@ =~= seq!['"'] + json_escaped(s@.take(0)));
    }
    let mut i: usize = 0;
    while i < n
        invariant
            i <= n,
            n == s@.len(),
            out@ == seq!['"'] + json_escaped(s@.take(i as int)),
        decreases n - i,
    {
        let c = s.get_char(i);
        push_json_escaped_char(&mut out, c);
        proof {
            lemma_json_escaped_snoc(s@.take(i as int), c);
            assert(s@.take(i as int + 1) =~= s@.take(i as int).push(c));
            assert(seq!['"'] + json_escaped(s@.take(i as int)) + json_escaped_char(c) =~= seq!['"']
                + json_escaped(s@.take(i as int + 1)));
        }
        i = i + 1;
    }
    out.append("\"");
    proof {
        reveal_strlit("\"");
        assert(s@.take(n as int) =~= s@);
        assert(out@ =~= json_string(s@));
    }
    out
}

/// Law: un-escaping an escaped literal body recovers the original string, for
/// either dialect's escape rule.
pub proof fn lemma_escape_round_trip(s: Seq<char>, pg: bool)
    ensures
        unescaped_literal(escaped_literal(s, pg), pg) == s,
    decreases s.len(),
{
    if s.len() == 0 {
    } else {
        let e = escaped_literal(s, pg);
        lemma_escape_round_trip(s.drop_first(), pg);
        if s[0] == '\'' {
            if pg {
                assert(e.skip(2) =~= escaped_literal(s.drop_first(), pg));
            } else {
                assert(e.skip(3) =~= escaped_literal(s.drop_first(), pg));
            }
            assert(unescaped_literal(e, pg) =~= s);
        } else {
            assert(e[0] == s[0]);
            assert(e.drop_first() =~= escaped_literal(s.drop_first(), pg));
            if !pg && s[0] == '\\' {
                lemma_escaped_no_escape_prefix(s.drop_first());
                assert(e.len() >= 3 ==> !(e[1] == '\\' && e[2] == '\''));
            }
            assert(unescaped_literal(e, pg) == seq![s[0]] + unescaped_literal(
                e.drop_first(),
                pg,
            ));
            assert(seq![s[0]] + s.drop_first() =~= s);
        }
    }
}

/// Law: for any string, stripping the outer quotes of its quoted literal and
/// applying the dialect's un-escape rule recovers the string.
pub proof fn lemma_quote_literal_round_trip(s: Seq<char>, pg: bool)
    ensures
        quoted_literal(s, pg).len() >= 2,
        quoted_literal(s, pg).first() == '\'',
        quoted_literal(s, pg).last() == '\'',
        unescaped_literal(
            quoted_literal(s, pg).subrange(1, quoted_literal(s, pg).len() - 1),
            pg,
        ) == s,
{
    assert(quoted_literal(s, pg).subrange(1, quoted_literal(s, pg).len() - 1)
        =~= escaped_literal(s, pg));
    lemma_escape_round_trip(s, pg);
}

} // verus!
