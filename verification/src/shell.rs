//! Quoting text for a POSIX shell.

use vstd::prelude::*;

use crate::text::{chars_of, string_of};

verus! {

/// One character inside single quotes: a quote closes, escapes and reopens.
pub open spec fn single_quoted_char(c: char) -> Seq<char> {
    if c == '\'' {
        seq!['\'', '\\', '\'', '\'']
    } else {
        seq![c]
    }
}

pub open spec fn single_quoted_body(s: Seq<char>) -> Seq<char>
    decreases s.len(),
{
    if s.len() == 0 {
        s
    } else {
        single_quoted_body(s.drop_last()) + single_quoted_char(s.last())
    }
}

/// The text in single quotes, each quote in it written `'\''`.
pub open spec fn quote_spec(s: Seq<char>) -> Seq<char> {
    seq!['\''] + single_quoted_body(s) + seq!['\'']
}

/// One character inside double quotes: `\`, `"`, `$` and a backquote are escaped.
pub open spec fn double_quoted_char(c: char) -> Seq<char> {
    if c == '\\' || c == '"' || c == '$' || c == '`' {
        seq!['\\', c]
    } else {
        seq![c]
    }
}

pub open spec fn double_quoted_body(s: Seq<char>) -> Seq<char>
    decreases s.len(),
{
    if s.len() == 0 {
        s
    } else {
        double_quoted_body(s.drop_last()) + double_quoted_char(s.last())
    }
}

/// The text in double quotes, with `\`, `"`, `$` and backquotes escaped.
pub open spec fn double_quote_spec(s: Seq<char>) -> Seq<char> {
    seq!['"'] + double_quoted_body(s) + seq!['"']
}

/// `value` as one single-quoted shell word.
pub fn quote(value: &str) -> (r: String)
    ensures
        r@ == quote_spec(value@),
{
    let cs = chars_of(value);
    let mut out: Vec<char> = Vec::new();
    out.push('\'');
    let mut i: usize = 0;
    assert(cs@.take(0) =~= Seq::<char>::empty());
    while i < cs.len()
        invariant
            i <= cs@.len(),
            cs@ == value@,
            out@ == seq!['\''] + single_quoted_body(cs@.take(i as int)),
        decreases cs.len() - i,
    {
        let c = cs[i];
        let ghost before = out@;
        if c == '\'' {
            out.push('\'');
            out.push('\\');
            out.push('\'');
            out.push('\'');
        } else {
            out.push(c);
        }
        assert(cs@.take(i + 1).drop_last() =~= cs@.take(i as int));
        assert(out@ =~= before + single_quoted_char(c));
        i = i + 1;
    }
    out.push('\'');
    assert(cs@.take(i as int) =~= cs@);
    string_of(&out)
}

/// `value` as one double-quoted shell word.
pub fn double_quote(value: &str) -> (r: String)
    ensures
        r@ == double_quote_spec(value@),
{
    let cs = chars_of(value);
    let mut out: Vec<char> = Vec::new();
    out.push('"');
    let mut i: usize = 0;
    assert(cs@.take(0) =~= Seq::<char>::empty());
    while i < cs.len()
        invariant
            i <= cs@.len(),
            cs@ == value@,
            out@ == seq!['"'] + double_quoted_body(cs@.take(i as int)),
        decreases cs.len() - i,
    {
        let c = cs[i];
        let ghost before = out@;
        if c == '\\' || c == '"' || c == '$' || c == '`' {
            out.push('\\');
        }
        out.push(c);
        assert(cs@.take(i + 1).drop_last() =~= cs@.take(i as int));
        assert(out@ =~= before + double_quoted_char(c));
        i = i + 1;
    }
    out.push('"');
    assert(cs@.take(i as int) =~= cs@);
    string_of(&out)
}

} // verus!
