//! Character-level helpers shared by the renderers and parsers.

use vstd::prelude::*;

verus! {

/// The characters of a string slice, in order.
#[verifier::external_body]
pub fn chars_of(s: &str) -> (r: Vec<char>)
    ensures
        r@ == s@,
{
    s.chars().collect()
}

/// A string made of the given characters, in order.
#[verifier::external_body]
pub fn string_of(cs: &[char]) -> (r: String)
    ensures
        r@ == cs@,
{
    cs.iter().collect()
}

/// Whether `c` is a control character (general category Cc), as `char::is_control` decides.
pub open spec fn is_control(c: char) -> bool {
    (c as u32) <= 0x1f || (0x7f <= (c as u32) && (c as u32) <= 0x9f)
}

pub fn char_is_control(c: char) -> (r: bool)
    ensures
        r == is_control(c),
{
    let v = c as u32;
    v <= 0x1f || (0x7f <= v && v <= 0x9f)
}

/// Every control character replaced by `?`.
pub open spec fn display_spec(s: Seq<char>) -> Seq<char> {
    s.map_values(|c: char| if is_control(c) { '?' } else { c })
}

/// `value` with each control character replaced by `?`, so registry text cannot
/// drive the terminal that shows it.
pub fn display_text(value: &str) -> (r: String)
    ensures
        r@ == display_spec(value@),
{
    let cs = chars_of(value);
    let mut out: Vec<char> = Vec::new();
    let mut i: usize = 0;
    while i < cs.len()
        invariant
            i <= cs.len(),
            cs@ == value@,
            out@ == display_spec(cs@.take(i as int)),
        decreases cs.len() - i,
    {
        let c = cs[i];
        let d = if char_is_control(c) { '?' } else { c };
        out.push(d);
        i = i + 1;
        assert(display_spec(cs@.take(i as int)) =~= display_spec(cs@.take(i - 1)).push(d));
    }
    assert(cs@.take(cs.len() as int) =~= cs@);
    string_of(&out)
}

} // verus!

verus! {

/// Appends the characters of `s` to `out`.
pub fn push_str(out: &mut Vec<char>, s: &str)
    ensures
        final(out)@ == old(out)@ + s@,
{
    let cs = chars_of(s);
    push_chars(out, &cs);
}

/// Appends `cs` to `out`.
pub fn push_chars(out: &mut Vec<char>, cs: &[char])
    ensures
        final(out)@ == old(out)@ + cs@,
{
    let ghost start = out@;
    let mut i: usize = 0;
    while i < cs.len()
        invariant
            i <= cs@.len(),
            out@ == start + cs@.take(i as int),
        decreases cs.len() - i,
    {
        out.push(cs[i]);
        i = i + 1;
        assert(start + cs@.take(i as int) =~= start + cs@.take(i - 1) + seq![cs@[i - 1]]);
    }
    assert(cs@.take(cs@.len() as int) =~= cs@);
}

} // verus!

verus! {

/// Whether two string slices hold the same characters.
pub fn text_eq(a: &str, b: &str) -> (r: bool)
    ensures
        r == (a@ == b@),
{
    let x = chars_of(a);
    let y = chars_of(b);
    if x.len() != y.len() {
        return false;
    }
    let mut i: usize = 0;
    while i < x.len()
        invariant
            i <= x@.len(),
            x@.len() == y@.len(),
            x@ == a@,
            y@ == b@,
            forall|j: int| 0 <= j < i ==> x@[j] == y@[j],
        decreases x.len() - i,
    {
        if x[i] != y[i] {
            return false;
        }
        i = i + 1;
    }
    assert(x@ =~= y@);
    true
}

} // verus!

verus! {

// ---------------------------------------------------------------------------
// Numbers.

/// The decimal digit of `d < 10`.
pub open spec fn digit_char(d: nat) -> char {
    seq!['0', '1', '2', '3', '4', '5', '6', '7', '8', '9'][d as int]
}

/// The decimal text of a number, without leading zeros.
pub open spec fn decimal(n: nat) -> Seq<char>
    decreases n,
{
    if n < 10 {
        seq![digit_char(n)]
    } else {
        decimal(n / 10).push(digit_char(n % 10))
    }
}

/// The decimal text of `n`.
pub fn usize_text(n: usize) -> (r: String)
    ensures
        r@ == decimal(n as nat),
{
    let mut digits: Vec<char> = Vec::new();
    let mut m: usize = n;
    let ghost mut suffix: Seq<char> = Seq::empty();
    // Digits are produced least significant first, then reversed.
    while m >= 10
        invariant
            decimal(n as nat) == decimal(m as nat) + suffix,
            digits@.len() == suffix.len(),
            forall|k: int| 0 <= k < digits@.len() ==> #[trigger] digits@[k] == suffix[suffix.len() - 1 - k],
        decreases m,
    {
        let d = m % 10;
        let c = digit_of(d);
        digits.push(c);
        proof {
            assert(decimal(m as nat) == decimal((m / 10) as nat).push(digit_char((m % 10) as nat)));
            let old_suffix = suffix;
            suffix = seq![c] + suffix;
            assert(decimal((m / 10) as nat).push(c) + old_suffix =~= decimal((m / 10) as nat) + suffix);
        }
        m = m / 10;
    }
    let c = digit_of(m);
    let mut out: Vec<char> = Vec::new();
    out.push(c);
    proof {
        assert(decimal(m as nat) =~= seq![c]);
    }
    let mut i: usize = digits.len();
    while i > 0
        invariant
            i <= digits@.len(),
            digits@.len() == suffix.len(),
            forall|k: int| 0 <= k < digits@.len() ==> #[trigger] digits@[k] == suffix[suffix.len() - 1 - k],
            out@ == seq![c] + suffix.take(suffix.len() - i),
        decreases i,
    {
        i = i - 1;
        out.push(digits[i]);
        assert(seq![c] + suffix.take(suffix.len() - i) =~= (seq![c] + suffix.take(suffix.len() - i - 1)).push(
            suffix[suffix.len() - i - 1],
        ));
    }
    assert(suffix.take(suffix.len() as int) =~= suffix);
    string_of(&out)
}

fn digit_of(d: usize) -> (c: char)
    requires
        d < 10,
    ensures
        c == digit_char(d as nat),
{
    if d == 0 {
        '0'
    } else if d == 1 {
        '1'
    } else if d == 2 {
        '2'
    } else if d == 3 {
        '3'
    } else if d == 4 {
        '4'
    } else if d == 5 {
        '5'
    } else if d == 6 {
        '6'
    } else if d == 7 {
        '7'
    } else if d == 8 {
        '8'
    } else {
        '9'
    }
}

/// Whether `c` is an ASCII decimal digit.
pub open spec fn is_digit(c: char) -> bool {
    '0' <= c && c <= '9'
}

/// The value of a text of decimal digits.
pub open spec fn digits_value(s: Seq<char>) -> nat
    decreases s.len(),
{
    if s.len() == 0 {
        0
    } else {
        digits_value(s.drop_last()) * 10 + ((s.last() as nat) - ('0' as nat)) as nat
    }
}

pub open spec fn all_digits(s: Seq<char>) -> bool {
    forall|i: int| 0 <= i < s.len() ==> is_digit(#[trigger] s[i])
}

/// What `str::parse::<usize>` gives: an optional `+`, then one or more decimal
/// digits whose value fits in a `usize`.
pub open spec fn parse_usize_spec(s: Seq<char>) -> Option<usize> {
    let body = if s.len() > 0 && s[0] == '+' {
        s.drop_first()
    } else {
        s
    };
    if body.len() == 0 || !all_digits(body) || digits_value(body) > usize::MAX {
        None
    } else {
        Some(digits_value(body) as usize)
    }
}

proof fn lemma_digits_value_grows(s: Seq<char>, k: int)
    requires
        all_digits(s),
        0 <= k <= s.len(),
    ensures
        digits_value(s.take(k)) <= digits_value(s),
    decreases s.len() - k,
{
    if k < s.len() {
        assert(s.drop_last().take(k) =~= s.take(k));
        assert(all_digits(s.drop_last()));
        lemma_digits_value_grows(s.drop_last(), k);
        assert(s.take(s.len() as int) =~= s);
    } else {
        assert(s.take(k) =~= s);
    }
}

/// Parses a decimal `usize` as `str::parse` does.
pub fn parse_usize(s: &[char]) -> (r: Option<usize>)
    ensures
        r == parse_usize_spec(s@),
{
    let mut start: usize = 0;
    if s.len() > 0 && s[0] == '+' {
        start = 1;
    }
    let ghost body = if s@.len() > 0 && s@[0] == '+' {
        s@.drop_first()
    } else {
        s@
    };
    assert(body =~= s@.skip(start as int));
    if start >= s.len() {
        return None;
    }
    let mut value: usize = 0;
    let mut i: usize = start;
    assert(body.take(0) =~= Seq::<char>::empty());
    while i < s.len()
        invariant
            start <= i <= s@.len(),
            body =~= s@.skip(start as int),
            body == (if s@.len() > 0 && s@[0] == '+' {
                s@.drop_first()
            } else {
                s@
            }),
            all_digits(body.take(i - start)),
            value as nat == digits_value(body.take(i - start)),
        decreases s.len() - i,
    {
        let c = s[i];
        if !('0' <= c && c <= '9') {
            assert(body[i - start] == c);
            assert(!is_digit(body[i - start]));
            return None;
        }
        let d = (c as u32 - '0' as u32) as usize;
        assert(body.take(i - start + 1).drop_last() =~= body.take(i - start));
        assert(body.take(i - start + 1).last() == c);
        if value > (usize::MAX - d) / 10 {
            proof {
                assert(digits_value(body.take(i - start + 1)) == value * 10 + d);
                assert(value * 10 + d > usize::MAX) by (nonlinear_arith)
                    requires
                        value > (usize::MAX - d) / 10,
                        d <= 9,
                ;
                if all_digits(body) {
                    lemma_digits_value_grows(body, i - start + 1);
                    assert(digits_value(body) > usize::MAX);
                }
            }
            return None;
        }
        proof {
            assert(value * 10 + d <= usize::MAX) by (nonlinear_arith)
                requires
                    value <= (usize::MAX - d) / 10,
                    d <= 9,
            ;
        }
        value = value * 10 + d;
        i = i + 1;
    }
    assert(body.take(i - start) =~= body);
    Some(value)
}

} // verus!

verus! {

// ---------------------------------------------------------------------------
// Whitespace, words and prefixes.

/// Whether `c` has the Unicode `White_Space` property, as `char::is_whitespace`
/// decides.
pub open spec fn is_whitespace(c: char) -> bool {
    let v = c as u32;
    (0x9 <= v && v <= 0xd) || v == 0x20 || v == 0x85 || v == 0xa0 || v == 0x1680 || (0x2000 <= v && v
        <= 0x200a) || v == 0x2028 || v == 0x2029 || v == 0x202f || v == 0x205f || v == 0x3000
}

pub fn char_is_whitespace(c: char) -> (r: bool)
    ensures
        r == is_whitespace(c),
{
    let v = c as u32;
    (0x9 <= v && v <= 0xd) || v == 0x20 || v == 0x85 || v == 0xa0 || v == 0x1680 || (0x2000 <= v && v
        <= 0x200a) || v == 0x2028 || v == 0x2029 || v == 0x202f || v == 0x205f || v == 0x3000
}

/// The number of leading whitespace characters.
pub open spec fn lead_ws(s: Seq<char>) -> nat
    decreases s.len(),
{
    if s.len() > 0 && is_whitespace(s[0]) {
        1 + lead_ws(s.drop_first())
    } else {
        0
    }
}

/// The number of trailing whitespace characters.
pub open spec fn trail_ws(s: Seq<char>) -> nat
    decreases s.len(),
{
    if s.len() > 0 && is_whitespace(s.last()) {
        1 + trail_ws(s.drop_last())
    } else {
        0
    }
}

/// The number of leading characters before the first whitespace.
pub open spec fn word_len(s: Seq<char>) -> nat
    decreases s.len(),
{
    if s.len() > 0 && !is_whitespace(s[0]) {
        1 + word_len(s.drop_first())
    } else {
        0
    }
}

/// The text without leading and trailing whitespace, as `str::trim` gives it.
pub open spec fn trim_spec(s: Seq<char>) -> Seq<char> {
    let t = s.skip(lead_ws(s) as int);
    t.take(t.len() - trail_ws(t))
}

/// The first whitespace-separated word and what follows it, as the first step
/// of `str::split_whitespace` gives them.
pub open spec fn first_word(s: Seq<char>) -> Option<(Seq<char>, Seq<char>)> {
    let t = s.skip(lead_ws(s) as int);
    if t.len() == 0 {
        None
    } else {
        Some((t.take(word_len(t) as int), t.skip(word_len(t) as int)))
    }
}

proof fn lemma_lead_ws_bound(s: Seq<char>)
    ensures
        lead_ws(s) <= s.len(),
        lead_ws(s) < s.len() ==> !is_whitespace(s[lead_ws(s) as int]),
    decreases s.len(),
{
    if s.len() > 0 && is_whitespace(s[0]) {
        lemma_lead_ws_bound(s.drop_first());
    }
}

/// The position of the first character from `start` on that is not whitespace.
fn skip_whitespace(s: &[char], start: usize) -> (r: usize)
    requires
        start <= s@.len(),
    ensures
        r == start + lead_ws(s@.skip(start as int)),
        r <= s@.len(),
{
    let mut i = start;
    while i < s.len() && char_is_whitespace(s[i])
        invariant
            start <= i <= s@.len(),
            lead_ws(s@.skip(start as int)) == (i - start) + lead_ws(s@.skip(i as int)),
        decreases s.len() - i,
    {
        assert(s@.skip(i as int).drop_first() =~= s@.skip(i + 1));
        i = i + 1;
    }
    i
}

/// The position of the first whitespace character from `start` on.
fn skip_word(s: &[char], start: usize) -> (r: usize)
    requires
        start <= s@.len(),
    ensures
        r == start + word_len(s@.skip(start as int)),
        r <= s@.len(),
{
    let mut i = start;
    while i < s.len() && !char_is_whitespace(s[i])
        invariant
            start <= i <= s@.len(),
            word_len(s@.skip(start as int)) == (i - start) + word_len(s@.skip(i as int)),
        decreases s.len() - i,
    {
        assert(s@.skip(i as int).drop_first() =~= s@.skip(i + 1));
        i = i + 1;
    }
    i
}

/// The characters `s[from..to]`.
pub fn slice_chars(s: &[char], from: usize, to: usize) -> (r: Vec<char>)
    requires
        from <= to <= s@.len(),
    ensures
        r@ == s@.subrange(from as int, to as int),
{
    let mut out: Vec<char> = Vec::new();
    let mut i = from;
    while i < to
        invariant
            from <= i <= to <= s@.len(),
            out@ == s@.subrange(from as int, i as int),
        decreases to - i,
    {
        out.push(s[i]);
        i = i + 1;
        assert(out@ =~= s@.subrange(from as int, i as int));
    }
    out
}

/// The first whitespace-separated word of `s` and the rest after it.
pub fn split_first_word(s: &[char]) -> (r: Option<(Vec<char>, Vec<char>)>)
    ensures
        match r {
            Some((w, rest)) => first_word(s@) == Some((w@, rest@)),
            None => first_word(s@) is None,
        },
{
    let a = skip_whitespace(s, 0);
    assert(s@.skip(0) =~= s@);
    if a == s.len() {
        return None;
    }
    let b = skip_word(s, a);
    let w = slice_chars(s, a, b);
    let rest = slice_chars(s, b, s.len());
    let ghost t = s@.skip(a as int);
    assert(w@ =~= t.take(word_len(t) as int));
    assert(rest@ =~= t.skip(word_len(t) as int));
    Some((w, rest))
}

/// `s` without leading and trailing whitespace.
pub fn trim_chars(s: &[char]) -> (r: Vec<char>)
    ensures
        r@ == trim_spec(s@),
{
    let a = skip_whitespace(s, 0);
    assert(s@.skip(0) =~= s@);
    let ghost t = s@.skip(a as int);
    let mut b = s.len();
    assert(t.take(b - a) =~= t);
    while b > a && char_is_whitespace(s[b - 1])
        invariant
            a <= b <= s@.len(),
            t == s@.skip(a as int),
            trail_ws(t) == (s@.len() - b) + trail_ws(t.take(b - a)),
        decreases b,
    {
        assert(t.take(b - a).drop_last() =~= t.take(b - a - 1));
        assert(t.take(b - a).last() == s@[b - 1]);
        b = b - 1;
    }
    assert(t.take(t.len() as int) =~= t);
    let r = slice_chars(s, a, b);
    assert(r@ =~= t.take(t.len() - trail_ws(t)));
    r
}

/// Whether `s` begins with `prefix`.
pub open spec fn has_prefix(s: Seq<char>, prefix: Seq<char>) -> bool {
    prefix.len() <= s.len() && s.take(prefix.len() as int) == prefix
}

/// `s` without `prefix`, when it begins with it.
pub fn strip_prefix_chars(s: &[char], prefix: &str) -> (r: Option<Vec<char>>)
    ensures
        match r {
            Some(rest) => has_prefix(s@, prefix@) && rest@ == s@.skip(prefix@.len() as int),
            None => !has_prefix(s@, prefix@),
        },
{
    let p = chars_of(prefix);
    if p.len() > s.len() {
        return None;
    }
    let mut i: usize = 0;
    while i < p.len()
        invariant
            p@ == prefix@,
            p@.len() <= s@.len(),
            i <= p@.len(),
            forall|j: int| 0 <= j < i ==> s@[j] == p@[j],
        decreases p.len() - i,
    {
        if s[i] != p[i] {
            assert(s@.take(p@.len() as int)[i as int] != p@[i as int]);
            return None;
        }
        i = i + 1;
    }
    assert(s@.take(p@.len() as int) =~= p@);
    Some(slice_chars(s, p.len(), s.len()))
}

/// The first `n` characters of `s` (all of it when it is shorter).
pub fn take_chars(s: &str, n: usize) -> (r: String)
    ensures
        r@ == s@.take(if n < s@.len() { n as int } else { s@.len() as int }),
{
    let cs = chars_of(s);
    let end = if n < cs.len() { n } else { cs.len() };
    let out = slice_chars(&cs, 0, end);
    string_of(&out)
}

} // verus!

verus! {

// ---------------------------------------------------------------------------
// Paths.

/// The position of the last `/`, or -1 when there is none.
pub open spec fn last_slash(p: Seq<char>) -> int
    decreases p.len(),
{
    if p.len() == 0 {
        -1
    } else if p.last() == '/' {
        p.len() - 1
    } else {
        last_slash(p.drop_last())
    }
}

pub proof fn lemma_last_slash_bound(p: Seq<char>)
    ensures
        -1 <= last_slash(p) < p.len(),
    decreases p.len(),
{
    if p.len() > 0 && p.last() != '/' {
        lemma_last_slash_bound(p.drop_last());
    }
}

/// The last component of a path: trailing `/` and `.` components are passed
/// over, as `Path::components` does.
pub open spec fn last_component(p: Seq<char>) -> Seq<char>
    decreases p.len(),
{
    if p.len() == 0 {
        p
    } else if p.last() == '/' {
        last_component(p.drop_last())
    } else {
        proof {
            lemma_last_slash_bound(p);
        }
        let k = last_slash(p);
        let part = p.skip(k + 1);
        if part == seq!['.'] {
            if k < 0 {
                Seq::empty()
            } else {
                last_component(p.take(k))
            }
        } else {
            part
        }
    }
}

/// The final component of a path, as `Path::file_name` gives it: nothing for an
/// empty path, a root, or one that ends in `..`.
pub open spec fn file_name_spec(p: Seq<char>) -> Option<Seq<char>> {
    let c = last_component(p);
    if c.len() == 0 || c == seq!['.', '.'] {
        None
    } else {
        Some(c)
    }
}

/// The final component of a path.
pub fn file_name(path: &str) -> (r: Option<String>)
    ensures
        match r {
            Some(n) => file_name_spec(path@) == Some(n@),
            None => file_name_spec(path@) is None,
        },
{
    let cs = chars_of(path);
    let mut end: usize = cs.len();
    assert(cs@.take(end as int) =~= cs@);
    loop
        invariant
            cs@ == path@,
            end <= cs@.len(),
            last_component(cs@) == last_component(cs@.take(end as int)),
        decreases end,
    {
        let ghost end0 = end;
        while end > 0 && cs[end - 1] == '/'
            invariant
                end <= end0,
                end <= cs@.len(),
                last_component(cs@) == last_component(cs@.take(end as int)),
            decreases end,
        {
            assert(cs@.take(end as int).drop_last() =~= cs@.take(end - 1));
            end = end - 1;
        }
        if end == 0 {
            return None;
        }
        let mut j: usize = end;
        while j > 0 && cs[j - 1] != '/'
            invariant
                j <= end <= cs@.len(),
                last_slash(cs@.take(end as int)) == last_slash(cs@.take(j as int)),
            decreases j,
        {
            assert(cs@.take(j as int).drop_last() =~= cs@.take(j - 1));
            j = j - 1;
        }
        let ghost p = cs@.take(end as int);
        assert(last_slash(p) == j - 1) by {
            if j > 0 {
                assert(cs@.take(j as int).last() == '/');
            }
        }
        assert(p.last() != '/');
        assert(p.skip(j as int) =~= cs@.subrange(j as int, end as int));
        if end - j == 1 && cs[j] == '.' {
            assert(p.skip(j as int) =~= seq!['.']);
            if j == 0 {
                return None;
            }
            assert(p.take(j - 1) =~= cs@.take(j - 1));
            end = j - 1;
        } else {
            assert(p.skip(j as int) != seq!['.']) by {
                if end - j == 1 {
                    assert(p.skip(j as int)[0] == cs@[j as int]);
                }
            }
            let part = slice_chars(&cs, j, end);
            assert(last_component(cs@) == part@);
            if end - j == 2 && cs[j] == '.' && cs[j + 1] == '.' {
                assert(part@ =~= seq!['.', '.']);
                return None;
            }
            assert(part@ != seq!['.', '.']) by {
                if part@.len() == 2 {
                    assert(part@[0] == cs@[j as int] && part@[1] == cs@[j + 1]);
                }
            }
            return Some(string_of(&part));
        }
    }
}

} // verus!

verus! {

pub fn char_is_digit_ascii(c: char) -> (r: bool)
    ensures
        r == is_digit(c),
{
    '0' <= c && c <= '9'
}

} // verus!
