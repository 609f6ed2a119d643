use vstd::prelude::*;
use crate::error::{Failure, TransformError};
use crate::text::{chars_of, is_whitespace, is_ws, split_chars, split_on, string_from_chars};

verus! {

/// What a table annotation line starts with, after its leading whitespace.
pub open spec fn annotation_marker() -> Seq<char> {
    "#[table_name ="@
}

/// The regular expression that captures the table name of an annotation line.
pub open spec fn table_pattern() -> Seq<char> {
    "#\\[table_name = \"(.*)\"\\]"@
}

/// The text that the pattern requires before its capture group.
pub open spec fn capture_open() -> Seq<char> {
    "#[table_name = \""@
}

/// The text that the pattern requires after its capture group.
pub open spec fn capture_close() -> Seq<char> {
    "\"]"@
}

/// The pattern matches `t` from `i`, with the capture group ending at `j`.
pub open spec fn capture_at(t: Seq<char>, i: int, j: int) -> bool {
    let o = capture_open();
    let c = capture_close();
    &&& 0 <= i
    &&& i + o.len() <= j
    &&& j + c.len() <= t.len()
    &&& t.subrange(i, i + o.len()) == o
    &&& t.subrange(j, j + c.len()) == c
    &&& forall|k: int| i + o.len() <= k < j ==> t[k] != '\n'
}

/// The match that a leftmost-first search reports: it starts first, and its
/// greedy group runs as far as the pattern allows.
pub open spec fn is_first_capture(t: Seq<char>, p: (int, int)) -> bool {
    &&& capture_at(t, p.0, p.1)
    &&& forall|a: int, b: int| #[trigger]
        capture_at(t, a, b) ==> p.0 < a || (p.0 == a && b <= p.1)
}

/// The first capture group of the table pattern in `t`, if the pattern matches.
pub open spec fn table_capture(t: Seq<char>) -> Option<Seq<char>> {
    if exists|p: (int, int)| is_first_capture(t, p) {
        let p = choose|p: (int, int)| is_first_capture(t, p);
        Some(t.subrange(p.0 + capture_open().len(), p.1))
    } else {
        None
    }
}

/// Relies on `regex::Regex::new` and `regex::Regex::captures`: compiled from
/// the table pattern, the regex reports its leftmost-first match, where the
/// greedy `.*` (which never crosses `\n`) is as long as the rest of the
/// pattern allows; group 1 takes part in every match.
#[verifier::external_body]
fn regex_first_group(pattern: &str, haystack: &str) -> (r: Option<String>)
    requires
        pattern@ == table_pattern(),
    ensures
        r is None <==> table_capture(haystack@) is None,
        r matches Some(s) ==> table_capture(haystack@) == Some(s@),
{
    match regex::Regex::new(pattern) {
        Ok(re) => match re.captures(haystack) {
            Some(caps) => match caps.get(1) {
                Some(group) => Some(group.as_str().to_string()),
                None => None,
            },
            None => None,
        },
        Err(_) => None,
    }
}

/// `l` without its leading whitespace.
pub open spec fn trim_start(l: Seq<char>) -> Seq<char>
    decreases l.len(),
{
    if l.len() > 0 && is_ws(l[0]) {
        trim_start(l.drop_first())
    } else {
        l
    }
}

/// The line, once its leading whitespace is trimmed, starts with the marker.
pub open spec fn is_annotation_line(l: Seq<char>) -> bool {
    annotation_marker().is_prefix_of(trim_start(l))
}

/// The first of `ls` that is an annotation line.
pub open spec fn first_annotation_line(ls: Seq<Seq<char>>) -> Option<Seq<char>>
    decreases ls.len(),
{
    if ls.len() == 0 {
        None
    } else if is_annotation_line(ls[0]) {
        Some(ls[0])
    } else {
        first_annotation_line(ls.drop_first())
    }
}

/// The lines of a text: the pieces between `\n` characters. A `\r` that ends
/// a line stays in it; it changes neither the marker test nor the capture.
pub open spec fn lines_of(t: Seq<char>) -> Seq<Seq<char>> {
    split_on(t, '\n')
}

/// The table that a definition's source text maps its type onto: the capture
/// of the first annotation line.
pub open spec fn table_name_of(source: Seq<char>) -> Result<Seq<char>, Failure> {
    match first_annotation_line(lines_of(source)) {
        None => Err(Failure::MissingTableAnnotation),
        Some(l) => match table_capture(l) {
            Some(name) => Ok(name),
            None => Err(Failure::MalformedAnnotation),
        },
    }
}

/// The index of the first character of `l` that is not whitespace.
fn skip_whitespace(l: &Vec<char>) -> (k: usize)
    ensures
        k <= l@.len(),
        l@.skip(k as int) == trim_start(l@),
{
    let mut k: usize = 0;
    assert(l@.skip(0) == l@);
    while k < l.len() && is_whitespace(l[k])
        invariant
            k <= l@.len(),
            trim_start(l@.skip(k as int)) == trim_start(l@),
        decreases l.len() - k,
    {
        assert(l@.skip(k as int).drop_first() == l@.skip(k + 1));
        k = k + 1;
    }
    k
}

/// `m` occurs in `l` at position `k`.
fn has_prefix_at(l: &Vec<char>, k: usize, m: &Vec<char>) -> (b: bool)
    requires
        k <= l@.len(),
    ensures
        b == m@.is_prefix_of(l@.skip(k as int)),
{
    if m.len() > l.len() - k {
        return false;
    }
    let n: usize = l.len();
    let mut i: usize = 0;
    while i < m.len()
        invariant
            n == l@.len(),
            i <= m@.len(),
            k <= l@.len(),
            k + m@.len() <= l@.len(),
            forall|j: int| 0 <= j < i ==> m@[j] == l@[k + j],
        decreases m.len() - i,
    {
        if m[i] != l[k + i] {
            assert(m@[i as int] != l@.skip(k as int)[i as int]);
            return false;
        }
        i = i + 1;
    }
    assert(m@ =~= l@.skip(k as int).take(m@.len() as int));
    true
}

/// Finds the table that the source text of a definition maps it onto: the
/// quoted name in its first line that starts, after leading whitespace,
/// with `#[table_name =`.
pub fn get_table_name(input: &str) -> (r: Result<String, TransformError>)
    ensures
        match r {
            Ok(name) => table_name_of(input@) == Ok::<Seq<char>, Failure>(name@),
            Err(e) => table_name_of(input@) == Err::<Seq<char>, Failure>(e@),
        },
{
    let text = chars_of(input);
    let lines = split_chars(&text, '\n');
    let marker = chars_of("#[table_name =");
    let ghost ls = lines@.map_values(|p: Vec<char>| p@);
    let mut i: usize = 0;
    assert(ls.skip(0) == ls);
    while i < lines.len()
        invariant
            i <= lines@.len(),
            ls == lines@.map_values(|p: Vec<char>| p@),
            ls == lines_of(input@),
            marker@ == annotation_marker(),
            first_annotation_line(ls.skip(i as int)) == first_annotation_line(ls),
        decreases lines.len() - i,
    {
        let line = &lines[i];
        assert(ls.skip(i as int)[0] == line@);
        assert(ls.skip(i as int).drop_first() == ls.skip(i + 1));
        let k = skip_whitespace(line);
        if has_prefix_at(line, k, &marker) {
            let hay = string_from_chars(line);
            return match regex_first_group("#\\[table_name = \"(.*)\"\\]", hay.as_str()) {
                Some(name) => Ok(name),
                None => Err(TransformError::MalformedAnnotation),
            };
        }
        i = i + 1;
    }
    Err(TransformError::MissingTableAnnotation)
}

} // verus!
