use vstd::prelude::*;

use crate::scalar::{lines_view, push_char};

verus! {

/// `reference` is a prefix of `candidate`: the node at `candidate` is the node
/// at `reference` or lies beneath it.
pub open spec fn is_prefix_of(reference: Seq<usize>, candidate: Seq<usize>) -> bool {
    &&& reference.len() <= candidate.len()
    &&& forall|i: int| 0 <= i < reference.len() ==> #[trigger] candidate[i] == reference[i]
}

/// belongs to the same level or is nested below, in a tree hierarchy
pub trait SiblingOrNested {
    spec fn spec_within(&self, searched: Seq<usize>) -> bool;

    fn sibling_or_nested(&self, searched: &[usize]) -> (r: bool)
        ensures
            r == self.spec_within(searched@),
    ;
}

impl SiblingOrNested for Vec<usize> {
    open spec fn spec_within(&self, searched: Seq<usize>) -> bool {
        is_prefix_of(searched, self@)
    }

    fn sibling_or_nested(&self, searched: &[usize]) -> (r: bool) {
        if searched.len() > self.len() {
            return false;
        }
        let mut i: usize = 0;
        while i < searched.len()
            invariant
                searched@.len() <= self@.len(),
                i <= searched@.len(),
                forall|k: int| 0 <= k < i ==> self@[k] == searched@[k],
            decreases searched@.len() - i,
        {
            if self[i] != searched[i] {
                return false;
            }
            i = i + 1;
        }
        true
    }
}

/// The empty path lies above every path, every path lies at or beneath
/// itself, and a path lies beneath no path that is longer or that differs
/// from it at a shared position.
pub proof fn lemma_sibling_or_nested(a: Seq<usize>, b: Seq<usize>)
    ensures
        is_prefix_of(Seq::empty(), a),
        is_prefix_of(a, a),
        b.len() > a.len() ==> !is_prefix_of(b, a),
        (exists|i: int| 0 <= i < a.len() && i < b.len() && a[i] != b[i]) ==> !is_prefix_of(b, a),
{
}

/// Separators between the parts of a written path: a dot, or the box
/// drawing line that tables print.
pub open spec fn is_separator(c: char) -> bool {
    c == '.' || c == '\u{2502}'
}

/// The parts of a written path, between separators.
pub open spec fn split_parts(s: Seq<char>) -> Seq<Seq<char>>
    decreases s.len(),
{
    if s.len() == 0 {
        seq![Seq::empty()]
    } else {
        let parts = split_parts(s.drop_last());
        if is_separator(s.last()) {
            parts.push(Seq::empty())
        } else {
            parts.update(parts.len() - 1, parts.last().push(s.last()))
        }
    }
}

proof fn lemma_split_parts_nonempty(s: Seq<char>)
    ensures
        split_parts(s).len() >= 1,
    decreases s.len(),
{
    if s.len() > 0 {
        lemma_split_parts_nonempty(s.drop_last());
    }
}

/// The parts of a written path, between separators.
pub fn split_path(path: &str) -> (r: Vec<String>)
    ensures
        lines_view(r@) == split_parts(path@),
{
    let n = path.unicode_len();
    let mut parts: Vec<String> = Vec::new();
    let mut cur = String::new();
    let mut i: usize = 0;
    assert(path@.take(0) =~= Seq::<char>::empty());
    assert(lines_view(parts@).push(cur@) =~= split_parts(path@.take(0)));
    while i < n
        invariant
            i <= n == path@.len(),
            lines_view(parts@).push(cur@) == split_parts(path@.take(i as int)),
        decreases n - i,
    {
        let c = path.get_char(i);
        let ghost t = path@.take(i as int + 1);
        proof {
            assert(t.drop_last() =~= path@.take(i as int));
            assert(t.last() == c);
            lemma_split_parts_nonempty(path@.take(i as int));
        }
        if c == '.' || c == '\u{2502}' {
            let done = cur;
            parts.push(done);
            cur = String::new();
            assert(lines_view(parts@).push(cur@) =~= split_parts(t));
        } else {
            push_char(&mut cur, c);
            assert(lines_view(parts@).push(cur@) =~= split_parts(t));
        }
        i = i + 1;
    }
    assert(path@.take(n as int) =~= path@);
    parts.push(cur);
    parts
}

/// The characters of Unicode's White_Space property.
pub open spec fn is_white_space(c: char) -> bool {
    ('\u{9}' <= c && c <= '\u{d}') || c == ' ' || c == '\u{85}' || c == '\u{a0}' || c
        == '\u{1680}' || ('\u{2000}' <= c && c <= '\u{200a}') || c == '\u{2028}' || c
        == '\u{2029}' || c == '\u{202f}' || c == '\u{205f}' || c == '\u{3000}'
}

/// The text without its leading white space.
pub open spec fn trim_start_of(s: Seq<char>) -> Seq<char>
    decreases s.len(),
{
    if s.len() > 0 && is_white_space(s[0]) {
        trim_start_of(s.drop_first())
    } else {
        s
    }
}

/// The text without its trailing white space.
pub open spec fn trim_end_of(s: Seq<char>) -> Seq<char>
    decreases s.len(),
{
    if s.len() > 0 && is_white_space(s.last()) {
        trim_end_of(s.drop_last())
    } else {
        s
    }
}

/// What trimming leaves of a text: the text without its leading and
/// trailing white space.
pub open spec fn trimmed(s: Seq<char>) -> Seq<char> {
    trim_end_of(trim_start_of(s))
}

/// Relies on `str::trim`: the text without its leading and trailing
/// characters of the White_Space property.
#[verifier::external_body]
fn trim_text(s: &str) -> (r: String)
    ensures
        r@ == trimmed(s@),
{
    s.trim().to_string()
}

/// Value of a sequence of decimal digits.
pub open spec fn digits_value(s: Seq<char>) -> int
    decreases s.len(),
{
    if s.len() == 0 {
        0
    } else {
        digits_value(s.drop_last()) * 10 + (s.last() as int - '0' as int)
    }
}

/// The integer a text writes in decimal, with an optional leading `+`, when
/// it fits in a `usize`.
pub open spec fn usize_text(s: Seq<char>) -> Option<usize> {
    let d = if s.len() > 0 && s[0] == '+' {
        s.drop_first()
    } else {
        s
    };
    if d.len() > 0 && (forall|i: int| 0 <= i < d.len() ==> '0' <= #[trigger] d[i] <= '9')
        && digits_value(d) <= usize::MAX {
        Some(digits_value(d) as usize)
    } else {
        None
    }
}

/// Relies on `usize::from_str`: an optional `+` then decimal digits whose
/// value fits, and nothing else, is a number.
#[verifier::external_body]
pub(crate) fn parse_usize(s: &str) -> (r: Option<usize>)
    ensures
        r == usize_text(s@),
{
    s.parse::<usize>().ok()
}

/// A written path that does not denote indices.
#[derive(Debug, Clone, Copy, PartialEq, Eq)]
pub enum PathParseError {
    /// The part at this position is not a decimal index.
    NotAnIndex(usize),
}

/// Index path written with separators, each part trimmed of white space:
/// `"1.3.0"` is `[1, 3, 0]`.
pub fn parse_path_indexes(path: &str) -> (r: Result<Vec<usize>, PathParseError>)
    ensures
        r is Ok <==> forall|i: int|
            0 <= i < split_parts(path@).len() ==> usize_text(trimmed(#[trigger] split_parts(path@)[i])) is Some,
        r matches Ok(v) ==> v@.len() == split_parts(path@).len(),
        r matches Ok(v) ==> forall|i: int|
            0 <= i < v@.len() ==> Some(#[trigger] v@[i]) == usize_text(trimmed(split_parts(path@)[i])),
        r matches Err(PathParseError::NotAnIndex(k)) ==> k < split_parts(path@).len() && usize_text(
            trimmed(split_parts(path@)[k as int]),
        ) is None,
{
    let parts = split_path(path);
    let ghost ps = split_parts(path@);
    let mut out: Vec<usize> = Vec::new();
    let mut i: usize = 0;
    while i < parts.len()
        invariant
            i <= parts@.len() == ps.len(),
            ps == split_parts(path@),
            lines_view(parts@) == ps,
            out@.len() == i,
            forall|j: int| 0 <= j < i ==> Some(#[trigger] out@[j]) == usize_text(trimmed(ps[j])),
        decreases parts@.len() - i,
    {
        assert(lines_view(parts@)[i as int] == parts@[i as int]@);
        let t = trim_text(parts[i].as_str());
        match parse_usize(t.as_str()) {
            Some(v) => out.push(v),
            None => {
                assert(usize_text(trimmed(ps[i as int])) is None);
                assert(!(forall|j: int|
                    0 <= j < ps.len() ==> usize_text(trimmed(#[trigger] ps[j])) is Some));
                return Err(PathParseError::NotAnIndex(i));
            },
        }
        i = i + 1;
    }
    assert forall|j: int| 0 <= j < ps.len() implies usize_text(trimmed(#[trigger] ps[j])) is Some by {
        assert(Some(out@[j]) == usize_text(trimmed(ps[j])));
    }
    Ok(out)
}

/// Name path written with separators, each part trimmed of white space:
/// `"main_canvas.title"` is `["main_canvas", "title"]`.
pub fn parse_path_names(path: &str) -> (r: Vec<String>)
    ensures
        lines_view(r@) == split_parts(path@).map_values(|p: Seq<char>| trimmed(p)),
{
    let parts = split_path(path);
    let ghost ps = split_parts(path@);
    let mut out: Vec<String> = Vec::new();
    let mut i: usize = 0;
    while i < parts.len()
        invariant
            i <= parts@.len() == ps.len(),
            ps == split_parts(path@),
            lines_view(parts@) == ps,
            lines_view(out@) == ps.take(i as int).map_values(|p: Seq<char>| trimmed(p)),
        decreases parts@.len() - i,
    {
        assert(lines_view(parts@)[i as int] == parts@[i as int]@);
        let t = trim_text(parts[i].as_str());
        let ghost before = lines_view(out@);
        out.push(t);
        assert(lines_view(out@) =~= before.push(trimmed(ps[i as int])));
        assert(ps.take(i as int + 1) =~= ps.take(i as int).push(ps[i as int]));
        assert(lines_view(out@) =~= ps.take(i as int + 1).map_values(|p: Seq<char>| trimmed(p)));
        i = i + 1;
    }
    assert(ps.take(i as int) =~= ps);
    out
}

} // verus!
