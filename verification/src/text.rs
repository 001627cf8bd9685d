//! Character-level text operations with sequence models.
//!
//! Every operation is specified over `Seq<char>`, the view of `str` and
//! `String`. The executable versions scan a character slice once and report
//! pieces of it as [`Span`]s, so that no piece is copied before it is needed.

use vstd::prelude::*;
use vstd::slice::slice_subrange;

verus! {

/// A half-open range of character positions inside some text.
#[derive(Clone, Copy, Debug)]
pub struct Span {
    pub start: usize,
    pub end: usize,
}

/// The piece of `s` that `span` covers.
pub open spec fn span_text(s: Seq<char>, span: Span) -> Seq<char> {
    s.subrange(span.start as int, span.end as int)
}

/// The pieces of `s` that `spans` cover, in order.
pub open spec fn spans_text(s: Seq<char>, spans: Seq<Span>) -> Seq<Seq<char>> {
    Seq::new(spans.len(), |k: int| span_text(s, spans[k]))
}

/// Every span lies inside a text of `len` characters.
pub open spec fn spans_fit(spans: Seq<Span>, len: nat) -> bool {
    forall|k: int| 0 <= k < spans.len() ==> (#[trigger] spans[k]).start <= spans[k].end <= len
}

/// Length of the longest prefix of `s` that does not hold `sep`.
pub open spec fn field_len(s: Seq<char>, sep: char) -> nat
    decreases s.len(),
{
    if s.len() == 0 || s[0] == sep {
        0
    } else {
        1 + field_len(s.skip(1), sep)
    }
}

/// The fields of `s` between occurrences of `sep`. A text without `sep` is
/// one field; `n` separators always give `n + 1` fields, empty ones included.
pub open spec fn split_on(s: Seq<char>, sep: char) -> Seq<Seq<char>>
    decreases s.len(),
{
    let n = field_len(s, sep);
    if n >= s.len() {
        seq![s]
    } else {
        seq![s.take(n as int)] + split_on(s.skip((n + 1) as int), sep)
    }
}

/// The characters of `s`, in order.
pub fn chars_of(s: &str) -> (v: Vec<char>)
    ensures
        v@ == s@,
{
    let mut v: Vec<char> = Vec::new();
    for c in it: s.chars()
        invariant
            v@ == it.seq().take(it.index()),
    {
        v.push(c);
    }
    v
}

/// `field_len` counts exactly the characters before the first `sep`.
pub proof fn lemma_field_len(s: Seq<char>, sep: char)
    ensures
        field_len(s, sep) <= s.len(),
        forall|i: int| 0 <= i < field_len(s, sep) ==> s[i] != sep,
        field_len(s, sep) < s.len() ==> s[field_len(s, sep) as int] == sep,
    decreases s.len(),
{
    if s.len() == 0 || s[0] == sep {
    } else {
        let t = s.skip(1);
        lemma_field_len(t, sep);
        assert forall|i: int| 0 <= i < field_len(s, sep) implies s[i] != sep by {
            if i > 0 {
                assert(s[i] == t[i - 1]);
            }
        }
        if field_len(s, sep) < s.len() {
            assert(s[field_len(s, sep) as int] == t[field_len(t, sep) as int]);
        }
    }
}

/// A prefix free of `sep` that stops at `sep` or at the end is the first field.
pub proof fn lemma_field_len_is(s: Seq<char>, sep: char, n: int)
    requires
        0 <= n <= s.len(),
        forall|i: int| 0 <= i < n ==> s[i] != sep,
        n < s.len() ==> s[n] == sep,
    ensures
        field_len(s, sep) == n,
    decreases s.len(),
{
    if s.len() == 0 || s[0] == sep {
    } else {
        let t = s.skip(1);
        assert forall|i: int| 0 <= i < n - 1 implies t[i] != sep by {
            assert(t[i] == s[i + 1]);
        }
        lemma_field_len_is(t, sep, n - 1);
    }
}

/// Position of the first `sep` at or after `from`, or the length of `s`.
pub fn field_end(s: &[char], from: usize, sep: char) -> (end: usize)
    requires
        from <= s@.len(),
    ensures
        from <= end <= s@.len(),
        end == from + field_len(s@.skip(from as int), sep),
{
    let mut i: usize = from;
    while i < s.len() && s[i] != sep
        invariant
            from <= i <= s@.len(),
            forall|j: int| from <= j < i ==> s@[j] != sep,
        decreases s@.len() - i,
    {
        i += 1;
    }
    proof {
        let t = s@.skip(from as int);
        assert forall|j: int| 0 <= j < i - from implies t[j] != sep by {
            assert(t[j] == s@[from + j]);
        }
        lemma_field_len_is(t, sep, i - from);
    }
    i
}

/// Splits `s` at every `sep`, reporting each field as a span of `s`.
pub fn split(s: &[char], sep: char) -> (spans: Vec<Span>)
    ensures
        spans_fit(spans@, s@.len()),
        spans_text(s@, spans@) == split_on(s@, sep),
{
    let mut spans: Vec<Span> = Vec::new();
    let mut start: usize = 0;
    proof {
        assert(s@.skip(0) == s@);
        assert(spans_text(s@, spans@) + split_on(s@, sep) == split_on(s@, sep));
    }
    loop
        invariant_except_break
            start <= s@.len(),
            spans_fit(spans@, s@.len()),
            split_on(s@, sep) == spans_text(s@, spans@) + split_on(s@.skip(start as int), sep),
        ensures
            spans_fit(spans@, s@.len()),
            spans_text(s@, spans@) == split_on(s@, sep),
        decreases s@.len() - start,
    {
        let end = field_end(s, start, sep);
        let ghost before = spans@;
        let ghost rest = s@.skip(start as int);
        spans.push(Span { start, end });
        proof {
            assert(rest.take(end - start) == s@.subrange(start as int, end as int));
            assert(spans_text(s@, spans@) == spans_text(s@, before) + seq![
                s@.subrange(start as int, end as int),
            ]);
        }
        if end >= s.len() {
            proof {
                assert(rest.take(end - start) == rest);
            }
            break ;
        }
        proof {
            assert(rest.skip(end - start + 1) == s@.skip(end + 1));
        }
        start = end + 1;
    }
    spans
}

/// `p` stands at the very start of `s`.
pub open spec fn starts_with(s: Seq<char>, p: Seq<char>) -> bool {
    p.len() <= s.len() && s.take(p.len() as int) == p
}

/// `p` stands at the very end of `s`.
pub open spec fn ends_with(s: Seq<char>, p: Seq<char>) -> bool {
    p.len() <= s.len() && s.skip(s.len() - p.len()) == p
}

/// `p` stands in `s` at position `i`.
pub open spec fn occurs_at(s: Seq<char>, p: Seq<char>, i: int) -> bool {
    0 <= i && i + p.len() <= s.len() && s.subrange(i, i + p.len()) == p
}

/// `p` stands somewhere in `s`.
pub open spec fn contains(s: Seq<char>, p: Seq<char>) -> bool {
    exists|i: int| occurs_at(s, p, i)
}

/// `i` is the first position at which `p` stands in `s`.
pub open spec fn first_occurrence(s: Seq<char>, p: Seq<char>, i: int) -> bool {
    occurs_at(s, p, i) && forall|j: int| 0 <= j < i ==> !occurs_at(s, p, j)
}

/// Whether `p` stands in `s` at position `i`.
pub fn matches_at(s: &[char], p: &[char], i: usize) -> (r: bool)
    ensures
        r == occurs_at(s@, p@, i as int),
{
    if i > s.len() || p.len() > s.len() - i {
        return false;
    }
    let mut k: usize = 0;
    while k < p.len()
        invariant
            k <= p@.len(),
            i + p@.len() <= s@.len() <= usize::MAX,
            forall|j: int| 0 <= j < k ==> s@[i + j] == p@[j],
        decreases p@.len() - k,
    {
        if s[i + k] != p[k] {
            proof {
                assert(s@.subrange(i as int, i + p@.len())[k as int] == s@[i + k]);
            }
            return false;
        }
        k += 1;
    }
    proof {
        assert(s@.subrange(i as int, i + p@.len()) =~= p@);
    }
    true
}

/// Whether `s` begins with `p`.
pub fn has_prefix(s: &[char], p: &[char]) -> (r: bool)
    ensures
        r == starts_with(s@, p@),
{
    let r = matches_at(s, p, 0);
    proof {
        if p@.len() <= s@.len() {
            assert(s@.subrange(0, 0 + p@.len() as int) == s@.take(p@.len() as int));
        }
    }
    r
}

/// Whether `s` ends with `p`.
pub fn has_suffix(s: &[char], p: &[char]) -> (r: bool)
    ensures
        r == ends_with(s@, p@),
{
    if p.len() > s.len() {
        return false;
    }
    let at = s.len() - p.len();
    let r = matches_at(s, p, at);
    proof {
        assert(s@.subrange(at as int, at + p@.len()) == s@.skip(at as int));
    }
    r
}

/// The first position at which `p` stands in `s`; meaningful where `p`
/// stands in `s` at all.
pub open spec fn position(s: Seq<char>, p: Seq<char>) -> int {
    choose|i: int| first_occurrence(s, p, i)
}

/// A first occurrence is the position.
pub proof fn lemma_position(s: Seq<char>, p: Seq<char>, i: int)
    requires
        first_occurrence(s, p, i),
    ensures
        position(s, p) == i,
        contains(s, p),
{
    let j = position(s, p);
    assert(first_occurrence(s, p, j));
    if j < i {
        assert(!occurs_at(s, p, j));
    } else if i < j {
        assert(!occurs_at(s, p, i));
    }
}

/// Splitting always gives at least one field.
pub proof fn lemma_split_on_nonempty(s: Seq<char>, sep: char)
    ensures
        split_on(s, sep).len() >= 1,
{
}

/// The first position at which `p` stands in `s`, if it stands anywhere.
pub fn find(s: &[char], p: &[char]) -> (r: Option<usize>)
    ensures
        match r {
            Some(i) => first_occurrence(s@, p@, i as int) && position(s@, p@) == i,
            None => !contains(s@, p@),
        },
{
    if p.len() > s.len() {
        return None;
    }
    let last = s.len() - p.len();
    let mut i: usize = 0;
    loop
        invariant
            last == s@.len() - p@.len(),
            i <= last,
            forall|j: int| 0 <= j < i ==> !occurs_at(s@, p@, j),
        decreases last - i,
    {
        if matches_at(s, p, i) {
            proof {
                lemma_position(s@, p@, i as int);
            }
            return Some(i);
        }
        if i >= last {
            return None;
        }
        i += 1;
    }
}

/// Whether `p` stands somewhere in `s`.
pub fn includes(s: &[char], p: &[char]) -> (r: bool)
    ensures
        r == contains(s@, p@),
{
    find(s, p).is_some()
}

/// Appends the characters of `s` to `out`.
pub fn push_chars(out: &mut Vec<char>, s: &[char])
    ensures
        final(out)@ == old(out)@ + s@,
{
    let mut i: usize = 0;
    while i < s.len()
        invariant
            i <= s@.len(),
            out@ == old(out)@ + s@.take(i as int),
        decreases s@.len() - i,
    {
        out.push(s[i]);
        i += 1;
    }
    proof {
        assert(s@.take(i as int) == s@);
    }
}

/// The piece of `s` that `span` covers.
pub fn slice_of(s: &[char], span: Span) -> (piece: &[char])
    requires
        span.start <= span.end <= s@.len(),
    ensures
        piece@ == span_text(s@, span),
{
    slice_subrange(s, span.start, span.end)
}

/// Whether `a` and `b` hold the same characters.
pub fn same_text(a: &[char], b: &[char]) -> (r: bool)
    ensures
        r == (a@ == b@),
{
    if a.len() != b.len() {
        return false;
    }
    let r = matches_at(a, b, 0);
    proof {
        assert(a@.subrange(0, 0 + b@.len() as int) == a@);
    }
    r
}

/// A text without `sep` is one field.
pub proof fn lemma_split_on_single(s: Seq<char>, sep: char)
    requires
        forall|i: int| 0 <= i < s.len() ==> s[i] != sep,
    ensures
        split_on(s, sep) == seq![s],
{
    lemma_field_len_is(s, sep, s.len() as int);
}

/// Where `a` holds no `sep`, it is the first field of `a`, `sep`, `b`, and
/// the other fields are those of `b`.
pub proof fn lemma_split_on_first(a: Seq<char>, b: Seq<char>, sep: char)
    requires
        forall|i: int| 0 <= i < a.len() ==> a[i] != sep,
    ensures
        split_on(a + seq![sep] + b, sep) == seq![a] + split_on(b, sep),
{
    let s = a + seq![sep] + b;
    assert forall|i: int| 0 <= i < a.len() implies s[i] != sep by {
        assert(s[i] == a[i]);
    }
    lemma_field_len_is(s, sep, a.len() as int);
    assert(s.take(a.len() as int) == a);
    assert(s.skip((a.len() + 1) as int) == b);
}

/// The last field of `a`, `sep`, `b` is the last field of `b`, whatever `a`
/// holds.
pub proof fn lemma_split_on_last(a: Seq<char>, b: Seq<char>, sep: char)
    ensures
        split_on(a + seq![sep] + b, sep).last() == split_on(b, sep).last(),
    decreases a.len(),
{
    let s = a + seq![sep] + b;
    let n = field_len(a, sep);
    lemma_field_len(a, sep);
    lemma_split_on_nonempty(b, sep);
    if n >= a.len() {
        lemma_split_on_first(a, b, sep);
    } else {
        let rest = a.skip((n + 1) as int);
        assert forall|i: int| 0 <= i < n implies s[i] != sep by {
            assert(s[i] == a[i]);
        }
        assert(s[n as int] == a[n as int]);
        lemma_field_len_is(s, sep, n as int);
        assert(s.skip((n + 1) as int) == rest + seq![sep] + b);
        lemma_split_on_last(rest, b, sep);
        lemma_split_on_nonempty(rest + seq![sep] + b, sep);
    }
}

/// The fields put together again, with `sep` between one and the next.
pub open spec fn join(fields: Seq<Seq<char>>, sep: char) -> Seq<char>
    decreases fields.len(),
{
    if fields.len() == 0 {
        Seq::empty()
    } else if fields.len() == 1 {
        fields[0]
    } else {
        fields[0] + seq![sep] + join(fields.skip(1), sep)
    }
}

/// Splitting loses nothing and leaves no separator behind: the fields,
/// joined with `sep`, give `s` again, and no field holds `sep`.
pub proof fn law_split_on_partitions(s: Seq<char>, sep: char)
    ensures
        join(split_on(s, sep), sep) == s,
        forall|k: int, i: int|
            0 <= k < split_on(s, sep).len() && 0 <= i < split_on(s, sep)[k].len()
                ==> #[trigger] split_on(s, sep)[k][i] != sep,
    decreases s.len(),
{
    let n = field_len(s, sep);
    let fields = split_on(s, sep);
    lemma_field_len(s, sep);
    if n < s.len() {
        let rest = s.skip((n + 1) as int);
        let tail = split_on(rest, sep);
        law_split_on_partitions(rest, sep);
        lemma_split_on_nonempty(rest, sep);
        assert(fields.skip(1) == tail);
        assert(s.take(n as int) + seq![sep] + rest == s);
        assert forall|k: int, i: int|
            0 <= k < fields.len() && 0 <= i < fields[k].len() implies #[trigger] fields[k][i]
            != sep by {
            if k > 0 {
                assert(fields[k] == tail[k - 1]);
            }
        }
    }
}

} // verus!
