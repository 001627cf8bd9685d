//! Whitespace: trimming and splitting into words.
//!
//! Whitespace is what Unicode gives the property `White_Space`.

use crate::text::{span_text, spans_fit, spans_text, Span};
use vstd::prelude::*;

verus! {

/// `c` has the Unicode property `White_Space`.
pub open spec fn is_space(c: char) -> bool {
    let u = c as u32;
    ||| 0x09 <= u <= 0x0D
    ||| u == 0x20
    ||| u == 0x85
    ||| u == 0xA0
    ||| u == 0x1680
    ||| 0x2000 <= u <= 0x200A
    ||| u == 0x2028
    ||| u == 0x2029
    ||| u == 0x202F
    ||| u == 0x205F
    ||| u == 0x3000
}

/// `s` without its leading whitespace.
pub open spec fn trim_start(s: Seq<char>) -> Seq<char>
    decreases s.len(),
{
    if s.len() > 0 && is_space(s[0]) {
        trim_start(s.skip(1))
    } else {
        s
    }
}

/// `s` without its trailing whitespace.
pub open spec fn trim_end(s: Seq<char>) -> Seq<char>
    decreases s.len(),
{
    if s.len() > 0 && is_space(s.last()) {
        trim_end(s.drop_last())
    } else {
        s
    }
}

/// `s` without its leading and trailing whitespace.
pub open spec fn trim(s: Seq<char>) -> Seq<char> {
    trim_end(trim_start(s))
}

/// Length of the longest prefix of `s` that holds no whitespace.
pub open spec fn word_len(s: Seq<char>) -> nat
    decreases s.len(),
{
    if s.len() == 0 || is_space(s[0]) {
        0
    } else {
        1 + word_len(s.skip(1))
    }
}

/// The maximal runs of non-whitespace characters in `s`, in order.
pub open spec fn words(s: Seq<char>) -> Seq<Seq<char>>
    decreases s.len(),
{
    if s.len() == 0 {
        Seq::empty()
    } else if is_space(s[0]) {
        words(s.skip(1))
    } else {
        let n = word_len(s);
        if n >= s.len() {
            seq![s]
        } else {
            seq![s.take(n as int)] + words(s.skip((n + 1) as int))
        }
    }
}

/// The first word of `s`; empty where `s` holds none.
pub open spec fn first_word(s: Seq<char>) -> Seq<char> {
    if words(s).len() > 0 {
        words(s)[0]
    } else {
        Seq::empty()
    }
}

/// Whether `c` is whitespace.
pub fn is_whitespace(c: char) -> (r: bool)
    ensures
        r == is_space(c),
{
    let u = c as u32;
    (0x09 <= u && u <= 0x0D) || u == 0x20 || u == 0x85 || u == 0xA0 || u == 0x1680 || (0x2000 <= u
        && u <= 0x200A) || u == 0x2028 || u == 0x2029 || u == 0x202F || u == 0x205F || u == 0x3000
}

/// A prefix free of whitespace that stops at whitespace or at the end is
/// the leading word.
pub proof fn lemma_word_len_is(s: Seq<char>, n: int)
    requires
        0 <= n <= s.len(),
        forall|i: int| 0 <= i < n ==> !is_space(s[i]),
        n < s.len() ==> is_space(s[n]),
    ensures
        word_len(s) == n,
    decreases s.len(),
{
    if s.len() == 0 || is_space(s[0]) {
    } else {
        let t = s.skip(1);
        assert forall|i: int| 0 <= i < n - 1 implies !is_space(t[i]) by {
            assert(t[i] == s[i + 1]);
        }
        lemma_word_len_is(t, n - 1);
    }
}

/// Position of the first non-whitespace character at or after `from`, or
/// the length of `s`.
pub fn skip_spaces(s: &[char], from: usize) -> (at: usize)
    requires
        from <= s@.len(),
    ensures
        from <= at <= s@.len(),
        forall|j: int| from <= j < at ==> is_space(s@[j]),
        at < s@.len() ==> !is_space(s@[at as int]),
        trim_start(s@.skip(from as int)) == s@.skip(at as int),
        words(s@.skip(from as int)) == words(s@.skip(at as int)),
{
    let mut i: usize = from;
    while i < s.len() && is_whitespace(s[i])
        invariant
            from <= i <= s@.len(),
            forall|j: int| from <= j < i ==> is_space(s@[j]),
            trim_start(s@.skip(from as int)) == trim_start(s@.skip(i as int)),
            words(s@.skip(from as int)) == words(s@.skip(i as int)),
        decreases s@.len() - i,
    {
        proof {
            assert(s@.skip(i as int).skip(1) == s@.skip(i + 1));
        }
        i += 1;
    }
    i
}

/// Position of the first whitespace character at or after `from`, or the
/// length of `s`.
pub fn word_end(s: &[char], from: usize) -> (end: usize)
    requires
        from <= s@.len(),
    ensures
        from <= end <= s@.len(),
        end == from + word_len(s@.skip(from as int)),
{
    let mut i: usize = from;
    while i < s.len() && !is_whitespace(s[i])
        invariant
            from <= i <= s@.len(),
            forall|j: int| from <= j < i ==> !is_space(s@[j]),
        decreases s@.len() - i,
    {
        i += 1;
    }
    proof {
        let t = s@.skip(from as int);
        assert forall|j: int| 0 <= j < i - from implies !is_space(t[j]) by {
            assert(t[j] == s@[from + j]);
        }
        lemma_word_len_is(t, i - from);
    }
    i
}

/// The part of `s` that is left when leading and trailing whitespace go.
pub fn trim_span(s: &[char]) -> (span: Span)
    ensures
        span.start <= span.end <= s@.len(),
        span_text(s@, span) == trim(s@),
{
    proof {
        assert(s@.skip(0) == s@);
    }
    let start = skip_spaces(s, 0);
    let mut end: usize = s.len();
    proof {
        assert(s@.skip(start as int) == s@.subrange(start as int, end as int));
    }
    while end > start && is_whitespace(s[end - 1])
        invariant
            start <= end <= s@.len(),
            trim(s@) == trim_end(s@.subrange(start as int, end as int)),
        decreases end,
    {
        proof {
            assert(s@.subrange(start as int, end as int).drop_last() == s@.subrange(
                start as int,
                end - 1,
            ));
        }
        end -= 1;
    }
    Span { start, end }
}

/// `s` without its leading and trailing whitespace.
pub fn trimmed(s: &str) -> (t: String)
    ensures
        t@ == trim(s@),
{
    let chars = crate::text::chars_of(s);
    let span = trim_span(chars.as_slice());
    String::from_str(s.substring_char(span.start, span.end))
}

/// The words of `s`, each as a span of `s`.
pub fn word_spans(s: &[char]) -> (spans: Vec<Span>)
    ensures
        spans_fit(spans@, s@.len()),
        spans_text(s@, spans@) == words(s@),
{
    let mut spans: Vec<Span> = Vec::new();
    let mut at: usize = 0;
    proof {
        assert(s@.skip(0) == s@);
        assert(spans_text(s@, spans@) + words(s@) == words(s@));
    }
    loop
        invariant_except_break
            at <= s@.len(),
            spans_fit(spans@, s@.len()),
            words(s@) == spans_text(s@, spans@) + words(s@.skip(at as int)),
        ensures
            spans_fit(spans@, s@.len()),
            spans_text(s@, spans@) == words(s@),
        decreases s@.len() - at,
    {
        let start = skip_spaces(s, at);
        if start >= s.len() {
            proof {
                assert(spans_text(s@, spans@) + words(s@.skip(start as int)) == spans_text(
                    s@,
                    spans@,
                ));
            }
            break ;
        }
        let end = word_end(s, start);
        let ghost before = spans@;
        let ghost rest = s@.skip(start as int);
        spans.push(Span { start, end });
        proof {
            assert(rest.take(end - start) == s@.subrange(start as int, end as int));
            assert(spans_text(s@, spans@) == spans_text(s@, before) + seq![
                s@.subrange(start as int, end as int),
            ]);
        }
        if end >= s.len() {
            proof {
                assert(rest.take(end - start) == rest);
            }
            break ;
        }
        proof {
            assert(rest.skip(end - start + 1) == s@.skip(end + 1));
        }
        at = end + 1;
    }
    spans
}

/// The first word of `s` as a span of `s`; an empty span where `s` holds
/// no word.
pub fn first_word_span(s: &[char]) -> (span: Span)
    ensures
        span.start <= span.end <= s@.len(),
        span_text(s@, span) == first_word(s@),
{
    proof {
        assert(s@.skip(0) == s@);
    }
    let start = skip_spaces(s, 0);
    if start >= s.len() {
        proof {
            assert(s@.subrange(start as int, start as int) == Seq::<char>::empty());
        }
        return Span { start, end: start };
    }
    let end = word_end(s, start);
    proof {
        let rest = s@.skip(start as int);
        assert(rest.take(end - start) == s@.subrange(start as int, end as int));
        if end >= s@.len() {
            assert(rest.take(end - start) == rest);
        }
    }
    Span { start, end }
}

/// `trim_start` cuts off a run of whitespace at the start and stops at the
/// first character that is none.
pub proof fn lemma_trim_start(s: Seq<char>)
    ensures
        trim_start(s).len() <= s.len(),
        trim_start(s) == s.skip(s.len() - trim_start(s).len()),
        forall|i: int| 0 <= i < s.len() - trim_start(s).len() ==> is_space(#[trigger] s[i]),
        trim_start(s).len() > 0 ==> !is_space(trim_start(s)[0]),
    decreases s.len(),
{
    if s.len() > 0 && is_space(s[0]) {
        let t = s.skip(1);
        lemma_trim_start(t);
        let cut = s.len() - trim_start(s).len();
        assert(t.skip(cut - 1) == s.skip(cut));
        assert forall|i: int| 0 <= i < cut implies is_space(#[trigger] s[i]) by {
            if i > 0 {
                assert(s[i] == t[i - 1]);
            }
        }
    } else {
        assert(s.skip(0) == s);
    }
}

/// `trim_end` cuts off a run of whitespace at the end and stops at the last
/// character that is none.
pub proof fn lemma_trim_end(s: Seq<char>)
    ensures
        trim_end(s).len() <= s.len(),
        trim_end(s) == s.take(trim_end(s).len() as int),
        forall|i: int| trim_end(s).len() <= i < s.len() ==> is_space(#[trigger] s[i]),
        trim_end(s).len() > 0 ==> !is_space(trim_end(s).last()),
    decreases s.len(),
{
    if s.len() > 0 && is_space(s.last()) {
        let t = s.drop_last();
        lemma_trim_end(t);
        let kept = trim_end(s).len() as int;
        assert(t.take(kept) == s.take(kept));
        assert forall|i: int| kept <= i < s.len() implies is_space(#[trigger] s[i]) by {
            if i < t.len() {
                assert(s[i] == t[i]);
            }
        }
    } else {
        assert(s.take(s.len() as int) == s);
    }
}

/// Trimming removes whitespace and nothing else, and all of it at both
/// ends: what is left is a stretch of `s`, all that stands before and after
/// it is whitespace, and it neither begins nor ends with whitespace.
pub proof fn law_trim_cuts_whitespace_only(s: Seq<char>)
    ensures
        ({
            let t = trim(s);
            let a = s.len() - trim_start(s).len();
            &&& 0 <= a <= a + t.len() <= s.len()
            &&& t == s.subrange(a, a + t.len())
            &&& forall|i: int| 0 <= i < a ==> is_space(#[trigger] s[i])
            &&& forall|i: int| a + t.len() <= i < s.len() ==> is_space(#[trigger] s[i])
            &&& t.len() > 0 ==> !is_space(t[0]) && !is_space(t.last())
        }),
{
    let m = trim_start(s);
    let t = trim(s);
    let a = s.len() - m.len();
    lemma_trim_start(s);
    lemma_trim_end(m);
    assert(t == s.subrange(a, a + t.len()));
    assert forall|i: int| a + t.len() <= i < s.len() implies is_space(#[trigger] s[i]) by {
        assert(s[i] == m[i - a]);
    }
    if t.len() > 0 {
        assert(t[0] == m[0]);
    }
}

/// `word_len` counts exactly the characters before the first whitespace.
pub proof fn lemma_word_len(s: Seq<char>)
    ensures
        word_len(s) <= s.len(),
        forall|i: int| 0 <= i < word_len(s) ==> !is_space(#[trigger] s[i]),
        word_len(s) < s.len() ==> is_space(s[word_len(s) as int]),
    decreases s.len(),
{
    if s.len() == 0 || is_space(s[0]) {
    } else {
        let t = s.skip(1);
        lemma_word_len(t);
        assert forall|i: int| 0 <= i < word_len(s) implies !is_space(#[trigger] s[i]) by {
            if i > 0 {
                assert(s[i] == t[i - 1]);
            }
        }
        if word_len(s) < s.len() {
            assert(s[word_len(s) as int] == t[word_len(t) as int]);
        }
    }
}

/// A word is never empty and holds no whitespace.
pub proof fn law_words_hold_no_whitespace(s: Seq<char>)
    ensures
        forall|k: int| 0 <= k < words(s).len() ==> (#[trigger] words(s)[k]).len() > 0,
        forall|k: int, i: int|
            0 <= k < words(s).len() && 0 <= i < words(s)[k].len() ==> !is_space(
                #[trigger] words(s)[k][i],
            ),
    decreases s.len(),
{
    if s.len() == 0 {
    } else if is_space(s[0]) {
        law_words_hold_no_whitespace(s.skip(1));
        assert(words(s) == words(s.skip(1)));
    } else {
        let n = word_len(s);
        let all = words(s);
        lemma_word_len(s);
        assert(n >= 1);
        if n < s.len() {
            let rest = s.skip((n + 1) as int);
            let tail = words(rest);
            law_words_hold_no_whitespace(rest);
            assert(all == seq![s.take(n as int)] + tail);
            assert forall|k: int| 0 <= k < all.len() implies (#[trigger] all[k]).len() > 0 by {
                if k > 0 {
                    assert(all[k] == tail[k - 1]);
                } else {
                    assert(all[0] == s.take(n as int));
                }
            }
            assert forall|k: int, i: int|
                0 <= k < all.len() && 0 <= i < all[k].len() implies !is_space(
                #[trigger] all[k][i],
            ) by {
                if k > 0 {
                    assert(all[k] == tail[k - 1]);
                } else {
                    assert(all[0][i] == s[i]);
                }
            }
        } else {
            assert(all == seq![s]);
            assert forall|k: int| 0 <= k < all.len() implies (#[trigger] all[k]).len() > 0 by {
                assert(all[0] == s);
            }
            assert forall|k: int, i: int|
                0 <= k < all.len() && 0 <= i < all[k].len() implies !is_space(
                #[trigger] all[k][i],
            ) by {
                assert(all[0][i] == s[i]);
            }
        }
    }
}

} // verus!
