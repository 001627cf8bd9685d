//! Kernel package names: reading the build numbers out of a package name.
//!
//! A kernel image package is named `linux-image-` followed by the kernel
//! version, `major.minor.patch-micro`, and a platform suffix such as `-aws`.
//! A name that does not have this shape is no candidate; it is passed over
//! without an error.

use crate::number::{parse_usize, parse_usize_spec};
use crate::text::{
    chars_of, contains, ends_with, find, has_prefix, has_suffix, lemma_split_on_nonempty,
    position, push_chars, slice_of, span_text, spans_fit, spans_text, split, split_on,
    starts_with, Span,
};
use vstd::prelude::*;
use vstd::slice::slice_subrange;

verus! {

/// What stands in `package` between `prefix` and `suffix`: the name must
/// begin with `prefix`; where the rest ends with `suffix` that ending is cut
/// off, else the rest is cut at the first place where `suffix` stands in it.
pub open spec fn between(package: Seq<char>, prefix: Seq<char>, suffix: Seq<char>) -> Option<
    Seq<char>,
> {
    if !starts_with(package, prefix) {
        None
    } else {
        let rest = package.skip(prefix.len() as int);
        if ends_with(rest, suffix) {
            Some(rest.take(rest.len() - suffix.len()))
        } else if contains(rest, suffix) {
            Some(rest.take(position(rest, suffix)))
        } else {
            None
        }
    }
}

/// The part of the dotted version that `prefix` already holds: what follows
/// its last hyphen.
pub open spec fn version_head(prefix: Seq<char>) -> Seq<char> {
    split_on(prefix, '-').last()
}

/// Every field is a decimal number.
pub open spec fn all_numbers(fields: Seq<Seq<char>>) -> bool {
    forall|k: int| 0 <= k < fields.len() ==> parse_usize_spec(#[trigger] fields[k]) is Some
}

/// The `(patch, micro)` pair that a package name carries.
///
/// The text between `prefix` and `suffix` must be two parts with one hyphen
/// between them. The second part is the micro number. The first part ends
/// the dotted version, which begins after the last hyphen of `prefix`, so
/// that a prefix may stop inside it: with the prefix `linux-image-5.15` the
/// name `linux-image-5.15.0-1015-aws` has the dotted version `5.15.0`. The
/// dotted version must have three fields or more, all of them numbers; the
/// third is the patch number.
pub open spec fn parse_kernel_package_spec(
    package: Seq<char>,
    prefix: Seq<char>,
    suffix: Seq<char>,
) -> Option<(usize, usize)> {
    match between(package, prefix, suffix) {
        None => None,
        Some(middle) => {
            let parts = split_on(middle, '-');
            let fields = split_on(version_head(prefix) + parts[0], '.');
            if parts.len() == 2 && fields.len() >= 3 && all_numbers(fields) && parse_usize_spec(
                parts[1],
            ) is Some {
                Some((parse_usize_spec(fields[2])->0, parse_usize_spec(parts[1])->0))
            } else {
                None
            }
        },
    }
}

/// The span of `package` between `prefix` and `suffix`.
fn between_span(package: &[char], prefix: &[char], suffix: &[char]) -> (r: Option<Span>)
    ensures
        match r {
            Some(span) => span.start <= span.end <= package@.len() && between(
                package@,
                prefix@,
                suffix@,
            ) == Some(span_text(package@, span)),
            None => between(package@, prefix@, suffix@) is None,
        },
{
    if !has_prefix(package, prefix) {
        return None;
    }
    let rest = slice_subrange(package, prefix.len(), package.len());
    proof {
        assert(rest@ == package@.skip(prefix@.len() as int));
    }
    if has_suffix(rest, suffix) {
        let span = Span { start: prefix.len(), end: package.len() - suffix.len() };
        proof {
            assert(span_text(package@, span) == rest@.take(rest@.len() - suffix@.len()));
        }
        return Some(span);
    }
    match find(rest, suffix) {
        Some(i) => {
            let span = Span { start: prefix.len(), end: prefix.len() + i };
            proof {
                assert(span_text(package@, span) == rest@.take(i as int));
            }
            Some(span)
        },
        None => None,
    }
}

/// Whether every field is a number, and the third field's value where
/// there is one.
fn read_fields(dotted: &[char], fields: &Vec<Span>) -> (r: Option<usize>)
    requires
        spans_fit(fields@, dotted@.len()),
        fields@.len() >= 3,
    ensures
        match r {
            Some(patch) => all_numbers(spans_text(dotted@, fields@)) && parse_usize_spec(
                spans_text(dotted@, fields@)[2],
            ) == Some(patch),
            None => !all_numbers(spans_text(dotted@, fields@)),
        },
{
    let ghost texts = spans_text(dotted@, fields@);
    let mut patch: usize = 0;
    let mut k: usize = 0;
    while k < fields.len()
        invariant
            k <= fields@.len(),
            fields@.len() >= 3,
            spans_fit(fields@, dotted@.len()),
            texts == spans_text(dotted@, fields@),
            forall|j: int| 0 <= j < k ==> parse_usize_spec(#[trigger] texts[j]) is Some,
            k > 2 ==> parse_usize_spec(texts[2]) == Some(patch),
        decreases fields@.len() - k,
    {
        let span = fields[k];
        match parse_usize(slice_of(dotted, span)) {
            None => {
                proof {
                    assert(parse_usize_spec(texts[k as int]) is None);
                }
                return None;
            },
            Some(value) => {
                if k == 2 {
                    patch = value;
                }
            },
        }
        k += 1;
    }
    Some(patch)
}

/// Reads the `(patch, micro)` pair out of a package name.
pub fn parse_package_chars(package: &[char], prefix: &[char], suffix: &[char]) -> (r: Option<
    (usize, usize),
>)
    ensures
        r == parse_kernel_package_spec(package@, prefix@, suffix@),
{
    let middle = match between_span(package, prefix, suffix) {
        None => {
            return None;
        },
        Some(span) => slice_of(package, span),
    };
    let parts = split(middle, '-');
    if parts.len() != 2 {
        return None;
    }
    let tail = slice_of(middle, parts[0]);
    let micro_text = slice_of(middle, parts[1]);
    let heads = split(prefix, '-');
    proof {
        lemma_split_on_nonempty(prefix@, '-');
    }
    let head = slice_of(prefix, heads[heads.len() - 1]);
    let mut dotted: Vec<char> = Vec::new();
    push_chars(&mut dotted, head);
    push_chars(&mut dotted, tail);
    proof {
        assert(dotted@ == version_head(prefix@) + split_on(middle@, '-')[0]);
    }
    let fields = split(dotted.as_slice(), '.');
    if fields.len() < 3 {
        return None;
    }
    let patch = match read_fields(dotted.as_slice(), &fields) {
        None => {
            return None;
        },
        Some(patch) => patch,
    };
    match parse_usize(micro_text) {
        None => None,
        Some(micro) => Some((patch, micro)),
    }
}

/// Reads the `(patch, micro)` pair out of a package name such as
/// `linux-image-5.15.0-1015-aws`; `None` where the name does not have the
/// shape that `parse_kernel_package_spec` describes.
pub fn parse_kernel_package(package: &str, prefix: &str, suffix: &str) -> (r: Option<
    (usize, usize),
>)
    ensures
        r == parse_kernel_package_spec(package@, prefix@, suffix@),
{
    let package = chars_of(package);
    let prefix = chars_of(prefix);
    let suffix = chars_of(suffix);
    parse_package_chars(package.as_slice(), prefix.as_slice(), suffix.as_slice())
}

} // verus!
