//! The kernel that the driver is built against: the newest build of the
//! running kernel's series that the package index offers.

use crate::kernel::{
    all_numbers, between, parse_kernel_package_spec, parse_package_chars, version_head,
};
use crate::number::{
    decimal_text, is_digit, law_decimal_round_trip, lemma_decimal_digits,
    lemma_number_characters, parse_usize_spec, push_decimal,
};
use crate::space::{first_word, first_word_span};
use crate::text::{
    chars_of, contains, includes, lemma_split_on_first, lemma_split_on_last,
    lemma_split_on_single, slice_of, spans_text, split, split_on,
};
use vstd::prelude::*;

verus! {

/// A kernel build: `major.minor.patch-micro` and the platform's suffix.
/// Major and minor are kept as the running kernel writes them.
#[derive(Debug, Clone, PartialEq, Eq)]
pub struct KernelIdentity<T> {
    pub major: T,
    pub minor: T,
    pub patch: usize,
    pub micro: usize,
    pub suffix: T,
}

impl View for KernelIdentity<String> {
    type V = KernelIdentity<Seq<char>>;

    open spec fn view(&self) -> KernelIdentity<Seq<char>> {
        KernelIdentity {
            major: self.major@,
            minor: self.minor@,
            patch: self.patch,
            micro: self.micro,
            suffix: self.suffix@,
        }
    }
}

/// `major.minor.patch-micro`: what the running kernel's release must hold
/// for the kernel to be this one.
pub open spec fn release_core(kernel: KernelIdentity<Seq<char>>) -> Seq<char> {
    kernel.major + "."@ + kernel.minor + "."@ + decimal_text(kernel.patch as nat) + "-"@
        + decimal_text(kernel.micro as nat)
}

/// `major.minor.patch-micro` followed by the platform's suffix.
pub open spec fn version_text(kernel: KernelIdentity<Seq<char>>) -> Seq<char> {
    release_core(kernel) + kernel.suffix
}

/// The name of the kernel's image package.
pub open spec fn image_package(kernel: KernelIdentity<Seq<char>>) -> Seq<char> {
    "linux-image-"@ + version_text(kernel)
}

/// The name of the kernel's headers package.
pub open spec fn headers_package(kernel: KernelIdentity<Seq<char>>) -> Seq<char> {
    "linux-headers-"@ + version_text(kernel)
}

/// What the names of all image packages of a series begin with.
pub open spec fn image_prefix(major: Seq<char>, minor: Seq<char>) -> Seq<char> {
    "linux-image-"@ + major + "."@ + minor
}

/// Major and minor of a kernel release: its first two fields between dots.
pub open spec fn series(release: Seq<char>) -> Option<(Seq<char>, Seq<char>)> {
    let fields = split_on(release, '.');
    if fields.len() >= 2 {
        Some((fields[0], fields[1]))
    } else {
        None
    }
}

/// Whether build `a` is newer than build `b`: by patch, then by micro.
pub open spec fn newer(a: (usize, usize), b: (usize, usize)) -> bool {
    a.0 > b.0 || (a.0 == b.0 && a.1 > b.1)
}

/// The build that a line of the package listing offers: the line's first
/// word is the package name.
pub open spec fn candidate(line: Seq<char>, prefix: Seq<char>, suffix: Seq<char>) -> Option<
    (usize, usize),
> {
    parse_kernel_package_spec(first_word(line), prefix, suffix)
}

/// The newest build among `lines`; `(0, 0)` where no line offers one.
pub open spec fn newest_among(lines: Seq<Seq<char>>, prefix: Seq<char>, suffix: Seq<char>) -> (
    usize,
    usize,
)
    decreases lines.len(),
{
    if lines.len() == 0 {
        (0usize, 0usize)
    } else {
        let best = newest_among(lines.drop_last(), prefix, suffix);
        match candidate(lines.last(), prefix, suffix) {
            Some(build) => if newer(build, best) {
                build
            } else {
                best
            },
            None => best,
        }
    }
}

/// The newest build that a package listing offers, one package a line.
pub open spec fn newest_build(listing: Seq<char>, prefix: Seq<char>, suffix: Seq<char>) -> (
    usize,
    usize,
) {
    newest_among(split_on(listing, '\n'), prefix, suffix)
}

/// The kernel to install on a host that runs `release` and whose package
/// index lists `listing`: the newest build of the running series.
pub open spec fn resolve_target(release: Seq<char>, listing: Seq<char>, suffix: Seq<char>)
    -> Option<KernelIdentity<Seq<char>>> {
    match series(release) {
        None => None,
        Some((major, minor)) => {
            let build = newest_build(listing, image_prefix(major, minor), suffix);
            Some(KernelIdentity { major, minor, patch: build.0, micro: build.1, suffix })
        },
    }
}

/// Whether a host whose kernel reports `release` runs `kernel`.
pub open spec fn runs(release: Seq<char>, kernel: KernelIdentity<Seq<char>>) -> bool {
    contains(release, release_core(kernel))
}

/// Whether the target kernel is in place: the host runs it and its headers
/// package is installed.
pub open spec fn matches_installed(
    kernel: KernelIdentity<Seq<char>>,
    release: Seq<char>,
    headers_installed: bool,
) -> bool {
    runs(release, kernel) && headers_installed
}

/// The newest build is no older than any build on offer, and it is on offer
/// itself unless it is `(0, 0)`.
pub proof fn law_newest_build_is_maximum(
    lines: Seq<Seq<char>>,
    prefix: Seq<char>,
    suffix: Seq<char>,
)
    ensures
        forall|k: int|
            0 <= k < lines.len() ==> (#[trigger] candidate(lines[k], prefix, suffix) matches Some(
                build,
            ) ==> !newer(build, newest_among(lines, prefix, suffix))),
        newest_among(lines, prefix, suffix) == (0usize, 0usize) || exists|k: int|
            0 <= k < lines.len() && #[trigger] candidate(lines[k], prefix, suffix) == Some(
                newest_among(lines, prefix, suffix),
            ),
    decreases lines.len(),
{
    if lines.len() > 0 {
        let front = lines.drop_last();
        let best = newest_among(front, prefix, suffix);
        let top = newest_among(lines, prefix, suffix);
        law_newest_build_is_maximum(front, prefix, suffix);
        assert forall|k: int| 0 <= k < lines.len() implies (#[trigger] candidate(
            lines[k],
            prefix,
            suffix,
        ) matches Some(build) ==> !newer(build, top)) by {
            if k < front.len() {
                assert(front[k] == lines[k]);
            }
        }
        if top != (0usize, 0usize) {
            if top == best {
                let k = choose|k: int|
                    0 <= k < front.len() && #[trigger] candidate(front[k], prefix, suffix) == Some(
                        best,
                    );
                assert(front[k] == lines[k]);
            } else {
                assert(candidate(lines[lines.len() - 1], prefix, suffix) == Some(top));
            }
        }
    }
}

/// Names are written the way they are read: the image package of a kernel
/// whose major and minor are numbers is a candidate of its own series and
/// suffix, and what is read out of its name is the kernel's patch and micro
/// number.
pub proof fn law_target_is_a_candidate(kernel: KernelIdentity<Seq<char>>)
    requires
        parse_usize_spec(kernel.major) is Some,
        parse_usize_spec(kernel.minor) is Some,
    ensures
        parse_kernel_package_spec(
            image_package(kernel),
            image_prefix(kernel.major, kernel.minor),
            kernel.suffix,
        ) == Some((kernel.patch, kernel.micro)),
{
    let major = kernel.major;
    let minor = kernel.minor;
    let patch = decimal_text(kernel.patch as nat);
    let micro = decimal_text(kernel.micro as nat);
    let lead = "linux-image-"@;
    let package = image_package(kernel);
    let prefix = image_prefix(major, minor);
    reveal_strlit("linux-image-");
    reveal_strlit(".");
    reveal_strlit("-");
    assert("."@ == seq!['.']);
    assert("-"@ == seq!['-']);
    lemma_number_characters(major);
    lemma_number_characters(minor);
    lemma_decimal_digits(kernel.patch as nat);
    lemma_decimal_digits(kernel.micro as nat);
    law_decimal_round_trip(kernel.patch);
    law_decimal_round_trip(kernel.micro);

    // What stands between prefix and suffix.
    let middle = seq!['.'] + patch + seq!['-'] + micro;
    let rest = package.skip(prefix.len() as int);
    assert(package.take(prefix.len() as int) == prefix);
    assert(rest == middle + kernel.suffix);
    assert(rest.skip(rest.len() - kernel.suffix.len()) == kernel.suffix);
    assert(rest.take(rest.len() - kernel.suffix.len()) == middle);
    assert(between(package, prefix, kernel.suffix) == Some(middle));

    // Its two parts.
    let tail = seq!['.'] + patch;
    assert(middle == tail + seq!['-'] + micro);
    assert forall|i: int| 0 <= i < tail.len() implies tail[i] != '-' by {
        if i > 0 {
            assert(tail[i] == patch[i - 1]);
            assert(is_digit(patch[i - 1]));
        }
    }
    assert forall|i: int| 0 <= i < micro.len() implies micro[i] != '-' by {
        assert(is_digit(micro[i]));
    }
    lemma_split_on_first(tail, micro, '-');
    lemma_split_on_single(micro, '-');
    let parts = split_on(middle, '-');
    assert(parts == seq![tail, micro]);

    // The dotted version.
    let series_text = major + seq!['.'] + minor;
    assert(prefix == lead.drop_last() + seq!['-'] + series_text);
    assert forall|i: int| 0 <= i < series_text.len() implies series_text[i] != '-' by {
        if i < major.len() {
            assert(series_text[i] == major[i]);
        } else if i > major.len() {
            assert(series_text[i] == minor[i - major.len() - 1]);
        }
    }
    lemma_split_on_last(lead.drop_last(), series_text, '-');
    lemma_split_on_single(series_text, '-');
    assert(version_head(prefix) == series_text);
    let dotted = version_head(prefix) + parts[0];
    let after_major = minor + seq!['.'] + patch;
    assert(dotted == major + seq!['.'] + after_major);
    assert forall|i: int| 0 <= i < major.len() implies major[i] != '.' by {}
    assert forall|i: int| 0 <= i < minor.len() implies minor[i] != '.' by {}
    assert forall|i: int| 0 <= i < patch.len() implies patch[i] != '.' by {
        assert(is_digit(patch[i]));
    }
    lemma_split_on_first(major, after_major, '.');
    lemma_split_on_first(minor, patch, '.');
    lemma_split_on_single(patch, '.');
    let fields = split_on(dotted, '.');
    assert(fields == seq![major, minor, patch]);
    assert(all_numbers(fields));
}

/// Major and minor of a kernel release such as `5.15.0-1015-aws`; `None`
/// where the release holds no dot.
pub fn kernel_series(release: &str) -> (r: Option<(String, String)>)
    ensures
        match r {
            Some((major, minor)) => series(release@) == Some((major@, minor@)),
            None => series(release@) is None,
        },
{
    let chars = chars_of(release);
    let fields = split(chars.as_slice(), '.');
    if fields.len() < 2 {
        return None;
    }
    let first = fields[0];
    let second = fields[1];
    proof {
        let texts = spans_text(release@, fields@);
        assert(texts[0] == release@.subrange(first.start as int, first.end as int));
        assert(texts[1] == release@.subrange(second.start as int, second.end as int));
    }
    let major = String::from_str(release.substring_char(first.start, first.end));
    let minor = String::from_str(release.substring_char(second.start, second.end));
    Some((major, minor))
}

/// The newest `(patch, micro)` that `listing` offers among the packages
/// whose names begin with `prefix` and hold `suffix`; `(0, 0)` where it
/// offers none.
pub fn newest_kernel_build(listing: &str, prefix: &str, suffix: &str) -> (best: (usize, usize))
    ensures
        best == newest_build(listing@, prefix@, suffix@),
{
    let text = chars_of(listing);
    let prefix = chars_of(prefix);
    let suffix = chars_of(suffix);
    let lines = split(text.as_slice(), '\n');
    let ghost texts = spans_text(text@, lines@);
    let mut best: (usize, usize) = (0, 0);
    let mut k: usize = 0;
    proof {
        assert(texts.take(0) == Seq::<Seq<char>>::empty());
    }
    while k < lines.len()
        invariant
            k <= lines@.len(),
            crate::text::spans_fit(lines@, text@.len()),
            texts == spans_text(text@, lines@),
            best == newest_among(texts.take(k as int), prefix@, suffix@),
        decreases lines@.len() - k,
    {
        let line = slice_of(text.as_slice(), lines[k]);
        let name = slice_of(line, first_word_span(line));
        proof {
            let upto = texts.take(k + 1);
            assert(upto.drop_last() == texts.take(k as int));
            assert(upto.last() == line@);
        }
        match parse_package_chars(name, prefix.as_slice(), suffix.as_slice()) {
            Some(build) => {
                if build.0 > best.0 || (build.0 == best.0 && build.1 > best.1) {
                    best = build;
                }
            },
            None => {},
        }
        k += 1;
    }
    proof {
        assert(texts.take(k as int) == texts);
    }
    best
}

/// The kernel to install on a host that runs `release` and whose package
/// index lists `listing`; `None` where `release` holds no dot.
pub fn resolve_target_kernel(release: &str, listing: &str, suffix: &str) -> (r: Option<
    KernelIdentity<String>,
>)
    ensures
        match r {
            Some(kernel) => resolve_target(release@, listing@, suffix@) == Some(kernel@),
            None => resolve_target(release@, listing@, suffix@) is None,
        },
{
    match kernel_series(release) {
        None => None,
        Some((major, minor)) => {
            let mut prefix = String::from_str("linux-image-");
            prefix.append(major.as_str());
            prefix.append(".");
            prefix.append(minor.as_str());
            let build = newest_kernel_build(listing, prefix.as_str(), suffix);
            Some(
                KernelIdentity {
                    major,
                    minor,
                    patch: build.0,
                    micro: build.1,
                    suffix: String::from_str(suffix),
                },
            )
        },
    }
}

impl KernelIdentity<String> {
    /// `major.minor.patch-micro`.
    pub fn release_core(&self) -> (text: String)
        ensures
            text@ == release_core(self@),
    {
        let mut text = String::from_str(self.major.as_str());
        text.append(".");
        text.append(self.minor.as_str());
        text.append(".");
        push_decimal(&mut text, self.patch);
        text.append("-");
        push_decimal(&mut text, self.micro);
        text
    }

    /// `major.minor.patch-micro` followed by the platform's suffix.
    pub fn version(&self) -> (text: String)
        ensures
            text@ == version_text(self@),
    {
        let mut text = self.release_core();
        text.append(self.suffix.as_str());
        text
    }

    /// The name of the image package.
    pub fn image_package(&self) -> (name: String)
        ensures
            name@ == image_package(self@),
    {
        let mut name = String::from_str("linux-image-");
        name.append(self.version().as_str());
        name
    }

    /// The name of the headers package.
    pub fn headers_package(&self) -> (name: String)
        ensures
            name@ == headers_package(self@),
    {
        let mut name = String::from_str("linux-headers-");
        name.append(self.version().as_str());
        name
    }

    /// Whether a host whose kernel reports `release` runs this kernel.
    pub fn is_running(&self, release: &str) -> (r: bool)
        ensures
            r == runs(release@, self@),
    {
        let release = chars_of(release);
        let wanted = self.release_core();
        let wanted = chars_of(wanted.as_str());
        includes(release.as_slice(), wanted.as_slice())
    }
}

} // verus!
