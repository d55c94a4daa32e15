//! Release tags read as semantic versions.
use vstd::prelude::*;
use crate::text::{
    chars_of, decimal, push_str, slice_subrange, str_eq, string_from_chars, trim, trim_spec,
    u64_to_decimal,
};

verus! {

/// A semantic version read from a release tag: its numbers, its pre-release
/// and build identifiers, and the text it was read from. Two versions are
/// equal when their numbers and identifiers are, whatever text they were
/// read from.
#[derive(Clone, Debug)]
pub struct SemVer {
    pub major: u64,
    pub minor: u64,
    pub patch: u64,
    pub pre: String,
    pub build: String,
    pub source: String,
}

/// What `semver::Version::parse` reads from a text: major, minor, patch,
/// pre-release and build metadata, or nothing when the text is not a version.
pub uninterp spec fn semver_parse(text: Seq<char>) -> Option<(u64, u64, u64, Seq<char>, Seq<char>)>;

/// Whether the version parsed from `a` orders at or before the one parsed
/// from `b` (`<=` on `semver::Version`).
pub uninterp spec fn semver_le(a: Seq<char>, b: Seq<char>) -> bool;

impl SemVer {
    /// The parsed fields of this version.
    pub open spec fn fields(self) -> (u64, u64, u64, Seq<char>, Seq<char>) {
        (self.major, self.minor, self.patch, self.pre@, self.build@)
    }

    /// This value is what parsing its source text gives.
    pub open spec fn wf(self) -> bool {
        semver_parse(self.source@) == Some(self.fields())
    }

    /// The release numbers as a triple, for ordering.
    pub open spec fn numbers(self) -> (u64, u64, u64) {
        (self.major, self.minor, self.patch)
    }
}

impl PartialEq for SemVer {
    fn eq(&self, other: &SemVer) -> (r: bool) {
        self.major == other.major && self.minor == other.minor && self.patch == other.patch
            && str_eq(self.pre.as_str(), other.pre.as_str()) && str_eq(
            self.build.as_str(),
            other.build.as_str(),
        )
    }
}

impl vstd::std_specs::cmp::PartialEqSpecImpl for SemVer {
    open spec fn obeys_eq_spec() -> bool {
        true
    }

    open spec fn eq_spec(&self, other: &SemVer) -> bool {
        self.fields() == other.fields()
    }
}

impl Eq for SemVer {
}

/// Lexicographic order on release number triples.
pub open spec fn numbers_lt(a: (u64, u64, u64), b: (u64, u64, u64)) -> bool {
    ||| a.0 < b.0
    ||| (a.0 == b.0 && a.1 < b.1)
    ||| (a.0 == b.0 && a.1 == b.1 && a.2 < b.2)
}

/// `semver::Version::parse` on `text`; the result keeps `text` as its source.
#[verifier::external_body]
fn parse_version_text(text: &str) -> (r: Option<SemVer>)
    ensures
        match r {
            Some(v) => semver_parse(text@) == Some(v.fields()) && v.source@ == text@,
            None => semver_parse(text@) is None,
        },
{
    match semver::Version::parse(text) {
        Ok(v) => Some(
            SemVer {
                major: v.major,
                minor: v.minor,
                patch: v.patch,
                pre: v.pre.as_str().to_string(),
                build: v.build.as_str().to_string(),
                source: text.to_string(),
            },
        ),
        Err(_) => None,
    }
}

/// `<=` on the `semver::Version` values read from the two sources. Besides
/// naming the result, states the parts of the derived lexicographic order that
/// the crate's source shows plainly: release numbers decide first, a release
/// orders after any pre-release of the same numbers, and equal fields give
/// equal versions.
#[verifier::external_body]
fn version_le(a: &SemVer, b: &SemVer) -> (r: bool)
    requires
        a.wf(),
        b.wf(),
    ensures
        r == semver_le(a.source@, b.source@),
        numbers_lt(a.numbers(), b.numbers()) ==> r,
        numbers_lt(b.numbers(), a.numbers()) ==> !r,
        a.numbers() == b.numbers() && a.pre@.len() == 0 && b.pre@.len() > 0 ==> !r,
        a.numbers() == b.numbers() && a.pre@.len() > 0 && b.pre@.len() == 0 ==> r,
        a.fields() == b.fields() ==> r,
{
    semver::Version::parse(a.source.as_str()).unwrap() <= semver::Version::parse(
        b.source.as_str(),
    ).unwrap()
}

/// What a release tag reads as: the trimmed tag parsed as a version, or, when
/// that fails, the tag without a leading `v` or `V`. The result pairs the
/// parsed fields with the text that parsed.
pub open spec fn semver_tag_spec(raw: Seq<char>) -> Option<
    ((u64, u64, u64, Seq<char>, Seq<char>), Seq<char>),
> {
    let t = trim_spec(raw);
    if t.len() == 0 {
        None
    } else if semver_parse(t) is Some {
        Some((semver_parse(t)->Some_0, t))
    } else if t[0] == 'v' && semver_parse(t.subrange(1, t.len() as int)) is Some {
        Some((semver_parse(t.subrange(1, t.len() as int))->Some_0, t.subrange(1, t.len() as int)))
    } else if t[0] == 'V' && semver_parse(t.subrange(1, t.len() as int)) is Some {
        Some((semver_parse(t.subrange(1, t.len() as int))->Some_0, t.subrange(1, t.len() as int)))
    } else {
        None
    }
}

/// A release tag reads as the version that `semver::Version::parse` gives
/// for the trimmed tag, or, only when that fails, for the trimmed tag
/// without one leading `v` or `V`; a tag that reads neither way gives
/// nothing.
pub proof fn lemma_tag_reads_as_parsed_version(raw: Seq<char>)
    ensures
        semver_tag_spec(raw) matches Some((f, src)) ==> semver_parse(src) == Some(f) && (src
            == trim_spec(raw) || (semver_parse(trim_spec(raw)) is None && trim_spec(raw).len() > 0
            && (trim_spec(raw)[0] == 'v' || trim_spec(raw)[0] == 'V') && src == trim_spec(
            raw,
        ).subrange(1, trim_spec(raw).len() as int))),
        semver_parse(trim_spec(raw)) is Some && trim_spec(raw).len() > 0 ==> semver_tag_spec(raw)
            == Some((semver_parse(trim_spec(raw))->Some_0, trim_spec(raw))),
{
}

/// Reads a release tag such as `1.2.3`, `v1.2.3` or `V1.2.3` as a version.
pub fn parse_semver_tag(raw: &str) -> (r: Option<SemVer>)
    ensures
        match r {
            Some(v) => v.wf() && semver_tag_spec(raw@) == Some((v.fields(), v.source@)),
            None => semver_tag_spec(raw@) is None,
        },
{
    let trimmed = trim(raw);
    let cs = chars_of(trimmed.as_str());
    if cs.len() == 0 {
        return None;
    }
    if let Some(v) = parse_version_text(trimmed.as_str()) {
        return Some(v);
    }
    if cs[0] == 'v' || cs[0] == 'V' {
        let rest = string_from_chars(slice_subrange(cs.as_slice(), 1, cs.len()));
        return parse_version_text(rest.as_str());
    }
    None
}

/// How `semver::Version` displays: `major.minor.patch`, then `-pre` and
/// `+build` when those are present.
pub open spec fn semver_display(f: (u64, u64, u64, Seq<char>, Seq<char>)) -> Seq<char> {
    let core = decimal(f.0 as nat) + "."@ + decimal(f.1 as nat) + "."@ + decimal(f.2 as nat);
    let with_pre = if f.3.len() > 0 {
        core + "-"@ + f.3
    } else {
        core
    };
    if f.4.len() > 0 {
        with_pre + "+"@ + f.4
    } else {
        with_pre
    }
}

impl SemVer {
    /// The version in its display form.
    pub fn display(&self) -> (r: String)
        ensures
            r@ == semver_display(self.fields()),
    {
        let mut s = u64_to_decimal(self.major);
        push_str(&mut s, ".");
        push_str(&mut s, u64_to_decimal(self.minor).as_str());
        push_str(&mut s, ".");
        push_str(&mut s, u64_to_decimal(self.patch).as_str());
        let pre = chars_of(self.pre.as_str());
        if pre.len() > 0 {
            push_str(&mut s, "-");
            push_str(&mut s, self.pre.as_str());
        }
        let build = chars_of(self.build.as_str());
        if build.len() > 0 {
            push_str(&mut s, "+");
            push_str(&mut s, self.build.as_str());
        }
        s
    }

    /// Whether this version orders at or before `other`.
    pub fn precedes_or_equals(&self, other: &SemVer) -> (r: bool)
        requires
            self.wf(),
            other.wf(),
        ensures
            r == semver_le(self.source@, other.source@),
            numbers_lt(self.numbers(), other.numbers()) ==> r,
            numbers_lt(other.numbers(), self.numbers()) ==> !r,
            self.fields() == other.fields() ==> r,
    {
        version_le(self, other)
    }
}

} // verus!
