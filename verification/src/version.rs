//! Semantic versions, as tag names carry them, and their precedence.
//!
//! Reading a version out of text and ordering two pre-release strings is the
//! work of the `semver` crate. This module holds a version as plain values and
//! states its precedence over them.
use crate::text::{chars_of, find_from, first_index_of};
use vstd::prelude::*;

verus! {

/// How one version stands to another.
#[derive(Clone, Copy, Debug, PartialEq, Eq, Structural)]
pub enum Precedence {
    Lower,
    Equal,
    Higher,
}

impl Precedence {
    /// The same relation read from the other side.
    pub open spec fn reversed(self) -> Precedence {
        match self {
            Precedence::Lower => Precedence::Higher,
            Precedence::Equal => Precedence::Equal,
            Precedence::Higher => Precedence::Lower,
        }
    }
}

/// A semantic version as mathematics sees it.
pub struct VersionView {
    pub major: nat,
    pub minor: nat,
    pub patch: nat,
    /// The dot-separated pre-release identifiers; empty for a release.
    pub pre: Seq<char>,
    /// The dot-separated build identifiers; empty if there are none.
    pub build: Seq<char>,
}

/// The version that `semver::Version::parse` reads out of `text`, or `None`
/// where it rejects `text`.
pub uninterp spec fn semver_parse(text: Seq<char>) -> Option<VersionView>;

/// Whether `c` is one of the ten digits.
pub open spec fn is_digit(c: char) -> bool {
    '0' <= c && c <= '9'
}

/// Whether `c` may stand in an identifier: an ASCII letter, a digit, or a
/// hyphen.
pub open spec fn is_identifier_char(c: char) -> bool {
    is_digit(c) || ('A' <= c && c <= 'Z') || ('a' <= c && c <= 'z') || c == '-'
}

/// Whether `s` is one pre-release identifier: not empty, made of identifier
/// characters, and without a leading zero if it is all digits.
pub open spec fn is_prerelease_identifier(s: Seq<char>) -> bool {
    &&& s.len() > 0
    &&& forall|i: int| 0 <= i < s.len() ==> is_identifier_char(#[trigger] s[i])
    &&& s.len() > 1 && s[0] == '0' ==> exists|i: int| 0 <= i < s.len() && !is_digit(#[trigger] s[i])
}

/// Whether `text` is a row of pre-release identifiers with a dot between
/// each two.
pub open spec fn is_identifier_row(text: Seq<char>) -> bool
    decreases text.len(),
{
    let k = first_index_of(text, '.');
    if k < 0 || k >= text.len() {
        is_prerelease_identifier(text)
    } else {
        is_prerelease_identifier(text.take(k)) && is_identifier_row(text.skip(k + 1))
    }
}

/// Whether `text` is the pre-release part of a version: empty, for a
/// release, or a row of pre-release identifiers. These are the texts that
/// `semver::Prerelease::new` accepts.
pub open spec fn is_prerelease(text: Seq<char>) -> bool {
    text.len() == 0 || is_identifier_row(text)
}

/// What `Ord::cmp` of `semver::Prerelease` returns for the pre-releases
/// written `a` and `b`.
pub uninterp spec fn prerelease_order(a: Seq<char>, b: Seq<char>) -> Precedence;

impl VersionView {
    /// The pre-release part is empty or a row of pre-release identifiers.
    pub open spec fn wf(self) -> bool {
        is_prerelease(self.pre)
    }

    /// Precedence of `self` against `other`: major, minor and patch compared
    /// as numbers, in that order, then the pre-release parts. Build metadata
    /// plays no part.
    pub open spec fn precedence(self, other: VersionView) -> Precedence {
        if self.major != other.major {
            if self.major < other.major {
                Precedence::Lower
            } else {
                Precedence::Higher
            }
        } else if self.minor != other.minor {
            if self.minor < other.minor {
                Precedence::Lower
            } else {
                Precedence::Higher
            }
        } else if self.patch != other.patch {
            if self.patch < other.patch {
                Precedence::Lower
            } else {
                Precedence::Higher
            }
        } else {
            prerelease_order(self.pre, other.pre)
        }
    }

    /// Everything well-formed that does not exceed `other` lies below `self`.
    pub open spec fn dominates_all_up_to(self, other: VersionView) -> bool {
        forall|x: VersionView| #![trigger x.precedence(other)]
            x.wf() && x.precedence(other) != Precedence::Higher ==> x.precedence(self)
                == Precedence::Lower
    }
}

/// A semantic version held as plain values.
#[derive(Clone, Debug, PartialEq, Eq)]
pub struct TagVersion {
    pub major: u64,
    pub minor: u64,
    pub patch: u64,
    /// The dot-separated pre-release identifiers; empty for a release.
    pub pre: String,
    /// The dot-separated build identifiers; empty if there are none.
    pub build: String,
}

impl View for TagVersion {
    type V = VersionView;

    open spec fn view(&self) -> VersionView {
        VersionView {
            major: self.major as nat,
            minor: self.minor as nat,
            patch: self.patch as nat,
            pre: self.pre@,
            build: self.build@,
        }
    }
}

/// Reads a version with `semver::Version::parse` and hands its five parts
/// over as plain values. The contract claims that the outcome is a function
/// of `text` alone, and that the pre-release part of a version so read is
/// empty or a row of pre-release identifiers.
#[verifier::external_body]
fn parse_with_semver(text: &str) -> (r: Option<TagVersion>)
    ensures
        semver_parse(text@) == match r {
            Some(v) => Some(v@),
            None => None,
        },
        r matches Some(v) ==> is_prerelease(v.pre@),
{
    match semver::Version::parse(text) {
        Ok(v) => Some(
            TagVersion {
                major: v.major,
                minor: v.minor,
                patch: v.patch,
                pre: v.pre.as_str().to_string(),
                build: v.build.as_str().to_string(),
            },
        ),
        Err(_) => None,
    }
}

/// Orders two pre-release strings by `Ord::cmp` of `semver::Prerelease`. The
/// two values are made by `semver::Prerelease::new`, which accepts what
/// `is_prerelease` describes. The contract claims that the outcome is a
/// function of the two strings, and that the order is total: asked the other
/// way round it answers the reverse, and when `a` exceeds `b`, every
/// pre-release that does not exceed `b` lies below `a`.
#[verifier::external_body]
fn order_prereleases(a: &str, b: &str) -> (r: Precedence)
    requires
        is_prerelease(a@),
        is_prerelease(b@),
    ensures
        r == prerelease_order(a@, b@),
        r.reversed() == prerelease_order(b@, a@),
        r == Precedence::Higher ==> forall|x: Seq<char>| #![trigger prerelease_order(x, b@)]
            is_prerelease(x) && prerelease_order(x, b@) != Precedence::Higher
                ==> prerelease_order(x, a@) == Precedence::Lower,
{
    let left = semver::Prerelease::new(a).unwrap();
    let right = semver::Prerelease::new(b).unwrap();
    match left.cmp(&right) {
        std::cmp::Ordering::Less => Precedence::Lower,
        std::cmp::Ordering::Equal => Precedence::Equal,
        std::cmp::Ordering::Greater => Precedence::Higher,
    }
}

/// Whether the characters from `start` to `end` are one pre-release
/// identifier.
fn is_identifier(text: &Vec<char>, start: usize, end: usize) -> (b: bool)
    requires
        start <= end <= text.len(),
    ensures
        b == is_prerelease_identifier(text@.subrange(start as int, end as int)),
{
    let ghost part = text@.subrange(start as int, end as int);
    if start == end {
        return false;
    }
    let mut all_digits = true;
    let mut i: usize = start;
    while i < end
        invariant
            start <= i <= end <= text.len(),
            part == text@.subrange(start as int, end as int),
            forall|j: int| 0 <= j < i - start ==> is_identifier_char(#[trigger] part[j]),
            all_digits <==> forall|j: int| 0 <= j < i - start ==> is_digit(#[trigger] part[j]),
        decreases end - i,
    {
        let c = text[i];
        let digit = '0' <= c && c <= '9';
        let letter = ('A' <= c && c <= 'Z') || ('a' <= c && c <= 'z');
        assert(part[i - start] == c);
        if !(digit || letter || c == '-') {
            return false;
        }
        if !digit {
            all_digits = false;
        }
        i += 1;
    }
    !(end - start > 1 && text[start] == '0' && all_digits)
}

/// Whether `text` is the pre-release part of a version.
pub fn is_prerelease_text(text: &str) -> (b: bool)
    ensures
        b == is_prerelease(text@),
{
    let chars = chars_of(text);
    if chars.len() == 0 {
        return true;
    }
    let mut start: usize = 0;
    assert(text@.skip(0) =~= text@);
    loop
        invariant
            chars@ == text@,
            text@.len() > 0,
            start <= chars.len(),
            is_identifier_row(text@) == is_identifier_row(text@.skip(start as int)),
        decreases chars.len() - start,
    {
        let ghost rest = text@.skip(start as int);
        let end = find_from(&chars, start, '.');
        let valid = is_identifier(&chars, start, end);
        proof {
            let k = first_index_of(rest, '.');
            assert(rest.take(k) =~= text@.subrange(start as int, end as int));
            if end < chars.len() {
                assert(rest.skip(k + 1) =~= text@.skip(end + 1));
            }
        }
        if !valid || end == chars.len() {
            return valid;
        }
        start = end + 1;
    }
}

impl TagVersion {
    /// The pre-release part is empty or a row of pre-release identifiers.
    pub open spec fn wf(&self) -> bool {
        self@.wf()
    }

    /// Whether the version is well-formed.
    pub fn is_well_formed(&self) -> (b: bool)
        ensures
            b == self.wf(),
    {
        is_prerelease_text(self.pre.as_str())
    }

    /// Reads `text` as a semantic version: `major.minor.patch`, then an
    /// optional pre-release after `-` and optional build metadata after `+`.
    pub fn parse(text: &str) -> (r: Option<TagVersion>)
        ensures
            semver_parse(text@) == match r {
                Some(v) => Some(v@),
                None => None,
            },
            r matches Some(v) ==> v.wf(),
    {
        parse_with_semver(text)
    }

    /// Precedence of `self` against `other`, or `None` where one of the two
    /// is not well-formed.
    pub fn checked_precedence(&self, other: &TagVersion) -> (r: Option<Precedence>)
        ensures
            r is Some <==> self.wf() && other.wf(),
            r matches Some(p) ==> p == self@.precedence(other@),
    {
        if self.is_well_formed() && other.is_well_formed() {
            Some(self.precedence(other))
        } else {
            None
        }
    }

    /// Precedence of `self` against `other`.
    pub fn precedence(&self, other: &TagVersion) -> (r: Precedence)
        requires
            self.wf(),
            other.wf(),
        ensures
            r == self@.precedence(other@),
            r.reversed() == other@.precedence(self@),
            r == Precedence::Higher ==> self@.dominates_all_up_to(other@),
    {
        if self.major != other.major {
            if self.major < other.major {
                Precedence::Lower
            } else {
                Precedence::Higher
            }
        } else if self.minor != other.minor {
            if self.minor < other.minor {
                Precedence::Lower
            } else {
                Precedence::Higher
            }
        } else if self.patch != other.patch {
            if self.patch < other.patch {
                Precedence::Lower
            } else {
                Precedence::Higher
            }
        } else {
            order_prereleases(self.pre.as_str(), other.pre.as_str())
        }
    }
}

} // verus!
