//! Choosing the latest semantic-version tag among tag names.
//!
//! A tag name counts if, after one optional leading `v`, it reads as a
//! semantic version. Names that do not are passed over; they never fail the
//! choice. Among those that count, the one of highest precedence is chosen.
//! Where several share the highest precedence, the one that was met first
//! is chosen: that is the tie-break, and it depends on nothing but the order
//! of the names.
use crate::error::ResolveError;
use crate::version::{semver_parse, Precedence, TagVersion, VersionView};
use vstd::prelude::*;

verus! {

/// `name` without one leading `v`.
pub open spec fn strip_v(name: Seq<char>) -> Seq<char> {
    if name.len() > 0 && name[0] == 'v' {
        name.skip(1)
    } else {
        name
    }
}

/// The version that a tag of this name stands for, if any.
pub open spec fn tag_version(name: Seq<char>) -> Option<VersionView> {
    semver_parse(strip_v(name))
}

/// The version of the `i`-th name. A missing name stands for no version.
pub open spec fn candidate(names: Seq<Option<String>>, i: int) -> Option<VersionView> {
    match names[i] {
        Some(name) => tag_version(name@),
        None => None,
    }
}

/// Position `k` holds the latest version: it holds one, no other position
/// holds a higher one, and every earlier position that holds one holds a
/// lower one.
pub open spec fn is_latest(names: Seq<Option<String>>, k: int) -> bool {
    &&& 0 <= k < names.len()
    &&& candidate(names, k) is Some
    &&& forall|j: int|
        0 <= j < names.len() && j != k && (#[trigger] candidate(names, j)) is Some ==> candidate(
            names,
            j,
        )->0.precedence(candidate(names, k)->0) != Precedence::Higher
    &&& forall|j: int|
        0 <= j < k && (#[trigger] candidate(names, j)) is Some ==> candidate(
            names,
            j,
        )->0.precedence(candidate(names, k)->0) == Precedence::Lower
}

/// No name stands for a version.
pub open spec fn none_counts(names: Seq<Option<String>>) -> bool {
    forall|j: int| 0 <= j < names.len() ==> candidate(names, j) is None
}

/// The chosen tag: where its name stood, the name, and the version it stands
/// for.
#[derive(Clone, Debug, PartialEq, Eq)]
pub struct TagPick {
    pub index: usize,
    pub name: String,
    pub version: TagVersion,
}

impl TagPick {
    /// The name stands for the version.
    pub open spec fn names_its_version(self) -> bool {
        tag_version(self.name@) == Some(self.version@) && self.version.wf()
    }

    /// The pick is the latest of `names`: its position holds the latest
    /// version, and name and version are those of that position.
    pub open spec fn is_pick_of(self, names: Seq<Option<String>>) -> bool {
        &&& is_latest(names, self.index as int)
        &&& names[self.index as int] == Some(self.name)
        &&& self.names_its_version()
    }
}

/// What the repository answered while the tags were listed.
#[derive(Clone, Debug, PartialEq, Eq)]
pub enum TagListing {
    /// The listing could not be started.
    Unavailable { cause: String },
    /// The short names of the tags in the order in which they came, `None`
    /// for a tag without one, and why the listing broke off if it did.
    Listed { names: Vec<Option<String>>, broke_off: Option<String> },
}

impl TagListing {
    /// Why no tag can be chosen from this listing, if none can: the listing
    /// failed, or it holds no name that stands for a version.
    pub open spec fn failure(self) -> Option<ResolveError> {
        match self {
            TagListing::Unavailable { cause } => Some(ResolveError::TagsUnavailable { cause }),
            TagListing::Listed { broke_off: Some(cause), .. } => Some(
                ResolveError::TagUnreadable { cause },
            ),
            TagListing::Listed { names, broke_off: None } => if none_counts(names@) {
                Some(ResolveError::NoMatchingTags)
            } else {
                None
            },
        }
    }

    /// `pick` is what this listing gives: the listing came to its end, and
    /// `pick` is the latest of its names.
    pub open spec fn gives(self, pick: TagPick) -> bool {
        &&& self matches TagListing::Listed { names, broke_off: None }
        &&& pick.is_pick_of(names@)
    }
}

/// A name stands for the same version with a `v` before it as without:
/// `1.2.3` and `v1.2.3` are one version. This holds of every name that does
/// not itself begin with `v`.
pub proof fn lemma_leading_v_is_ignored(name: Seq<char>)
    requires
        name.len() == 0 || name[0] != 'v',
    ensures
        tag_version(seq!['v'] + name) == tag_version(name),
{
    assert((seq!['v'] + name).skip(1) =~= name);
}

/// Only one `v` is taken off, and only at the front.
pub proof fn lemma_strip_v_takes_one(name: Seq<char>)
    ensures
        strip_v(seq!['v'] + name) == name,
        strip_v(name).len() + 1 >= name.len(),
{
}

/// Names that stand for no version have no say: with one more such name put
/// in anywhere, the latest version is where it was, counted among the names
/// that were there before.
pub proof fn lemma_other_names_have_no_say(
    names: Seq<Option<String>>,
    at: int,
    extra: Option<String>,
    k: int,
)
    requires
        0 <= at <= names.len(),
        is_latest(names, k),
        candidate(seq![extra], 0) is None,
    ensures
        is_latest(
            names.insert(at, extra),
            if at <= k {
                k + 1
            } else {
                k
            },
        ),
{
    let more = names.insert(at, extra);
    assert forall|j: int| 0 <= j < more.len() implies #[trigger] candidate(more, j) == if j < at {
        candidate(names, j)
    } else if j == at {
        None
    } else {
        candidate(names, j - 1)
    } by {
        assert(seq![extra][0] == extra);
    }
    let moved = if at <= k {
        k + 1
    } else {
        k
    };
    assert forall|j: int|
        0 <= j < more.len() && j != moved && (#[trigger] candidate(more, j)) is Some implies candidate(
        more,
        j,
    )->0.precedence(candidate(more, moved)->0) != Precedence::Higher by {
        if j < at {
            assert(candidate(names, j) is Some);
        } else {
            assert(candidate(names, j - 1) is Some);
        }
    }
    assert forall|j: int| 0 <= j < moved && (#[trigger] candidate(more, j)) is Some implies candidate(
        more,
        j,
    )->0.precedence(candidate(more, moved)->0) == Precedence::Lower by {
        if j < at {
            assert(candidate(names, j) is Some);
        } else {
            assert(candidate(names, j - 1) is Some);
        }
    }
}

/// A listing that came to its end without any tag gives `NoMatchingTags`.
pub proof fn lemma_no_tags_no_match(listing: TagListing)
    requires
        listing matches TagListing::Listed { names, broke_off: None } && names.len() == 0,
    ensures
        listing.failure() == Some(ResolveError::NoMatchingTags),
{
}

/// At most one position holds the latest version, as long as the order
/// answers the two versions in question consistently: asked the other way
/// round, it gives the reverse.
pub proof fn lemma_latest_is_unique(names: Seq<Option<String>>, k1: int, k2: int)
    requires
        is_latest(names, k1),
        is_latest(names, k2),
        candidate(names, k1)->0.precedence(candidate(names, k2)->0).reversed() == candidate(
            names,
            k2,
        )->0.precedence(candidate(names, k1)->0),
    ensures
        k1 == k2,
{
}

/// `name` without one leading `v`.
pub fn without_leading_v(name: &str) -> (r: &str)
    ensures
        r@ == strip_v(name@),
{
    let n = name.unicode_len();
    if n > 0 && name.get_char(0) == 'v' {
        name.substring_char(1, n)
    } else {
        name
    }
}

/// The version that a tag of this name stands for, if any.
pub fn version_of_tag(name: &str) -> (r: Option<TagVersion>)
    ensures
        tag_version(name@) == match r {
            Some(v) => Some(v@),
            None => None,
        },
        r matches Some(v) ==> v.wf(),
{
    TagVersion::parse(without_leading_v(name))
}

/// The latest semantic-version tag among `names`, given in the order in which
/// the tags were met. `None` stands for a tag without a short name.
///
/// Returns `None` exactly when no name stands for a version.
pub fn latest_semver_tag(names: &Vec<Option<String>>) -> (r: Option<TagPick>)
    ensures
        r is None <==> none_counts(names@),
        r matches Some(pick) ==> pick.is_pick_of(names@),
{
    let mut best: Option<TagPick> = None;
    let mut i: usize = 0;
    while i < names.len()
        invariant
            i <= names.len(),
            best is None ==> forall|j: int| 0 <= j < i ==> candidate(names@, j) is None,
            best matches Some(pick) ==> {
                &&& pick.index < i
                &&& pick.version.wf()
                &&& names@[pick.index as int] == Some(pick.name)
                &&& tag_version(pick.name@) == Some(pick.version@)
                &&& forall|j: int|
                    0 <= j < i && j != pick.index && (#[trigger] candidate(names@, j)) is Some
                        ==> candidate(names@, j)->0.precedence(pick.version@)
                        != Precedence::Higher
                &&& forall|j: int|
                    0 <= j < pick.index && (#[trigger] candidate(names@, j)) is Some ==> candidate(
                        names@,
                        j,
                    )->0.precedence(pick.version@) == Precedence::Lower
            },
            forall|j: int|
                0 <= j < i && (#[trigger] candidate(names@, j)) is Some ==> candidate(
                    names@,
                    j,
                )->0.wf(),
        decreases names.len() - i,
    {
        match &names[i] {
            None => {},
            Some(name) => match version_of_tag(name.as_str()) {
                None => {},
                Some(version) => {
                    let replace = match &best {
                        None => true,
                        Some(pick) => version.precedence(&pick.version) == Precedence::Higher,
                    };
                    if replace {
                        best = Some(TagPick { index: i, name: name.clone(), version });
                    }
                },
            },
        }
        i += 1;
    }
    proof {
        if best is Some {
            assert(candidate(names@, best->0.index as int) == Some(best->0.version@));
        }
    }
    best
}

/// The tag that a listing gives, or why it gives none: a listing that failed
/// gives its failure, and one without a name that stands for a version gives
/// `NoMatchingTags`. Without such a tag there is nothing to compare against.
pub fn pick_from_listing(listing: TagListing) -> (r: Result<TagPick, ResolveError>)
    ensures
        match r {
            Ok(pick) => listing.failure() is None && listing.gives(pick),
            Err(e) => listing.failure() == Some(e),
        },
{
    match listing {
        TagListing::Unavailable { cause } => Err(ResolveError::TagsUnavailable { cause }),
        TagListing::Listed { names, broke_off } => match broke_off {
            Some(cause) => Err(ResolveError::TagUnreadable { cause }),
            None => match latest_semver_tag(&names) {
                Some(pick) => Ok(pick),
                None => Err(ResolveError::NoMatchingTags),
            },
        },
    }
}

} // verus!
