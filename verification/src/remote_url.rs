//! The organization and the repository that a GitHub remote URL names.
//!
//! Organization and repository are notions of GitHub, not of git, so they
//! are read out of the URL. The URL is cut at every `/` and `:`, which covers
//! `git@github.com:org/repo.git`, `https://github.com/org/repo.git` and
//! `ssh://git@github.com/org/repo.git` alike; the two parts after the part
//! with the host are the answer.
use crate::text::{chars_of, starts_with};
use vstd::prelude::*;

verus! {

/// What a clone URL ends with.
pub const GIT_SUFFIX: &'static str = ".git";

/// The host that a URL must name.
pub const GITHUB_HOST: &'static str = "github.com";

/// Why a URL gives no organization and repository.
#[derive(Clone, Copy, Debug, PartialEq, Eq, Structural)]
pub enum UrlProblem {
    /// No part of the URL holds the host.
    NotGithub,
    /// Fewer than two parts follow the part with the host.
    Incomplete,
}

/// Why a repository gives no organization and repository.
#[derive(Clone, Debug, PartialEq, Eq)]
pub enum RemoteUrlError {
    /// There is no remote named `origin`.
    NoOrigin { cause: String },
    /// The remote's URL cannot be read.
    NoUrl,
    /// The URL does not look like one of GitHub.
    NotGithub { url: String },
    /// The URL names the host but not both organization and repository.
    Incomplete { url: String },
}

/// Whether `s` ends with `suffix`.
pub open spec fn ends_with(s: Seq<char>, suffix: Seq<char>) -> bool {
    suffix.len() <= s.len() && s.skip(s.len() - suffix.len()) == suffix
}

/// `s` without `suffix` at its end, as often as it stands there.
pub open spec fn without_trailing(s: Seq<char>, suffix: Seq<char>) -> Seq<char>
    decreases s.len(),
{
    if suffix.len() > 0 && ends_with(s, suffix) {
        without_trailing(s.take(s.len() - suffix.len()), suffix)
    } else {
        s
    }
}

/// Whether a URL is cut at `c`.
pub open spec fn is_separator(c: char) -> bool {
    c == '/' || c == ':'
}

/// The position of the first separator in `s`, or `s.len()` if there is none.
pub open spec fn first_separator(s: Seq<char>) -> int
    decreases s.len(),
{
    if s.len() == 0 || is_separator(s[0]) {
        0
    } else {
        1 + first_separator(s.skip(1))
    }
}

/// The parts that the separators cut `s` into. There is always at least one
/// part, and a part may be empty.
pub open spec fn parts_of(s: Seq<char>) -> Seq<Seq<char>>
    decreases s.len(),
{
    let k = first_separator(s);
    if k < 0 || k >= s.len() {
        seq![s]
    } else {
        seq![s.take(k)] + parts_of(s.skip(k + 1))
    }
}

/// Whether `needle` stands somewhere in `hay`.
pub open spec fn contains_text(hay: Seq<char>, needle: Seq<char>) -> bool {
    exists|i: int| 0 <= i <= hay.len() && #[trigger] starts_with(hay.skip(i), needle)
}

/// The first position among the first `count` parts that holds the host, or
/// `count` if none of them does.
pub open spec fn host_position(parts: Seq<Seq<char>>, count: int) -> int
    decreases count,
{
    if count <= 0 {
        0
    } else {
        let before = host_position(parts, count - 1);
        if before < count - 1 {
            before
        } else if contains_text(parts[count - 1], GITHUB_HOST@) {
            count - 1
        } else {
            count
        }
    }
}

/// Organization and repository as `url` names them: the two parts that
/// follow the first part holding the host, in the URL without its `.git`
/// endings.
pub open spec fn org_and_repo(url: Seq<char>) -> Result<(Seq<char>, Seq<char>), UrlProblem> {
    let parts = parts_of(without_trailing(url, GIT_SUFFIX@));
    let host = host_position(parts, parts.len() as int);
    if host >= parts.len() {
        Err(UrlProblem::NotGithub)
    } else if host + 2 >= parts.len() {
        Err(UrlProblem::Incomplete)
    } else {
        Ok((parts[host + 1], parts[host + 2]))
    }
}

/// `first_separator` is in range, nothing before it is a separator, and a
/// separator stands there unless the text holds none.
pub proof fn lemma_first_separator(s: Seq<char>)
    ensures
        0 <= first_separator(s) <= s.len(),
        forall|j: int| 0 <= j < first_separator(s) ==> !is_separator(s[j]),
        first_separator(s) < s.len() ==> is_separator(s[first_separator(s)]),
    decreases s.len(),
{
    if s.len() > 0 && !is_separator(s[0]) {
        let rest = s.skip(1);
        lemma_first_separator(rest);
        assert forall|j: int| 0 <= j < first_separator(s) implies !is_separator(s[j]) by {
            if j > 0 {
                assert(rest[j - 1] == s[j]);
            }
        }
    }
}

/// A position with the three properties of `lemma_first_separator` is
/// `first_separator`.
pub proof fn lemma_first_separator_unique(s: Seq<char>, k: int)
    requires
        0 <= k <= s.len(),
        forall|j: int| 0 <= j < k ==> !is_separator(s[j]),
        k < s.len() ==> is_separator(s[k]),
    ensures
        first_separator(s) == k,
{
    lemma_first_separator(s);
}

/// Whether `text` holds `needle` at position `at`, within its first `end`
/// characters.
fn holds_at(text: &Vec<char>, end: usize, at: usize, needle: &Vec<char>) -> (b: bool)
    requires
        at <= end <= text.len(),
    ensures
        b == starts_with(text@.subrange(at as int, end as int), needle@),
{
    let ghost window = text@.subrange(at as int, end as int);
    if needle.len() > end - at {
        return false;
    }
    let mut i: usize = 0;
    while i < needle.len()
        invariant
            at <= end <= text.len(),
            needle.len() <= end - at,
            window == text@.subrange(at as int, end as int),
            i <= needle.len(),
            forall|j: int| 0 <= j < i ==> text@[at + j] == needle@[j],
        decreases needle.len() - i,
    {
        if text[at + i] != needle[i] {
            return false;
        }
        i += 1;
    }
    proof {
        assert(window.take(needle.len() as int) =~= needle@);
    }
    true
}

/// The length of `text` without `suffix` at its end, as often as it stands
/// there.
fn trimmed_len(text: &Vec<char>, suffix: &Vec<char>) -> (end: usize)
    ensures
        end <= text.len(),
        text@.take(end as int) == without_trailing(text@, suffix@),
{
    let mut end: usize = text.len();
    assert(text@.take(end as int) =~= text@);
    if suffix.len() == 0 {
        return end;
    }
    while end >= suffix.len() && holds_at(text, end, end - suffix.len(), suffix)
        invariant
            end <= text.len(),
            suffix.len() > 0,
            without_trailing(text@.take(end as int), suffix@) == without_trailing(text@, suffix@),
        decreases end,
    {
        proof {
            let s = text@.take(end as int);
            let cut = end - suffix.len();
            assert(s.skip(cut) =~= text@.subrange(cut as int, end as int));
            assert(text@.subrange(cut as int, end as int).take(suffix.len() as int)
                =~= text@.subrange(cut as int, end as int));
            assert(s.take(cut) =~= text@.take(cut));
        }
        end -= suffix.len();
    }
    proof {
        let s = text@.take(end as int);
        if end >= suffix.len() {
            let cut = end - suffix.len();
            assert(s.skip(cut) =~= text@.subrange(cut as int, end as int));
            assert(text@.subrange(cut as int, end as int).take(suffix.len() as int)
                =~= text@.subrange(cut as int, end as int));
        }
    }
    end
}

/// Whether `needle` stands somewhere in `text` between `from` and `to`.
fn holds_between(text: &Vec<char>, from: usize, to: usize, needle: &Vec<char>) -> (b: bool)
    requires
        from <= to <= text.len(),
    ensures
        b == contains_text(text@.subrange(from as int, to as int), needle@),
{
    let ghost part = text@.subrange(from as int, to as int);
    let mut at: usize = from;
    loop
        invariant
            from <= at <= to <= text.len(),
            part == text@.subrange(from as int, to as int),
            forall|i: int| 0 <= i < at - from ==> !starts_with(#[trigger] part.skip(i), needle@),
        decreases to - at,
    {
        let here = holds_at(text, to, at, needle);
        proof {
            assert(part.skip(at - from) =~= text@.subrange(at as int, to as int));
        }
        if here {
            return true;
        }
        if at == to {
            return false;
        }
        at += 1;
    }
}

/// The pieces of `text` that lie between the bounds, one piece to each pair.
pub open spec fn pieces(text: Seq<char>, bounds: Seq<(usize, usize)>) -> Seq<Seq<char>> {
    Seq::new(bounds.len(), |i: int| text.subrange(bounds[i].0 as int, bounds[i].1 as int))
}

/// Organization and repository as `url` names them.
pub fn org_and_repo_from_url(url: &str) -> (r: Result<(String, String), UrlProblem>)
    ensures
        match r {
            Ok((org, repo)) => org_and_repo(url@) == Ok::<_, UrlProblem>((org@, repo@)),
            Err(problem) => org_and_repo(url@) == Err::<(Seq<char>, Seq<char>), _>(problem),
        },
{
    let text = chars_of(url);
    let suffix = chars_of(GIT_SUFFIX);
    let host = chars_of(GITHUB_HOST);
    let end = trimmed_len(&text, &suffix);
    let ghost trimmed = text@.take(end as int);
    let ghost parts = parts_of(trimmed);
    // The bounds of the parts, one after the other.
    let mut bounds: Vec<(usize, usize)> = Vec::new();
    let mut start: usize = 0;
    let mut done = false;
    assert(trimmed.skip(0) =~= trimmed);
    while !done
        invariant
            end <= text.len(),
            trimmed == text@.take(end as int),
            parts == parts_of(trimmed),
            start <= end,
            !done ==> parts == pieces(text@, bounds@) + parts_of(trimmed.skip(start as int)),
            done ==> parts == pieces(text@, bounds@),
            forall|i: int| 0 <= i < bounds.len() ==> (#[trigger] bounds[i]).0 <= bounds[i].1 <= end,
        decreases end - start + (if done {
            0int
        } else {
            1int
        }),
    {
        let ghost rest = trimmed.skip(start as int);
        let ghost before = pieces(text@, bounds@);
        let mut k: usize = start;
        while k < end && text[k] != '/' && text[k] != ':'
            invariant
                start <= k <= end <= text.len(),
                forall|j: int| start <= j < k ==> !is_separator(text@[j]),
            decreases end - k,
        {
            k += 1;
        }
        proof {
            lemma_first_separator_unique(rest, k - start);
            assert(rest.take(k - start) =~= text@.subrange(start as int, k as int));
        }
        bounds.push((start, k));
        proof {
            assert(pieces(text@, bounds@) =~= before.push(text@.subrange(start as int, k as int)));
            if k < end {
                assert(rest.skip(k - start + 1) =~= trimmed.skip(k + 1));
            } else {
                assert(rest.take(k - start) =~= rest);
            }
        }
        if k < end {
            start = k + 1;
        } else {
            done = true;
        }
    }
    // The first part that holds the host.
    let mut at: usize = 0;
    while at < bounds.len() && !holds_between(&text, bounds[at].0, bounds[at].1, &host)
        invariant
            at <= bounds.len(),
            end <= text.len(),
            parts == pieces(text@, bounds@),
            forall|i: int| 0 <= i < bounds.len() ==> (#[trigger] bounds[i]).0 <= bounds[i].1 <= end,
            host@ == GITHUB_HOST@,
            host_position(parts, at as int) == at,
        decreases bounds.len() - at,
    {
        at += 1;
    }
    proof {
        if at < bounds.len() {
            lemma_host_position_stays(parts, at as int, parts.len() as int);
        }
    }
    if at >= bounds.len() {
        return Err(UrlProblem::NotGithub);
    }
    if bounds.len() - at <= 2 {
        return Err(UrlProblem::Incomplete);
    }
    let org = url.substring_char(bounds[at + 1].0, bounds[at + 1].1).to_owned();
    let repo = url.substring_char(bounds[at + 2].0, bounds[at + 2].1).to_owned();
    Ok((org, repo))
}

/// Once a part holds the host and none before it does, further parts do not
/// change the position.
pub proof fn lemma_host_position_stays(parts: Seq<Seq<char>>, at: int, count: int)
    requires
        0 <= at < count,
        host_position(parts, at) == at,
        contains_text(parts[at], GITHUB_HOST@),
    ensures
        host_position(parts, count) == at,
    decreases count,
{
    if count > at + 1 {
        lemma_host_position_stays(parts, at, count - 1);
    }
}

impl RemoteUrlError {
    /// What to tell the user.
    pub open spec fn message_text(self) -> Seq<char> {
        match self {
            RemoteUrlError::NoOrigin { .. } => "Could not find remote 'origin'; remote origin required in order to parse organization/repo"@,
            RemoteUrlError::NoUrl => "Remote has no URL"@,
            RemoteUrlError::NotGithub { url } => "URL '"@ + url@
                + "' does not look like a GitHub URL"@,
            RemoteUrlError::Incomplete { url } => "Could not parse organization and repo name from '"@
                + url@ + "'"@,
        }
    }

    /// What to tell the user.
    pub fn message(&self) -> (r: String)
        ensures
            r@ == self.message_text(),
    {
        match self {
            RemoteUrlError::NoOrigin { .. } => String::from_str(
                "Could not find remote 'origin'; remote origin required in order to parse organization/repo",
            ),
            RemoteUrlError::NoUrl => String::from_str("Remote has no URL"),
            RemoteUrlError::NotGithub { url } => {
                let mut text = String::from_str("URL '");
                text.append(url.as_str());
                text.append("' does not look like a GitHub URL");
                text
            },
            RemoteUrlError::Incomplete { url } => {
                let mut text = String::from_str("Could not parse organization and repo name from '");
                text.append(url.as_str());
                text.append("'");
                text
            },
        }
    }
}

} // verus!
