//! Commits as plain values: an identifier in hexadecimal, a message, and the
//! identifiers of the parents.
use crate::text::{chars_of, find_from, first_index_of, lemma_first_index_of, starts_with};
use vstd::prelude::*;

verus! {

/// How many characters of an identifier its abbreviation keeps.
pub const ABBREVIATED_LEN: usize = 7;

/// The identifier of a commit, in its canonical hexadecimal form.
#[derive(Clone, Debug)]
pub struct CommitId {
    pub hex: String,
}

impl View for CommitId {
    type V = Seq<char>;

    open spec fn view(&self) -> Seq<char> {
        self.hex@
    }
}

impl PartialEq for CommitId {
    fn eq(&self, other: &CommitId) -> (same: bool) {
        self.hex == other.hex
    }
}

impl Eq for CommitId {

}

impl vstd::std_specs::cmp::PartialEqSpecImpl for CommitId {
    open spec fn obeys_eq_spec() -> bool {
        true
    }

    open spec fn eq_spec(&self, other: &CommitId) -> bool {
        self.hex@ == other.hex@
    }
}

/// Whether `c` is one of the sixteen digits `0` to `9` and `a` to `f`.
pub open spec fn is_hex_digit(c: char) -> bool {
    ('0' <= c && c <= '9') || ('a' <= c && c <= 'f')
}

/// How many hexadecimal digits the full identifier of an object has.
pub const FULL_LEN: usize = 40;

/// Whether `hex` is a full identifier: `FULL_LEN` hexadecimal digits.
pub open spec fn is_full_id(hex: Seq<char>) -> bool {
    hex.len() == FULL_LEN && forall|i: int| 0 <= i < hex.len() ==> is_hex_digit(#[trigger] hex[i])
}

/// Whether `c` is a hexadecimal digit, the letters in either case.
pub open spec fn is_hex_digit_of_any_case(c: char) -> bool {
    is_hex_digit(c) || ('A' <= c && c <= 'F')
}

/// Whether `hex` can be read as an identifier at all: between one and
/// `FULL_LEN` hexadecimal digits, the letters in either case. Text that is
/// empty, longer, or holds anything else names no object.
pub open spec fn is_readable_id(hex: Seq<char>) -> bool {
    &&& 1 <= hex.len() <= FULL_LEN
    &&& forall|i: int| 0 <= i < hex.len() ==> is_hex_digit_of_any_case(#[trigger] hex[i])
}

/// A full identifier can be read.
pub proof fn lemma_full_id_is_readable(hex: Seq<char>)
    requires
        is_full_id(hex),
    ensures
        is_readable_id(hex),
{
}

/// What the repository holds of one commit.
#[derive(Clone, Debug, PartialEq, Eq)]
pub struct CommitRecord {
    pub id: CommitId,
    /// The full message, or `None` where it is not valid UTF-8.
    pub message: Option<String>,
    pub parents: Vec<CommitId>,
}

impl CommitRecord {
    /// The message as text; a message that cannot be read counts as empty.
    pub open spec fn message_text(&self) -> Seq<char> {
        match self.message {
            Some(m) => m@,
            None => Seq::empty(),
        }
    }
}

/// The first line of `message`: all that stands before the first line feed,
/// or the whole of it where there is none.
pub open spec fn first_line(message: Seq<char>) -> Seq<char> {
    message.take(first_index_of(message, '\n'))
}

/// The first `ABBREVIATED_LEN` characters of `hex`, or all of it if it has no more.
pub open spec fn abbreviation(hex: Seq<char>) -> Seq<char> {
    if hex.len() > ABBREVIATED_LEN {
        hex.take(ABBREVIATED_LEN as int)
    } else {
        hex
    }
}

/// A message without a line feed is its own first line, and the first line
/// of any message holds no line feed.
pub proof fn lemma_first_line(message: Seq<char>)
    ensures
        !message.contains('\n') ==> first_line(message) == message,
        !first_line(message).contains('\n'),
        first_line(message).len() <= message.len(),
        message.len() == 0 ==> first_line(message).len() == 0,
{
    lemma_first_index_of(message, '\n');
    let k = first_index_of(message, '\n');
    if !message.contains('\n') {
        if k < message.len() {
            assert(message.contains(message[k]));
        }
        assert(message.take(k) =~= message);
    }
    assert forall|i: int| 0 <= i < first_line(message).len() implies first_line(message)[i]
        != '\n' by {
        assert(first_line(message)[i] == message[i]);
    }
}

/// An identifier of no more than `ABBREVIATED_LEN` characters is its own
/// abbreviation, and a longer one is cut to just that many.
pub proof fn lemma_abbreviation(hex: Seq<char>)
    ensures
        hex.len() <= ABBREVIATED_LEN ==> abbreviation(hex) == hex,
        hex.len() > ABBREVIATED_LEN ==> abbreviation(hex).len() == ABBREVIATED_LEN,
        starts_with(hex, abbreviation(hex)),
        is_full_id(hex) ==> abbreviation(hex).len() == ABBREVIATED_LEN,
{
    if hex.len() <= ABBREVIATED_LEN {
        assert(hex.take(hex.len() as int) =~= hex);
    } else {
        assert(hex.take(ABBREVIATED_LEN as int).take(ABBREVIATED_LEN as int) =~= hex.take(
            ABBREVIATED_LEN as int,
        ));
    }
}

/// The first line of `text`.
pub fn first_line_of(text: &str) -> (r: String)
    ensures
        r@ == first_line(text@),
{
    let chars = chars_of(text);
    let end = find_from(&chars, 0, '\n');
    assert(chars@.skip(0) =~= text@);
    text.substring_char(0, end).to_owned()
}

/// The first line of the commit's message.
pub fn get_short_message(commit: &CommitRecord) -> (r: String)
    ensures
        r@ == first_line(commit.message_text()),
{
    match &commit.message {
        Some(message) => first_line_of(message.as_str()),
        None => {
            String::new()
        },
    }
}

/// The abbreviated form of a commit identifier.
pub fn get_abbreviated_hash(hash: &CommitId) -> (r: String)
    ensures
        r@ == abbreviation(hash@),
{
    let full = hash.hex.as_str();
    if full.unicode_len() > ABBREVIATED_LEN {
        full.substring_char(0, ABBREVIATED_LEN).to_owned()
    } else {
        full.to_owned()
    }
}

/// What a changelog shows of one commit, and what a model is told of it.
#[derive(Clone, Debug, PartialEq, Eq)]
pub struct CommitSummary {
    pub short_hash: String,
    pub short_message: String,
    pub full_hash: String,
    pub full_message: String,
}

impl CommitSummary {
    /// The summary holds the identifier of `commit` in full and abbreviated,
    /// and its message in full and cut to the first line.
    pub open spec fn describes(self, commit: CommitRecord) -> bool {
        &&& self.short_hash@ == abbreviation(commit.id@)
        &&& self.short_message@ == first_line(commit.message_text())
        &&& self.full_hash@ == commit.id@
        &&& self.full_message@ == commit.message_text()
    }
}

/// The summary of one commit.
pub fn summarize(commit: &CommitRecord) -> (r: CommitSummary)
    ensures
        r.describes(*commit),
{
    let full_message = match &commit.message {
        Some(message) => message.clone(),
        None => String::new(),
    };
    CommitSummary {
        short_hash: get_abbreviated_hash(&commit.id),
        short_message: get_short_message(commit),
        full_hash: commit.id.hex.clone(),
        full_message,
    }
}

/// The summaries of the commits, in their order.
pub fn summarize_all(commits: &Vec<CommitRecord>) -> (r: Vec<CommitSummary>)
    ensures
        r.len() == commits.len(),
        forall|i: int| 0 <= i < r.len() ==> (#[trigger] r[i]).describes(commits[i]),
{
    let mut summaries: Vec<CommitSummary> = Vec::new();
    let mut i: usize = 0;
    while i < commits.len()
        invariant
            i <= commits.len(),
            summaries.len() == i,
            forall|j: int| 0 <= j < i ==> (#[trigger] summaries[j]).describes(commits[j]),
        decreases commits.len() - i,
    {
        summaries.push(summarize(&commits[i]));
        i += 1;
    }
    summaries
}

} // verus!
