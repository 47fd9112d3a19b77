//! The changelog that the user edits: where it is kept, which editor opens
//! it, and what of it counts.
use crate::text::{
    chars_of, is_white, is_whitespace, join, joined, leading_whitespace,
    lemma_leading_whitespace, lines_of,
    skip_whitespace, split_lines, starts_with, texts, trim_start,
};
use vstd::prelude::*;

verus! {

/// What a line of comment begins with, after any white space.
pub const COMMENT_MARK: &'static str = "//";

/// Whether `line` is a comment: after the white space at its front it begins
/// with the comment mark.
pub open spec fn is_comment_line(line: Seq<char>) -> bool {
    starts_with(trim_start(line), COMMENT_MARK@)
}

/// `data` without its comment lines, the lines that stay joined by line
/// feeds.
pub open spec fn without_comments(data: Seq<char>) -> Seq<char> {
    joined(lines_of(data).filter(|line: Seq<char>| !is_comment_line(line)), seq!['\n'])
}

/// How many characters `s` begins with that are no white space.
pub open spec fn word_len(s: Seq<char>) -> int
    decreases s.len(),
{
    if s.len() > 0 && !is_whitespace(s[0]) {
        1 + word_len(s.skip(1))
    } else {
        0
    }
}

/// The words of `s`: the longest runs of characters that are no white space.
pub open spec fn words_of(s: Seq<char>) -> Seq<Seq<char>>
    decreases s.len(),
{
    let start = leading_whitespace(s);
    let rest = s.skip(start);
    let len = word_len(rest);
    if start < 0 || start >= s.len() || len <= 0 || len > rest.len() {
        Seq::empty()
    } else {
        seq![rest.take(len)] + words_of(rest.skip(len))
    }
}

/// The first of the three that is there and not empty.
pub open spec fn first_usable(
    visual: Option<String>,
    editor: Option<String>,
    fallback: Option<String>,
) -> Option<Seq<char>> {
    if visual is Some && visual->0@.len() > 0 {
        Some(visual->0@)
    } else if editor is Some && editor->0@.len() > 0 {
        Some(editor->0@)
    } else if fallback is Some && fallback->0@.len() > 0 {
        Some(fallback->0@)
    } else {
        None
    }
}

/// A program and the arguments to start it with.
#[derive(Clone, Debug, PartialEq, Eq)]
pub struct EditorCommand {
    pub program: String,
    pub args: Vec<String>,
}

impl EditorCommand {
    /// Program and arguments in one row.
    pub open spec fn words(self) -> Seq<Seq<char>> {
        seq![self.program@] + texts(self.args@)
    }
}

/// `word_len` counts characters that are no white space, and stops at the
/// first that is.
pub proof fn lemma_word_len(s: Seq<char>)
    ensures
        0 <= word_len(s) <= s.len(),
        forall|j: int| 0 <= j < word_len(s) ==> !is_whitespace(s[j]),
        word_len(s) < s.len() ==> is_whitespace(s[word_len(s)]),
    decreases s.len(),
{
    if s.len() > 0 && !is_whitespace(s[0]) {
        let rest = s.skip(1);
        lemma_word_len(rest);
        assert forall|j: int| 0 <= j < word_len(s) implies !is_whitespace(s[j]) by {
            if j > 0 {
                assert(rest[j - 1] == s[j]);
            }
        }
    }
}

/// A count with the three properties of `lemma_word_len` is `word_len`.
pub proof fn lemma_word_len_unique(s: Seq<char>, k: int)
    requires
        0 <= k <= s.len(),
        forall|j: int| 0 <= j < k ==> !is_whitespace(s[j]),
        k < s.len() ==> is_whitespace(s[k]),
    ensures
        word_len(s) == k,
{
    lemma_word_len(s);
}

/// Whether `line` is a comment.
pub fn is_comment(line: &str) -> (b: bool)
    ensures
        b == is_comment_line(line@),
{
    let chars = chars_of(line);
    let mark = chars_of(COMMENT_MARK);
    assert(chars@.skip(0) =~= chars@);
    let start = skip_whitespace(&chars, 0);
    if chars.len() - start < mark.len() {
        return false;
    }
    let mut i: usize = 0;
    while i < mark.len()
        invariant
            chars@ == line@,
            mark@ == COMMENT_MARK@,
            start == leading_whitespace(line@),
            start <= chars.len(),
            mark.len() <= chars.len() - start,
            i <= mark.len(),
            forall|j: int| 0 <= j < i ==> chars@[start + j] == mark@[j],
        decreases mark.len() - i,
    {
        if chars[start + i] != mark[i] {
            return false;
        }
        i += 1;
    }
    proof {
        assert(chars@.skip(start as int).take(mark.len() as int) =~= mark@);
    }
    true
}

/// The changelog without its comment lines.
pub fn remove_file_comments(data: &str) -> (r: String)
    ensures
        r@ == without_comments(data@),
{
    let lines = split_lines(data);
    let ghost all = texts(lines@);
    let ghost keep = |line: Seq<char>| !is_comment_line(line);
    let mut kept: Vec<String> = Vec::new();
    let mut i: usize = 0;
    proof {
        reveal(Seq::filter);
    }
    while i < lines.len()
        invariant
            i <= lines.len(),
            all == texts(lines@),
            keep == |line: Seq<char>| !is_comment_line(line),
            texts(kept@) == all.take(i as int).filter(keep),
        decreases lines.len() - i,
    {
        proof {
            assert(all.take(i + 1) =~= all.take(i as int).push(all[i as int]));
            all.take(i as int).lemma_filter_push(all[i as int], keep);
        }
        if !is_comment(lines[i].as_str()) {
            kept.push(lines[i].clone());
        }
        i += 1;
    }
    proof {
        assert(all.take(lines.len() as int) =~= all);
        reveal_strlit("\n");
        assert("\n"@ =~= seq!['\n']);
    }
    join(&kept, "\n")
}

/// The editor to use: what `VISUAL` holds, else what `EDITOR` holds, else
/// the fallback; one that is not set or empty is passed over.
pub fn choose_editor(visual: Option<String>, editor: Option<String>, fallback: Option<String>) -> (r:
    Option<String>)
    ensures
        match r {
            Some(path) => first_usable(visual, editor, fallback) == Some(path@),
            None => first_usable(visual, editor, fallback) is None,
        },
{
    match visual {
        Some(path) => if path.as_str().unicode_len() > 0 {
            return Some(path);
        },
        None => {},
    }
    match editor {
        Some(path) => if path.as_str().unicode_len() > 0 {
            return Some(path);
        },
        None => {},
    }
    match fallback {
        Some(path) => if path.as_str().unicode_len() > 0 {
            return Some(path);
        },
        None => {},
    }
    None
}

/// The words of `text`.
pub fn split_words(text: &str) -> (words: Vec<String>)
    ensures
        texts(words@) == words_of(text@),
{
    let chars = chars_of(text);
    let mut words: Vec<String> = Vec::new();
    let mut at: usize = 0;
    assert(text@.skip(0) =~= text@);
    loop
        invariant
            chars@ == text@,
            at <= chars.len(),
            texts(words@) + words_of(text@.skip(at as int)) == words_of(text@),
        decreases chars.len() - at,
    {
        let ghost here = text@.skip(at as int);
        let start = skip_whitespace(&chars, at);
        if start == chars.len() {
            return words;
        }
        let mut end: usize = start;
        while end < chars.len() && !is_white(chars[end])
            invariant
                start <= end <= chars.len(),
                forall|j: int| start <= j < end ==> !is_whitespace(chars@[j]),
            decreases chars.len() - end,
        {
            end += 1;
        }
        words.push(text.substring_char(start, end).to_owned());
        proof {
            let rest = here.skip(start - at);
            lemma_word_len_unique(rest, end - start);
            lemma_leading_whitespace(here);
            assert(rest.take(end - start) =~= text@.subrange(start as int, end as int));
            assert(rest.skip(end - start) =~= text@.skip(end as int));
        }
        at = end;
    }
}

/// The command that opens `file_path` in the editor: the words of
/// `editor_path`, then `file_path`. The first of them all is the program.
pub fn editor_command(editor_path: &str, file_path: &str) -> (r: EditorCommand)
    ensures
        r.words() == words_of(editor_path@).push(file_path@),
{
    let mut parts = split_words(editor_path);
    parts.push(file_path.to_owned());
    let program = parts.remove(0);
    let r = EditorCommand { program, args: parts };
    r
}

/// Where the changelog of a release is kept while it is edited. The name
/// holds organization, repository and version, so that an edit that was
/// broken off can be found again.
pub fn changelog_path(organization: &str, repo: &str, version: &str) -> (r: String)
    ensures
        r@ == "/tmp/changelog_"@ + organization@ + "_"@ + repo@ + "_"@ + version@ + ".md"@,
{
    let mut path = String::from_str("/tmp/changelog_");
    path.append(organization);
    path.append("_");
    path.append(repo);
    path.append("_");
    path.append(version);
    path.append(".md");
    path
}

/// The name of the file that holds the finished changelog.
pub fn final_file_name(stem: &str, extension: &str) -> (r: String)
    ensures
        r@ == stem@ + "_final."@ + extension@,
{
    let mut name = String::from_str(stem);
    name.append("_final.");
    name.append(extension);
    name
}

} // verus!
