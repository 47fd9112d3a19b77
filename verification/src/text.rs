//! Text as sequences of characters: searching, prefixes and lines.
//!
//! Every function states its result over `Seq<char>`, the view of `str` and
//! `String`, so that the callers' contracts can speak of text directly.
use vstd::prelude::*;

verus! {

/// The position of the first `c` in `s`, or `s.len()` if `s` holds none.
pub open spec fn first_index_of(s: Seq<char>, c: char) -> int
    decreases s.len(),
{
    if s.len() == 0 {
        0
    } else if s[0] == c {
        0
    } else {
        1 + first_index_of(s.skip(1), c)
    }
}

/// `first_index_of` is in range, nothing before it is `c`, and `c` stands
/// there unless the text holds no `c` at all.
pub proof fn lemma_first_index_of(s: Seq<char>, c: char)
    ensures
        0 <= first_index_of(s, c) <= s.len(),
        forall|j: int| 0 <= j < first_index_of(s, c) ==> s[j] != c,
        first_index_of(s, c) < s.len() ==> s[first_index_of(s, c)] == c,
    decreases s.len(),
{
    if s.len() > 0 && s[0] != c {
        let rest = s.skip(1);
        lemma_first_index_of(rest, c);
        assert forall|j: int| 0 <= j < first_index_of(s, c) implies s[j] != c by {
            if j > 0 {
                assert(rest[j - 1] == s[j]);
            }
        }
    }
}

/// A position with the three properties of `lemma_first_index_of` is
/// `first_index_of`.
pub proof fn lemma_first_index_of_unique(s: Seq<char>, c: char, k: int)
    requires
        0 <= k <= s.len(),
        forall|j: int| 0 <= j < k ==> s[j] != c,
        k < s.len() ==> s[k] == c,
    ensures
        first_index_of(s, c) == k,
{
    lemma_first_index_of(s, c);
}

/// Whether `s` begins with `prefix`.
pub open spec fn starts_with(s: Seq<char>, prefix: Seq<char>) -> bool {
    prefix.len() <= s.len() && s.take(prefix.len() as int) == prefix
}

/// `s` without `prefix` at its front, or `None` if `s` does not begin with it.
pub open spec fn without_prefix(s: Seq<char>, prefix: Seq<char>) -> Option<Seq<char>> {
    if starts_with(s, prefix) {
        Some(s.skip(prefix.len() as int))
    } else {
        None
    }
}

/// `line` without one carriage return at its end.
pub open spec fn strip_cr(line: Seq<char>) -> Seq<char> {
    if line.len() > 0 && line.last() == '\r' {
        line.drop_last()
    } else {
        line
    }
}

/// The lines of `s`. A line ends with a line feed, or with a carriage return
/// and a line feed; neither belongs to the line. What follows the last line
/// feed is a line too, unless it is empty, and is taken as it stands.
pub open spec fn lines_of(s: Seq<char>) -> Seq<Seq<char>>
    decreases s.len(),
{
    let k = first_index_of(s, '\n');
    if s.len() == 0 {
        Seq::empty()
    } else if k < 0 || k >= s.len() {
        seq![s]
    } else {
        seq![strip_cr(s.take(k))] + lines_of(s.skip(k + 1))
    }
}

/// The texts that the strings of `v` hold.
pub open spec fn texts(v: Seq<String>) -> Seq<Seq<char>> {
    v.map_values(|s: String| s@)
}

/// Whether `c` is white space, as Unicode has it.
pub open spec fn is_whitespace(c: char) -> bool {
    ||| ('\u{9}' <= c && c <= '\u{d}')
    ||| c == ' '
    ||| c == '\u{85}'
    ||| c == '\u{a0}'
    ||| c == '\u{1680}'
    ||| ('\u{2000}' <= c && c <= '\u{200a}')
    ||| c == '\u{2028}'
    ||| c == '\u{2029}'
    ||| c == '\u{202f}'
    ||| c == '\u{205f}'
    ||| c == '\u{3000}'
}

/// How many characters of white space `s` begins with.
pub open spec fn leading_whitespace(s: Seq<char>) -> int
    decreases s.len(),
{
    if s.len() > 0 && is_whitespace(s[0]) {
        1 + leading_whitespace(s.skip(1))
    } else {
        0
    }
}

/// How many characters of white space `s` ends with.
pub open spec fn trailing_whitespace(s: Seq<char>) -> int
    decreases s.len(),
{
    if s.len() > 0 && is_whitespace(s.last()) {
        1 + trailing_whitespace(s.drop_last())
    } else {
        0
    }
}

/// `s` without the white space at its front.
pub open spec fn trim_start(s: Seq<char>) -> Seq<char> {
    s.skip(leading_whitespace(s))
}

/// `s` without the white space at its front and at its end.
pub open spec fn trim(s: Seq<char>) -> Seq<char> {
    let front = trim_start(s);
    front.take(front.len() - trailing_whitespace(front))
}

/// The lines with `separator` between each two of them.
pub open spec fn joined(lines: Seq<Seq<char>>, separator: Seq<char>) -> Seq<char>
    decreases lines.len(),
{
    if lines.len() == 0 {
        Seq::empty()
    } else if lines.len() == 1 {
        lines[0]
    } else {
        joined(lines.drop_last(), separator) + separator + lines.last()
    }
}

/// `c` in lower case if it is an ASCII capital, else `c` itself.
pub open spec fn ascii_lower(c: char) -> char {
    if 'A' <= c && c <= 'Z' {
        ((c as u8) + 32) as char
    } else {
        c
    }
}

/// `s` with its ASCII capitals in lower case.
pub open spec fn ascii_lowercase(s: Seq<char>) -> Seq<char> {
    s.map_values(|c: char| ascii_lower(c))
}

/// The characters of `s`, in order.
pub fn chars_of(s: &str) -> (v: Vec<char>)
    ensures
        v@ == s@,
{
    let mut v: Vec<char> = Vec::new();
    for c in it: s.chars()
        invariant
            v@ == it.seq().take(it.index() as int),
            it.seq() == s@,
    {
        v.push(c);
    }
    v
}

/// The position of the first `c` at or after `from`, or the length of `text`
/// if none follows.
pub fn find_from(text: &Vec<char>, from: usize, c: char) -> (k: usize)
    requires
        from <= text.len(),
    ensures
        k == from + first_index_of(text@.skip(from as int), c),
        from <= k <= text.len(),
{
    let mut k: usize = from;
    while k < text.len() && text[k] != c
        invariant
            from <= k <= text.len(),
            forall|j: int| from <= j < k ==> text@[j] != c,
        decreases text.len() - k,
    {
        k += 1;
    }
    proof {
        let rest = text@.skip(from as int);
        lemma_first_index_of_unique(rest, c, k - from);
    }
    k
}

/// Whether `text` begins with `prefix`.
pub fn has_prefix(text: &Vec<char>, prefix: &Vec<char>) -> (b: bool)
    ensures
        b == starts_with(text@, prefix@),
{
    if prefix.len() > text.len() {
        return false;
    }
    let mut i: usize = 0;
    while i < prefix.len()
        invariant
            i <= prefix.len() <= text.len(),
            forall|j: int| 0 <= j < i ==> text@[j] == prefix@[j],
        decreases prefix.len() - i,
    {
        if text[i] != prefix[i] {
            return false;
        }
        i += 1;
    }
    proof {
        assert(text@.take(prefix.len() as int) =~= prefix@);
    }
    true
}

/// Whether `c` is white space.
pub fn is_white(c: char) -> (b: bool)
    ensures
        b == is_whitespace(c),
{
    ('\u{9}' <= c && c <= '\u{d}') || c == ' ' || c == '\u{85}' || c == '\u{a0}' || c
        == '\u{1680}' || ('\u{2000}' <= c && c <= '\u{200a}') || c == '\u{2028}' || c
        == '\u{2029}' || c == '\u{202f}' || c == '\u{205f}' || c == '\u{3000}'
}

/// `c` in lower case if it is an ASCII capital, else `c` itself.
pub fn to_ascii_lower(c: char) -> (r: char)
    ensures
        r == ascii_lower(c),
{
    if 'A' <= c && c <= 'Z' {
        ((c as u8) + 32) as char
    } else {
        c
    }
}

/// `leading_whitespace` counts white space only, and stops at the first
/// character that is none.
pub proof fn lemma_leading_whitespace(s: Seq<char>)
    ensures
        0 <= leading_whitespace(s) <= s.len(),
        forall|j: int| 0 <= j < leading_whitespace(s) ==> is_whitespace(s[j]),
        leading_whitespace(s) < s.len() ==> !is_whitespace(s[leading_whitespace(s)]),
    decreases s.len(),
{
    if s.len() > 0 && is_whitespace(s[0]) {
        let rest = s.skip(1);
        lemma_leading_whitespace(rest);
        assert forall|j: int| 0 <= j < leading_whitespace(s) implies is_whitespace(s[j]) by {
            if j > 0 {
                assert(rest[j - 1] == s[j]);
            }
        }
    }
}

/// A count with the three properties of `lemma_leading_whitespace` is
/// `leading_whitespace`.
pub proof fn lemma_leading_whitespace_unique(s: Seq<char>, k: int)
    requires
        0 <= k <= s.len(),
        forall|j: int| 0 <= j < k ==> is_whitespace(s[j]),
        k < s.len() ==> !is_whitespace(s[k]),
    ensures
        leading_whitespace(s) == k,
{
    lemma_leading_whitespace(s);
}

/// `trailing_whitespace` counts white space only, and stops at the last
/// character that is none.
pub proof fn lemma_trailing_whitespace(s: Seq<char>)
    ensures
        0 <= trailing_whitespace(s) <= s.len(),
        forall|j: int| s.len() - trailing_whitespace(s) <= j < s.len() ==> is_whitespace(s[j]),
        trailing_whitespace(s) < s.len() ==> !is_whitespace(
            s[s.len() - trailing_whitespace(s) - 1],
        ),
    decreases s.len(),
{
    if s.len() > 0 && is_whitespace(s.last()) {
        let rest = s.drop_last();
        lemma_trailing_whitespace(rest);
        assert forall|j: int| s.len() - trailing_whitespace(s) <= j < s.len() implies is_whitespace(
            s[j],
        ) by {
            if j < s.len() - 1 {
                assert(rest[j] == s[j]);
            }
        }
    }
}

/// A count with the three properties of `lemma_trailing_whitespace` is
/// `trailing_whitespace`.
pub proof fn lemma_trailing_whitespace_unique(s: Seq<char>, k: int)
    requires
        0 <= k <= s.len(),
        forall|j: int| s.len() - k <= j < s.len() ==> is_whitespace(s[j]),
        k < s.len() ==> !is_whitespace(s[s.len() - k - 1]),
    ensures
        trailing_whitespace(s) == k,
{
    lemma_trailing_whitespace(s);
}

/// Whether the two texts are the same.
pub fn same_text(a: &str, b: &str) -> (same: bool)
    ensures
        same == (a@ == b@),
{
    let x = chars_of(a);
    let y = chars_of(b);
    if x.len() != y.len() {
        return false;
    }
    let mut i: usize = 0;
    while i < x.len()
        invariant
            x@ == a@,
            y@ == b@,
            x.len() == y.len(),
            i <= x.len(),
            forall|j: int| 0 <= j < i ==> x@[j] == y@[j],
        decreases x.len() - i,
    {
        if x[i] != y[i] {
            return false;
        }
        i += 1;
    }
    assert(x@ =~= y@);
    true
}

/// Whether the two texts are the same but for the case of ASCII letters.
pub fn same_text_ignoring_ascii_case(a: &str, b: &str) -> (same: bool)
    ensures
        same == (ascii_lowercase(a@) == ascii_lowercase(b@)),
{
    let x = chars_of(a);
    let y = chars_of(b);
    if x.len() != y.len() {
        assert(ascii_lowercase(a@).len() != ascii_lowercase(b@).len());
        return false;
    }
    let mut i: usize = 0;
    while i < x.len()
        invariant
            x@ == a@,
            y@ == b@,
            x.len() == y.len(),
            i <= x.len(),
            forall|j: int| 0 <= j < i ==> ascii_lower(x@[j]) == ascii_lower(y@[j]),
        decreases x.len() - i,
    {
        if to_ascii_lower(x[i]) != to_ascii_lower(y[i]) {
            assert(ascii_lowercase(a@)[i as int] != ascii_lowercase(b@)[i as int]);
            return false;
        }
        i += 1;
    }
    assert(ascii_lowercase(a@) =~= ascii_lowercase(b@));
    true
}

/// The position of the first character at or after `from` that is no white
/// space, or the length of `text` if only white space follows.
pub fn skip_whitespace(text: &Vec<char>, from: usize) -> (k: usize)
    requires
        from <= text.len(),
    ensures
        k == from + leading_whitespace(text@.skip(from as int)),
        from <= k <= text.len(),
{
    let mut k: usize = from;
    while k < text.len() && is_white(text[k])
        invariant
            from <= k <= text.len(),
            forall|j: int| from <= j < k ==> is_whitespace(text@[j]),
        decreases text.len() - k,
    {
        k += 1;
    }
    proof {
        let rest = text@.skip(from as int);
        lemma_leading_whitespace_unique(rest, k - from);
    }
    k
}

/// The bounds of `text` without the white space at its front and at its end.
pub fn trim_bounds(text: &Vec<char>) -> (bounds: (usize, usize))
    ensures
        bounds.0 <= bounds.1 <= text.len(),
        text@.subrange(bounds.0 as int, bounds.1 as int) == trim(text@),
        bounds.0 == leading_whitespace(text@),
{
    assert(text@.skip(0) =~= text@);
    let start = skip_whitespace(text, 0);
    let mut end: usize = text.len();
    while end > start && is_white(text[end - 1])
        invariant
            start <= end <= text.len(),
            forall|j: int| end <= j < text.len() ==> is_whitespace(text@[j]),
        decreases end,
    {
        end -= 1;
    }
    proof {
        let front = text@.skip(start as int);
        let k = text.len() - end;
        if k >= front.len() {
            lemma_leading_whitespace(text@);
        }
        lemma_trailing_whitespace_unique(front, k);
    }
    (start, end)
}

/// The strings with `separator` between each two of them.
pub fn join(lines: &Vec<String>, separator: &str) -> (r: String)
    ensures
        r@ == joined(texts(lines@), separator@),
{
    let mut out = String::new();
    let ghost all = texts(lines@);
    let mut i: usize = 0;
    while i < lines.len()
        invariant
            i <= lines.len(),
            all == texts(lines@),
            out@ == joined(all.take(i as int), separator@),
        decreases lines.len() - i,
    {
        if i > 0 {
            out.append(separator);
        }
        out.append(lines[i].as_str());
        proof {
            let seen = all.take(i + 1);
            assert(seen.drop_last() =~= all.take(i as int));
        }
        i += 1;
    }
    assert(all.take(lines.len() as int) =~= all);
    out
}

/// The lines of `text`, as `str::lines` gives them.
pub fn split_lines(text: &str) -> (lines: Vec<String>)
    ensures
        texts(lines@) == lines_of(text@),
{
    let chars = chars_of(text);
    let mut lines: Vec<String> = Vec::new();
    let mut start: usize = 0;
    assert(text@.skip(0) =~= text@);
    while start < chars.len()
        invariant
            chars@ == text@,
            start <= chars.len(),
            texts(lines@) + lines_of(text@.skip(start as int)) == lines_of(text@),
        decreases chars.len() - start,
    {
        let ghost rest = text@.skip(start as int);
        let end = find_from(&chars, start, '\n');
        if end == chars.len() {
            lines.push(text.substring_char(start, end).to_owned());
            start = end;
        } else {
            let stop = if end > start && chars[end - 1] == '\r' {
                end - 1
            } else {
                end
            };
            lines.push(text.substring_char(start, stop).to_owned());
            proof {
                let k = end - start;
                let line = rest.take(k);
                assert(strip_cr(line) =~= text@.subrange(start as int, stop as int));
                assert(rest.skip(k + 1) =~= text@.skip(end + 1));
            }
            start = end + 1;
        }
    }
    lines
}

} // verus!
