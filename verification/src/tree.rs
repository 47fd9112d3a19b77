//! Error reports drawn as a tree.
//!
//! A report is a chain of nodes, the outermost context first. Each node has
//! a context and may have attachments. Every line of the drawing begins with
//! a glyph that ties it into the tree.
use crate::text::{lines_of, split_lines, texts};
use vstd::prelude::*;

verus! {

/// The escape character, with which terminal colour sequences begin.
pub const ESCAPE: char = '\u{1b}';

/// The sequence that switches a terminal to magenta.
pub const MAGENTA_ON: &'static str = "\u{1b}[35m";

/// The sequence that switches a terminal back.
pub const COLOUR_OFF: &'static str = "\u{1b}[0m";

/// One node of a report.
#[derive(Clone, Debug, PartialEq, Eq)]
pub struct ReportNode {
    pub context: String,
    pub attachments: Vec<String>,
}

/// The glyphs that a tree is drawn with, ready to be written.
#[derive(Clone, Debug, PartialEq, Eq)]
pub struct TreeStyle {
    /// Before the context of the first node of several.
    pub head_first: String,
    /// Before the context of a node that something follows.
    pub head_inner: String,
    /// Before the context of the last node, where nothing follows.
    pub head_last: String,
    /// Before the further lines of a context that something follows.
    pub cont_open: String,
    /// Before the further lines of a context that nothing follows.
    pub cont_closed: String,
    /// Before an attachment that something follows.
    pub attachment_inner: String,
    /// Before the very last attachment.
    pub attachment_last: String,
    /// Before the further lines of an attachment that something follows.
    pub attachment_cont_open: String,
    /// Before the further lines of the very last attachment.
    pub attachment_cont_closed: String,
    /// On a line of its own between two nodes.
    pub spacer: String,
}

/// A style as mathematics sees it.
pub struct StyleView {
    pub head_first: Seq<char>,
    pub head_inner: Seq<char>,
    pub head_last: Seq<char>,
    pub cont_open: Seq<char>,
    pub cont_closed: Seq<char>,
    pub attachment_inner: Seq<char>,
    pub attachment_last: Seq<char>,
    pub attachment_cont_open: Seq<char>,
    pub attachment_cont_closed: Seq<char>,
    pub spacer: Seq<char>,
}

impl View for TreeStyle {
    type V = StyleView;

    open spec fn view(&self) -> StyleView {
        StyleView {
            head_first: self.head_first@,
            head_inner: self.head_inner@,
            head_last: self.head_last@,
            cont_open: self.cont_open@,
            cont_closed: self.cont_closed@,
            attachment_inner: self.attachment_inner@,
            attachment_last: self.attachment_last@,
            attachment_cont_open: self.attachment_cont_open@,
            attachment_cont_closed: self.attachment_cont_closed@,
            spacer: self.spacer@,
        }
    }
}

/// The glyphs without any colour.
pub open spec fn plain_style() -> StyleView {
    StyleView {
        head_first: "┌─ "@,
        head_inner: "├─ "@,
        head_last: "└─ "@,
        cont_open: "│  "@,
        cont_closed: "   "@,
        attachment_inner: "├── "@,
        attachment_last: "└── "@,
        attachment_cont_open: "│   "@,
        attachment_cont_closed: "    "@,
        spacer: "┆"@,
    }
}

/// `glyph` between the sequences that switch magenta on and off.
pub open spec fn in_magenta(glyph: Seq<char>) -> Seq<char> {
    MAGENTA_ON@ + glyph + COLOUR_OFF@
}

/// `painted` is `glyph` as it stands or in magenta.
pub open spec fn plain_or_magenta(painted: Seq<char>, glyph: Seq<char>) -> bool {
    painted == glyph || painted == in_magenta(glyph)
}

/// Each glyph of `style` is that of the plain style, as it stands or in
/// magenta.
pub open spec fn is_magenta_style(style: StyleView) -> bool {
    let plain = plain_style();
    &&& plain_or_magenta(style.head_first, plain.head_first)
    &&& plain_or_magenta(style.head_inner, plain.head_inner)
    &&& plain_or_magenta(style.head_last, plain.head_last)
    &&& plain_or_magenta(style.cont_open, plain.cont_open)
    &&& plain_or_magenta(style.cont_closed, plain.cont_closed)
    &&& plain_or_magenta(style.attachment_inner, plain.attachment_inner)
    &&& plain_or_magenta(style.attachment_last, plain.attachment_last)
    &&& plain_or_magenta(style.attachment_cont_open, plain.attachment_cont_open)
    &&& plain_or_magenta(style.attachment_cont_closed, plain.attachment_cont_closed)
    &&& plain_or_magenta(style.spacer, plain.spacer)
}

/// `ColoredString`'s `Display` after `Colorize::magenta`, of the crate
/// `colored`. Whether colour is used depends on the terminal and the
/// environment, so the contract claims only this: for a glyph without an
/// escape character, the outcome is the glyph as it stands or the glyph
/// between the sequences for magenta and for reset.
#[verifier::external_body]
fn paint_magenta(glyph: &str) -> (r: String)
    ensures
        !glyph@.contains(ESCAPE) ==> plain_or_magenta(r@, glyph@),
{
    colored::Colorize::magenta(glyph).to_string()
}

/// The lines, each behind its prefix and closed by a line feed: the first
/// line behind `first_prefix`, every other behind `cont_prefix`.
pub open spec fn prefixed_lines(
    first_prefix: Seq<char>,
    cont_prefix: Seq<char>,
    lines: Seq<Seq<char>>,
) -> Seq<char>
    decreases lines.len(),
{
    if lines.len() == 0 {
        Seq::empty()
    } else {
        prefixed_lines(first_prefix, cont_prefix, lines.drop_last()) + (if lines.len() == 1 {
            first_prefix
        } else {
            cont_prefix
        }) + lines.last() + seq!['\n']
    }
}

/// The lines of `text`, each behind its prefix.
pub open spec fn prefixed(first_prefix: Seq<char>, cont_prefix: Seq<char>, text: Seq<char>) -> Seq<
    char,
> {
    prefixed_lines(first_prefix, cont_prefix, lines_of(text))
}

/// Whether node `i` of `n` is the last.
pub open spec fn is_last_node(i: int, n: int) -> bool {
    i + 1 == n
}

/// The glyph before the context of node `i` of `n`.
pub open spec fn head_glyph(style: StyleView, i: int, n: int, has_attachments: bool) -> Seq<char> {
    if i == 0 && !is_last_node(i, n) {
        style.head_first
    } else if is_last_node(i, n) && !has_attachments {
        style.head_last
    } else {
        style.head_inner
    }
}

/// The glyph before the further lines of the context of node `i` of `n`.
pub open spec fn cont_glyph(style: StyleView, i: int, n: int, has_attachments: bool) -> Seq<char> {
    if is_last_node(i, n) && !has_attachments {
        style.cont_closed
    } else {
        style.cont_open
    }
}

/// The first `count` attachments as drawn. `closes` says whether the node is
/// the last one, so that its last attachment closes the tree.
pub open spec fn attachments_text(
    style: StyleView,
    attachments: Seq<Seq<char>>,
    closes: bool,
    count: int,
) -> Seq<char>
    decreases count,
{
    if count <= 0 {
        Seq::empty()
    } else {
        let ends_tree = closes && count == attachments.len();
        attachments_text(style, attachments, closes, count - 1) + prefixed(
            if ends_tree {
                style.attachment_last
            } else {
                style.attachment_inner
            },
            if ends_tree {
                style.attachment_cont_closed
            } else {
                style.attachment_cont_open
            },
            attachments[count - 1],
        )
    }
}

/// Node `i` of `n` as drawn: its context, its attachments, and a spacer line
/// unless it is the last node.
pub open spec fn node_text(style: StyleView, node: ReportNode, i: int, n: int) -> Seq<char> {
    let has_attachments = node.attachments.len() > 0;
    prefixed(
        head_glyph(style, i, n, has_attachments),
        cont_glyph(style, i, n, has_attachments),
        node.context@,
    ) + attachments_text(
        style,
        texts(node.attachments@),
        is_last_node(i, n),
        node.attachments.len() as int,
    ) + (if is_last_node(i, n) {
        Seq::empty()
    } else {
        style.spacer + seq!['\n']
    })
}

/// The first `count` nodes of a chain as drawn.
pub open spec fn chain_text(style: StyleView, chain: Seq<ReportNode>, count: int) -> Seq<char>
    decreases count,
{
    if count <= 0 {
        Seq::empty()
    } else {
        chain_text(style, chain, count - 1) + node_text(
            style,
            chain[count - 1],
            count - 1,
            chain.len() as int,
        )
    }
}

/// The first `count` reports as drawn, an empty line between two of them.
pub open spec fn reports_text(style: StyleView, reports: Seq<Vec<ReportNode>>, count: int) -> Seq<
    char,
>
    decreases count,
{
    if count <= 0 {
        Seq::empty()
    } else {
        reports_text(style, reports, count - 1) + (if count > 1 {
            seq!['\n']
        } else {
            Seq::empty()
        }) + chain_text(style, reports[count - 1]@, reports[count - 1].len() as int)
    }
}

impl TreeStyle {
    /// The glyphs without any colour.
    pub fn plain() -> (style: TreeStyle)
        ensures
            style@ == plain_style(),
    {
        TreeStyle {
            head_first: String::from_str("┌─ "),
            head_inner: String::from_str("├─ "),
            head_last: String::from_str("└─ "),
            cont_open: String::from_str("│  "),
            cont_closed: String::from_str("   "),
            attachment_inner: String::from_str("├── "),
            attachment_last: String::from_str("└── "),
            attachment_cont_open: String::from_str("│   "),
            attachment_cont_closed: String::from_str("    "),
            spacer: String::from_str("┆"),
        }
    }

    /// The glyphs in magenta, where the terminal and the environment allow
    /// colour, and without colour where they do not.
    pub fn magenta() -> (style: TreeStyle)
        ensures
            is_magenta_style(style@),
    {
        proof {
            reveal_strlit("┌─ ");
            reveal_strlit("├─ ");
            reveal_strlit("└─ ");
            reveal_strlit("│  ");
            reveal_strlit("   ");
            reveal_strlit("├── ");
            reveal_strlit("└── ");
            reveal_strlit("│   ");
            reveal_strlit("    ");
            reveal_strlit("┆");
        }
        TreeStyle {
            head_first: paint_magenta("┌─ "),
            head_inner: paint_magenta("├─ "),
            head_last: paint_magenta("└─ "),
            cont_open: paint_magenta("│  "),
            cont_closed: paint_magenta("   "),
            attachment_inner: paint_magenta("├── "),
            attachment_last: paint_magenta("└── "),
            attachment_cont_open: paint_magenta("│   "),
            attachment_cont_closed: paint_magenta("    "),
            spacer: paint_magenta("┆"),
        }
    }
}

/// Draws error reports as trees.
#[derive(Clone, Copy, Debug)]
pub struct TreeFormatter;

impl TreeFormatter {
    /// Appends the lines of `text` to `out`, the first behind `first_prefix`,
    /// every other behind `cont_prefix`, each closed by a line feed.
    pub fn write_prefixed_lines(
        out: &mut String,
        first_prefix: &str,
        cont_prefix: &str,
        text: &str,
    )
        ensures
            final(out)@ == old(out)@ + prefixed(first_prefix@, cont_prefix@, text@),
    {
        let lines = split_lines(text);
        let ghost all = texts(lines@);
        let mut i: usize = 0;
        while i < lines.len()
            invariant
                i <= lines.len(),
                all == texts(lines@),
                out@ == old(out)@ + prefixed_lines(first_prefix@, cont_prefix@, all.take(i as int)),
            decreases lines.len() - i,
        {
            if i == 0 {
                out.append(first_prefix);
            } else {
                out.append(cont_prefix);
            }
            out.append(lines[i].as_str());
            out.append("\n");
            proof {
                reveal_strlit("\n");
                let seen = all.take(i + 1);
                assert(seen.drop_last() =~= all.take(i as int));
            }
            i += 1;
        }
        assert(all.take(lines.len() as int) =~= all);
    }

    /// Appends node `i` of a chain of `n` nodes to `out`.
    pub fn format_one(out: &mut String, style: &TreeStyle, node: &ReportNode, i: usize, n: usize)
        ensures
            final(out)@ == old(out)@ + node_text(style@, *node, i as int, n as int),
    {
        let is_first = i == 0;
        let is_last = i < usize::MAX && i + 1 == n;
        let has_attachments = node.attachments.len() > 0;
        let head = if is_first && !is_last {
            style.head_first.as_str()
        } else if is_last && !has_attachments {
            style.head_last.as_str()
        } else {
            style.head_inner.as_str()
        };
        let head_cont = if is_last && !has_attachments {
            style.cont_closed.as_str()
        } else {
            style.cont_open.as_str()
        };
        Self::write_prefixed_lines(out, head, head_cont, node.context.as_str());
        let ghost after_context = out@;
        let ghost attachments = texts(node.attachments@);
        let mut k: usize = 0;
        while k < node.attachments.len()
            invariant
                k <= node.attachments.len(),
                attachments == texts(node.attachments@),
                is_last == is_last_node(i as int, n as int),
                out@ == after_context + attachments_text(style@, attachments, is_last, k as int),
            decreases node.attachments.len() - k,
        {
            let ends_tree = is_last && k + 1 == node.attachments.len();
            let attachment_head = if ends_tree {
                style.attachment_last.as_str()
            } else {
                style.attachment_inner.as_str()
            };
            let attachment_cont = if ends_tree {
                style.attachment_cont_closed.as_str()
            } else {
                style.attachment_cont_open.as_str()
            };
            Self::write_prefixed_lines(
                out,
                attachment_head,
                attachment_cont,
                node.attachments[k].as_str(),
            );
            k += 1;
        }
        if !is_last {
            out.append(style.spacer.as_str());
            out.append("\n");
            proof {
                reveal_strlit("\n");
            }
        }
    }

    /// Appends a whole chain to `out`, node by node.
    pub fn format_chain(out: &mut String, style: &TreeStyle, chain: &Vec<ReportNode>)
        ensures
            final(out)@ == old(out)@ + chain_text(style@, chain@, chain.len() as int),
    {
        let mut i: usize = 0;
        while i < chain.len()
            invariant
                i <= chain.len(),
                out@ == old(out)@ + chain_text(style@, chain@, i as int),
            decreases chain.len() - i,
        {
            Self::format_one(out, style, &chain[i], i, chain.len());
            i += 1;
        }
    }

    /// Appends all reports to `out`, an empty line between two of them.
    pub fn format_reports(&self, out: &mut String, style: &TreeStyle, reports: &Vec<Vec<ReportNode>>)
        ensures
            final(out)@ == old(out)@ + reports_text(style@, reports@, reports.len() as int),
    {
        let mut i: usize = 0;
        while i < reports.len()
            invariant
                i <= reports.len(),
                out@ == old(out)@ + reports_text(style@, reports@, i as int),
            decreases reports.len() - i,
        {
            if i > 0 {
                out.append("\n");
                proof {
                    reveal_strlit("\n");
                }
            }
            Self::format_chain(out, style, &reports[i]);
            i += 1;
        }
    }
}

} // verus!
