use release::tree::{ReportNode, TreeFormatter, TreeStyle};

fn node(context: &str, attachments: &[&str]) -> ReportNode {
    ReportNode {
        context: context.to_string(),
        attachments: attachments.iter().map(|a| a.to_string()).collect(),
    }
}

fn drawn(chain: &[ReportNode]) -> String {
    let mut out = String::new();
    TreeFormatter::format_chain(&mut out, &TreeStyle::plain(), &chain.to_vec());
    out
}

#[test]
fn lines_get_their_prefixes() {
    let mut out = String::from("start\n");
    TreeFormatter::write_prefixed_lines(&mut out, "> ", "| ", "one\ntwo\r\nthree");
    assert_eq!(out, "start\n> one\n| two\n| three\n");

    let mut single = String::new();
    TreeFormatter::write_prefixed_lines(&mut single, "> ", "| ", "one");
    assert_eq!(single, "> one\n");

    let mut blank = String::new();
    TreeFormatter::write_prefixed_lines(&mut blank, "> ", "| ", "\n\nx\n");
    assert_eq!(blank, "> \n| \n| x\n");
}

#[test]
fn an_empty_text_writes_nothing() {
    let mut out = String::from("kept");
    TreeFormatter::write_prefixed_lines(&mut out, "> ", "| ", "");
    assert_eq!(out, "kept");
}

#[test]
fn a_single_node_closes_the_tree() {
    assert_eq!(drawn(&[node("it failed", &[])]), "└─ it failed\n");
    assert_eq!(drawn(&[node("it failed\nbadly", &[])]), "└─ it failed\n   badly\n");
}

#[test]
fn a_chain_of_nodes() {
    let chain = [node("Could not create release", &[]), node("Could not get commits", &[]), node("no semver tags found", &[])];
    assert_eq!(
        drawn(&chain),
        "┌─ Could not create release\n┆\n├─ Could not get commits\n┆\n└─ no semver tags found\n"
    );
}

#[test]
fn attachments_hang_below_their_node() {
    let chain = [node("outer\nmore", &["at src/main.rs:1"]), node("inner", &["first\nsecond", "last"])];
    assert_eq!(
        drawn(&chain),
        "┌─ outer\n│  more\n├── at src/main.rs:1\n┆\n├─ inner\n├── first\n│   second\n└── last\n"
    );
}

#[test]
fn the_last_attachment_of_the_last_node_closes_the_tree() {
    let mut out = String::new();
    let style = TreeStyle::plain();
    TreeFormatter::format_one(&mut out, &style, &node("ctx", &["a\nb"]), 0, 1);
    assert_eq!(out, "├─ ctx\n└── a\n    b\n");

    let mut middle = String::new();
    TreeFormatter::format_one(&mut middle, &style, &node("ctx", &["a\nb"]), 1, 3);
    assert_eq!(middle, "├─ ctx\n├── a\n│   b\n┆\n");

    let mut first = String::new();
    TreeFormatter::format_one(&mut first, &style, &node("ctx", &[]), 0, 2);
    assert_eq!(first, "┌─ ctx\n┆\n");
}

#[test]
fn positions_beyond_the_chain_are_drawn_as_inner_nodes() {
    let mut out = String::new();
    TreeFormatter::format_one(&mut out, &TreeStyle::plain(), &node("ctx", &[]), usize::MAX, 0);
    assert_eq!(out, "├─ ctx\n┆\n");
}

#[test]
fn reports_are_set_apart_by_an_empty_line() {
    let reports = vec![vec![node("first", &[])], vec![node("second", &[]), node("cause", &[])]];
    let mut out = String::new();
    TreeFormatter.format_reports(&mut out, &TreeStyle::plain(), &reports);
    assert_eq!(out, "└─ first\n\n┌─ second\n┆\n└─ cause\n");

    let mut none = String::new();
    TreeFormatter.format_reports(&mut none, &TreeStyle::plain(), &Vec::new());
    assert_eq!(none, "");
}

#[test]
fn the_plain_style_has_no_colour() {
    let style = TreeStyle::plain();
    assert_eq!(style.head_first, "┌─ ");
    assert_eq!(style.head_inner, "├─ ");
    assert_eq!(style.head_last, "└─ ");
    assert_eq!(style.cont_open, "│  ");
    assert_eq!(style.cont_closed, "   ");
    assert_eq!(style.attachment_inner, "├── ");
    assert_eq!(style.attachment_last, "└── ");
    assert_eq!(style.attachment_cont_open, "│   ");
    assert_eq!(style.attachment_cont_closed, "    ");
    assert_eq!(style.spacer, "┆");
}

#[test]
fn the_magenta_style_follows_the_terminal() {
    colored::control::set_override(true);
    let painted = TreeStyle::magenta();
    assert_eq!(painted.head_first, "\u{1b}[35m┌─ \u{1b}[0m");
    assert_eq!(painted.cont_closed, "\u{1b}[35m   \u{1b}[0m");
    assert_eq!(painted.spacer, "\u{1b}[35m┆\u{1b}[0m");
    let mut out = String::new();
    TreeFormatter::format_chain(&mut out, &painted, &vec![node("a\nb", &[]), node("c", &[])]);
    assert_eq!(
        out,
        "\u{1b}[35m┌─ \u{1b}[0ma\n\u{1b}[35m│  \u{1b}[0mb\n\u{1b}[35m┆\u{1b}[0m\n\u{1b}[35m└─ \u{1b}[0mc\n"
    );

    colored::control::set_override(false);
    let bare = TreeStyle::magenta();
    assert_eq!(bare.head_first, "┌─ ");
    assert_eq!(bare.attachment_last, "└── ");
    colored::control::unset_override();
}
