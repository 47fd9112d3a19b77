use git2::{Commit, Repository, Signature, Time};
use release::base::ResolvedBase;
use release::commit::{get_abbreviated_hash, get_short_message, CommitId};
use release::error::{HeadProblem, ResolveError};
use release::remote_url::RemoteUrlError;
use release::base::HeadLookup;
use release::resolve::{
    candidate_from_scan, commits_since, get_commits_after_latest_tag, get_org_and_repo,
    list_tags, look_up_head, look_up_origin_head, look_up_remote_default, peel_tag, record_of,
    resolve_default_base, resolve_from_origin_head, resolve_from_remote_default, search_base,
    select_latest_semver_tag, target_of, walk_history,
};
use release::tags::TagListing;
use release::walk::WalkEnd;
use std::time::{SystemTime, UNIX_EPOCH};

fn scratch_dir(prefix: &str, name_suffix: &str) -> String {
    let stamp = SystemTime::now().duration_since(UNIX_EPOCH).unwrap().as_nanos();
    format!("/tmp/{prefix}_{name_suffix}_{stamp}")
}

fn init_repo_with_remote(url: &str, name_suffix: &str) -> Repository {
    let repo = Repository::init(scratch_dir("git2_org_repo_test", name_suffix)).unwrap();
    repo.remote("origin", url).unwrap();
    repo
}

fn init_repo(name_suffix: &str) -> Repository {
    Repository::init(scratch_dir("git2_commits_after_tag_test", name_suffix)).unwrap()
}

fn commit_at<'a>(
    repo: &'a Repository,
    path: &str,
    contents: &str,
    message: &str,
    sig: &Signature<'_>,
) -> Commit<'a> {
    let blob = repo.blob(contents.as_bytes()).unwrap();
    let mut builder = repo.treebuilder(None).unwrap();
    builder.insert(path, blob, 0o100644).unwrap();
    let tree_oid = builder.write().unwrap();
    let tree = repo.find_tree(tree_oid).unwrap();

    // If HEAD exists, use it as parent; otherwise create an initial commit
    let parents: Vec<Commit> = match repo.head() {
        Ok(head) => vec![head.peel_to_commit().unwrap()],
        Err(_) => Vec::new(),
    };
    let parent_refs: Vec<&Commit> = parents.iter().collect();

    let oid = repo
        .commit(Some("HEAD"), sig, sig, message, &tree, &parent_refs)
        .unwrap();

    repo.find_commit(oid).unwrap()
}

fn commit_file<'a>(repo: &'a Repository, path: &str, contents: &str, message: &str) -> Commit<'a> {
    let sig = Signature::now("Test User", "test@example.com").unwrap();
    commit_at(repo, path, contents, message, &sig)
}

fn id_of(commit: &Commit<'_>) -> CommitId {
    CommitId { hex: commit.id().to_string() }
}

#[test]
fn parses_git_ssh_github_url() {
    let repo = init_repo_with_remote("git@github.com:my-org/my-repo.git", "ssh");

    let (org, name) = get_org_and_repo(&repo).unwrap();
    assert_eq!(org, "my-org");
    assert_eq!(name, "my-repo");
}

#[test]
fn parses_https_github_url() {
    let repo = init_repo_with_remote("https://github.com/another-org/awesome-repo.git", "https");

    let (org, name) = get_org_and_repo(&repo).unwrap();
    assert_eq!(org, "another-org");
    assert_eq!(name, "awesome-repo");
}

#[test]
fn parses_ssh_scheme_with_host() {
    let repo = init_repo_with_remote(
        "ssh://git@github.com/yet-another-org/cool-repo.git",
        "ssh_scheme",
    );

    let (org, name) = get_org_and_repo(&repo).unwrap();
    assert_eq!(org, "yet-another-org");
    assert_eq!(name, "cool-repo");
}

#[test]
fn errors_when_no_origin_remote() {
    // Repo with no remotes at all
    let repo = Repository::init(scratch_dir("git2_org_repo_test", "no_origin")).unwrap();

    let err = get_org_and_repo(&repo).unwrap_err();
    assert!(matches!(err, RemoteUrlError::NoOrigin { .. }));
    let msg = err.message();
    assert!(
        msg.contains("Could not find remote 'origin'"),
        "unexpected error message: {msg}"
    );
}

#[test]
fn remote_that_is_not_github_is_refused() {
    let repo = init_repo_with_remote("https://example.org/some-org/some-repo.git", "elsewhere");
    let err = get_org_and_repo(&repo).unwrap_err();
    assert_eq!(
        err.message(),
        "URL 'https://example.org/some-org/some-repo.git' does not look like a GitHub URL"
    );
}

#[test]
fn returns_commits_after_latest_semver_tag() {
    let repo = init_repo("with_tags");

    // commit 1
    let c1 = commit_file(&repo, "file.txt", "one", "commit 1");

    // tag 1.0.0 on c1
    let sig = git2::Signature::now("Test User", "test@example.com").unwrap();
    repo.tag("1.0.0", c1.as_object(), &sig, "tag 1.0.0", false)
        .unwrap();

    // commit 2
    let c2 = commit_file(&repo, "file.txt", "two", "commit 2");

    // tag 1.1.0 on c2 (this should be the *latest* semver tag)
    repo.tag("1.1.0", c2.as_object(), &sig, "tag 1.1.0", false)
        .unwrap();

    // commit 3 (after latest tag)
    let c3 = commit_file(&repo, "file.txt", "three", "commit 3");

    let range = get_commits_after_latest_tag(&repo).unwrap();
    let (latest_tag_ref, commits_after) = (range.tag.reference, range.commits);

    assert_eq!(latest_tag_ref.shorthand(), Some("1.1.0"));
    assert_eq!(range.tag.pick.name, "1.1.0");
    let version = &range.tag.pick.version;
    assert_eq!((version.major, version.minor, version.patch), (1, 1, 0));

    // We only created one commit after 1.1.0, so we expect exactly that one.
    assert_eq!(commits_after.len(), 1);
    assert_eq!(commits_after[0].id.hex, c3.id().to_string());
    assert_eq!(commits_after[0].message.as_deref(), Some("commit 3"));
    assert_eq!(commits_after[0].parents.len(), 1);
    assert_eq!(commits_after[0].parents[0].hex, c2.id().to_string());
}

#[test]
fn errors_when_no_tags() {
    let repo = init_repo("no_tags");

    // A couple of commits but *no tags*
    let _c1 = commit_file(&repo, "file.txt", "one", "commit 1");
    let _c2 = commit_file(&repo, "file.txt", "two", "commit 2");

    let res = get_commits_after_latest_tag(&repo);

    assert!(res.is_err());
    let err = res.err().unwrap();
    assert!(matches!(err, ResolveError::NoMatchingTags));
    let msg = err.message();
    assert!(
        msg.contains("no semver tags found"),
        "unexpected error message: {msg}"
    );
}

#[test]
fn tags_that_are_no_versions_do_not_count() {
    let repo = init_repo("odd_tags");
    let c1 = commit_file(&repo, "file.txt", "one", "commit 1");
    repo.tag_lightweight("latest", c1.as_object(), false).unwrap();
    repo.tag_lightweight("alpha", c1.as_object(), false).unwrap();
    assert!(matches!(
        select_latest_semver_tag(&repo),
        Err(ResolveError::NoMatchingTags)
    ));

    repo.tag_lightweight("v0.9.0", c1.as_object(), false).unwrap();
    let c2 = commit_file(&repo, "file.txt", "two", "commit 2");
    repo.tag_lightweight("0.10.0", c2.as_object(), false).unwrap();
    let tag = select_latest_semver_tag(&repo).unwrap();
    assert_eq!(tag.pick.name, "0.10.0");
    assert_eq!(tag.reference.name(), Some("refs/tags/0.10.0"));
    assert_eq!(tag.reference.shorthand(), Some("0.10.0"));
    assert_eq!(tag.pick.version.minor, 10);
}

#[test]
fn lightweight_and_annotated_tags_both_lead_to_their_commit() {
    let repo = init_repo("tag_kinds");
    let c1 = commit_file(&repo, "file.txt", "one", "commit 1");
    repo.tag_lightweight("v2.0.0", c1.as_object(), false).unwrap();
    let c2 = commit_file(&repo, "file.txt", "two", "commit 2");
    let c3 = commit_file(&repo, "file.txt", "three", "commit 3");

    let range = get_commits_after_latest_tag(&repo).unwrap();
    assert_eq!(range.tag.pick.name, "v2.0.0");
    assert_eq!(range.tag.reference.shorthand(), Some("v2.0.0"));
    let ids: Vec<String> = range.commits.iter().map(|c| c.id.hex.clone()).collect();
    assert_eq!(ids.len(), 2);
    assert!(ids.contains(&c2.id().to_string()));
    assert!(ids.contains(&c3.id().to_string()));
}

#[test]
fn resolving_twice_gives_the_same() {
    let repo = init_repo("twice");
    let c1 = commit_file(&repo, "file.txt", "one", "commit 1");
    repo.tag_lightweight("1.0.0", c1.as_object(), false).unwrap();
    let _c2 = commit_file(&repo, "file.txt", "two", "commit 2");
    let _c3 = commit_file(&repo, "file.txt", "three", "commit 3");

    let first = get_commits_after_latest_tag(&repo).unwrap();
    let second = get_commits_after_latest_tag(&repo).unwrap();
    assert_eq!(first.tag.pick.name, second.tag.pick.name);
    assert_eq!(first.tag.pick.index, second.tag.pick.index);
    assert_eq!(first.tag.reference.name(), second.tag.reference.name());
    let a: Vec<(String, Option<String>)> =
        first.commits.iter().map(|c| (c.id.hex.clone(), c.message.clone())).collect();
    let b: Vec<(String, Option<String>)> =
        second.commits.iter().map(|c| (c.id.hex.clone(), c.message.clone())).collect();
    assert_eq!(a, b);
    assert_eq!(a.len(), 2);
}

#[test]
fn commits_come_latest_first() {
    let repo = init_repo("by_time");
    let early = Signature::new("Test User", "test@example.com", &Time::new(1_000_000, 0)).unwrap();
    let middle = Signature::new("Test User", "test@example.com", &Time::new(2_000_000, 0)).unwrap();
    let late = Signature::new("Test User", "test@example.com", &Time::new(3_000_000, 0)).unwrap();
    let c1 = commit_at(&repo, "file.txt", "one", "commit 1", &early);
    repo.tag_lightweight("1.0.0", c1.as_object(), false).unwrap();
    let c2 = commit_at(&repo, "file.txt", "two", "commit 2", &middle);
    let c3 = commit_at(&repo, "file.txt", "three", "commit 3", &late);

    let commits = commits_since(&repo, &id_of(&c1), &id_of(&c3)).unwrap();
    let ids: Vec<String> = commits.iter().map(|c| c.id.hex.clone()).collect();
    assert_eq!(ids, vec![c3.id().to_string(), c2.id().to_string()]);
}

#[test]
fn without_a_merge_base_the_whole_history_is_given() {
    let repo = init_repo("no_merge_base");
    let c1 = commit_file(&repo, "file.txt", "one", "commit 1");
    let c2 = commit_file(&repo, "file.txt", "two", "commit 2");
    // An identifier that names no commit of this repository.
    let stranger = CommitId { hex: "0123456789abcdef0123456789abcdef01234567".to_string() };

    let commits = commits_since(&repo, &stranger, &id_of(&c2)).unwrap();
    let ids: Vec<String> = commits.iter().map(|c| c.id.hex.clone()).collect();
    assert_eq!(ids.len(), 2);
    assert!(ids.contains(&c1.id().to_string()));
    assert!(ids.contains(&c2.id().to_string()));
}

#[test]
fn a_base_that_is_no_commit_fails_the_walk() {
    let repo = init_repo("bad_base");
    let c1 = commit_file(&repo, "file.txt", "one", "commit 1");
    let stranger = CommitId { hex: "0123456789abcdef0123456789abcdef01234567".to_string() };
    let err = commits_since(&repo, &id_of(&c1), &stranger).unwrap_err();
    assert!(matches!(err, ResolveError::RevwalkInitFailed { .. } | ResolveError::WalkFailed { .. }));

    let no_hex = CommitId { hex: "not hexadecimal".to_string() };
    let err = commits_since(&repo, &id_of(&c1), &no_hex).unwrap_err();
    assert!(matches!(err, ResolveError::RevwalkInitFailed { .. }));
    assert!(err.message().starts_with("could not push base OID"));
}

#[test]
fn an_unreadable_base_cannot_be_pushed() {
    let repo = init_repo("unreadable_base");
    let c1 = commit_file(&repo, "file.txt", "one", "commit 1");
    let too_long = "0123456789abcdef0123456789abcdef012345678";
    assert_eq!(too_long.len(), 41);
    for hex in ["", too_long, "0123g", "abc def", "0123456789abcdef0123456789abcdef0123456é", "-1"] {
        let base = CommitId { hex: hex.to_string() };
        match commits_since(&repo, &id_of(&c1), &base) {
            Err(ResolveError::RevwalkInitFailed { step, cause }) => {
                assert_eq!(step, release::error::WalkStep::PushBase, "base {hex:?}");
                assert!(!cause.is_empty(), "base {hex:?}");
            }
            _ => panic!("the unreadable base {hex:?} was walked from"),
        }
        let answers = walk_history(&repo, &id_of(&c1), &base);
        assert_eq!(answers.setup.unwrap().step, release::error::WalkStep::PushBase);
        assert!(answers.commits.is_empty());
        assert!(matches!(answers.end, WalkEnd::Finished));
    }
}

#[test]
fn the_case_of_the_letters_in_an_identifier_does_not_matter() {
    let repo = init_repo("upper_case");
    let c1 = commit_file(&repo, "file.txt", "one", "commit 1");
    let c2 = commit_file(&repo, "file.txt", "two", "commit 2");
    let tag = CommitId { hex: c1.id().to_string().to_uppercase() };
    let base = CommitId { hex: c2.id().to_string().to_uppercase() };
    let commits = commits_since(&repo, &tag, &base).unwrap();
    assert_eq!(commits.len(), 1);
    assert_eq!(commits[0].id.hex, c2.id().to_string());
}

#[test]
fn an_unreadable_tag_commit_has_no_merge_base() {
    let repo = init_repo("unreadable_tag");
    let _c1 = commit_file(&repo, "file.txt", "one", "commit 1");
    let c2 = commit_file(&repo, "file.txt", "two", "commit 2");
    let commits = commits_since(&repo, &CommitId { hex: "no id".to_string() }, &id_of(&c2)).unwrap();
    assert_eq!(commits.len(), 2);
}

#[test]
fn the_tag_itself_gives_an_empty_range() {
    let repo = init_repo("nothing_new");
    let c1 = commit_file(&repo, "file.txt", "one", "commit 1");
    repo.tag_lightweight("v1.0.0", c1.as_object(), false).unwrap();
    let range = get_commits_after_latest_tag(&repo).unwrap();
    assert!(range.commits.is_empty());
}

#[test]
fn without_a_remote_the_current_head_is_the_base() {
    let repo = init_repo("head_only");
    let c1 = commit_file(&repo, "file.txt", "one", "commit 1");

    assert!(resolve_from_origin_head(&repo).is_none());
    assert!(resolve_from_remote_default(&repo).is_none());
    let ResolvedBase { name, commit } = resolve_default_base(&repo).unwrap();
    assert_eq!(Some(name.as_str()), repo.head().unwrap().name());
    assert_eq!(commit.hex, c1.id().to_string());
    assert_eq!(commit.hex.len(), 40);
}

#[test]
fn the_remote_head_reference_is_asked_first() {
    let repo = init_repo("origin_head");
    let c1 = commit_file(&repo, "file.txt", "one", "commit 1");
    let c2 = commit_file(&repo, "file.txt", "two", "commit 2");
    repo.reference("refs/remotes/origin/trunk", c1.id(), true, "tracking").unwrap();
    repo.reference_symbolic(
        "refs/remotes/origin/HEAD",
        "refs/remotes/origin/trunk",
        true,
        "remote head",
    )
    .unwrap();

    // No local branch of that name: the remote-tracking branch answers.
    let base = resolve_from_origin_head(&repo).unwrap();
    assert_eq!(base.name, "refs/remotes/origin/trunk");
    assert_eq!(base.commit.hex, c1.id().to_string());

    // With a local branch of that name, the local branch is preferred.
    repo.reference("refs/heads/trunk", c2.id(), true, "local").unwrap();
    let base = resolve_default_base(&repo).unwrap();
    assert_eq!(base.name, "refs/heads/trunk");
    assert_eq!(base.commit.hex, c2.id().to_string());
}

#[test]
fn an_empty_repository_has_no_head() {
    let repo = init_repo("empty");
    let err = resolve_default_base(&repo).unwrap_err();
    match &err {
        ResolveError::NoHead { problem, cause } => {
            assert_eq!(*problem, HeadProblem::Missing);
            assert!(!cause.is_empty());
        }
        other => panic!("unexpected error: {}", other.message()),
    }
    assert!(err.message().starts_with("repository has no HEAD: "));
    assert!(matches!(look_up_head(&repo), HeadLookup::Missing { .. }));
}

#[test]
fn the_search_runs_the_strategies_in_order() {
    let repo = init_repo("search");
    let c1 = commit_file(&repo, "file.txt", "one", "commit 1");

    // Neither the reference for the remote's HEAD nor a remote is there:
    // both strategies are run and give nothing, and HEAD is asked.
    let search = search_base(&repo);
    assert!(search.origin_head.symbolic_target.is_none());
    assert!(search.origin_head.local_target.is_none());
    assert!(search.origin_head.tracking_target.is_none());
    let second = search.remote_default.expect("the second strategy was not run");
    assert!(second.advertised.is_none());
    assert!(second.direct_target.is_none());
    match search.head.expect("the current HEAD was not asked") {
        HeadLookup::Found(head) => assert_eq!(head.target.unwrap().hex, c1.id().to_string()),
        HeadLookup::Missing { cause } => panic!("no HEAD: {cause}"),
    }

    // With the reference for the remote's HEAD, nothing else is asked.
    repo.reference("refs/remotes/origin/trunk", c1.id(), true, "tracking").unwrap();
    repo.reference_symbolic(
        "refs/remotes/origin/HEAD",
        "refs/remotes/origin/trunk",
        true,
        "remote head",
    )
    .unwrap();
    let search = search_base(&repo);
    assert_eq!(search.origin_head.symbolic_target.as_deref(), Some("refs/remotes/origin/trunk"));
    assert!(search.origin_head.local_target.is_none());
    assert_eq!(search.origin_head.tracking_target.unwrap().hex, c1.id().to_string());
    assert!(search.remote_default.is_none());
    assert!(search.head.is_none());
}

#[test]
fn the_tracking_branch_is_asked_only_without_a_local_one() {
    let repo = init_repo("lazy");
    let c1 = commit_file(&repo, "file.txt", "one", "commit 1");
    repo.reference("refs/remotes/origin/trunk", c1.id(), true, "tracking").unwrap();
    repo.reference("refs/heads/trunk", c1.id(), true, "local").unwrap();
    repo.reference_symbolic(
        "refs/remotes/origin/HEAD",
        "refs/remotes/origin/trunk",
        true,
        "remote head",
    )
    .unwrap();
    let seen = look_up_origin_head(&repo);
    assert_eq!(seen.local_target.unwrap().hex, c1.id().to_string());
    assert!(seen.tracking_target.is_none());
}

#[test]
fn a_remote_that_was_never_connected_advertises_nothing() {
    let repo = init_repo_with_remote("https://github.com/some-org/some-repo.git", "unconnected");
    let _c1 = commit_file(&repo, "file.txt", "one", "commit 1");
    let seen = look_up_remote_default(&repo);
    assert!(seen.advertised.is_none());
    assert!(seen.direct_target.is_none());
    assert!(seen.tracking_target.is_none());
    assert!(resolve_from_remote_default(&repo).is_none());
}

#[test]
fn the_tags_are_listed_with_their_references() {
    let repo = init_repo("listing");
    let c1 = commit_file(&repo, "file.txt", "one", "commit 1");
    repo.tag_lightweight("latest", c1.as_object(), false).unwrap();
    repo.tag_lightweight("v1.0.0", c1.as_object(), false).unwrap();
    let scan = list_tags(&repo);
    match &scan.listing {
        TagListing::Listed { names, broke_off } => {
            assert!(broke_off.is_none());
            let mut listed: Vec<String> = names.iter().map(|n| n.clone().unwrap()).collect();
            listed.sort();
            assert_eq!(listed, vec!["latest", "v1.0.0"]);
            assert_eq!(scan.references.len(), names.len());
            for (name, reference) in names.iter().zip(scan.references.iter()) {
                assert_eq!(name.as_deref(), reference.shorthand());
            }
        }
        TagListing::Unavailable { cause } => panic!("the tags could not be listed: {cause}"),
    }
    let tag = candidate_from_scan(scan).unwrap();
    assert_eq!(tag.pick.name, "v1.0.0");
    assert_eq!(tag.reference.name(), Some("refs/tags/v1.0.0"));
    assert_eq!(peel_tag(&tag).unwrap().hex, c1.id().to_string());
}

#[test]
fn a_tag_that_leads_to_no_commit_cannot_be_peeled() {
    let repo = init_repo("tree_tag");
    let c1 = commit_file(&repo, "file.txt", "one", "commit 1");
    let tree = c1.tree().unwrap();
    repo.tag_lightweight("v1.0.0", tree.as_object(), false).unwrap();
    let tag = select_latest_semver_tag(&repo).unwrap();
    match peel_tag(&tag) {
        Err(ResolveError::PeelFailed { tag, cause }) => {
            assert_eq!(tag, "refs/tags/v1.0.0");
            assert!(!cause.is_empty());
        }
        _ => panic!("a tag on a tree was peeled to a commit"),
    }
    let err = get_commits_after_latest_tag(&repo).err().unwrap();
    assert!(err.message().starts_with("could not peel tag refs/tags/v1.0.0: "));
}

#[test]
fn the_walk_hands_back_what_it_was_answered() {
    let repo = init_repo("answers");
    let c1 = commit_file(&repo, "file.txt", "one", "commit 1");
    let c2 = commit_file(&repo, "file.txt", "two", "commit 2");
    let answers = walk_history(&repo, &id_of(&c1), &id_of(&c2));
    assert!(answers.setup.is_none());
    assert!(matches!(answers.end, WalkEnd::Finished));
    assert_eq!(answers.commits.len(), 1);
    assert_eq!(answers.commits[0].id.hex, c2.id().to_string());

    let no_hex = CommitId { hex: "xyz".to_string() };
    let failed = walk_history(&repo, &id_of(&c1), &no_hex);
    assert_eq!(failed.setup.unwrap().step, release::error::WalkStep::PushBase);
    assert!(failed.commits.is_empty());
}

#[test]
fn target_of_reads_direct_references_only() {
    let repo = init_repo("targets");
    let c1 = commit_file(&repo, "file.txt", "one", "commit 1");
    let head_name = repo.head().unwrap().name().unwrap().to_string();
    assert_eq!(target_of(&repo, &head_name).unwrap().hex, c1.id().to_string());
    assert!(target_of(&repo, "refs/heads/no-such-branch").is_none());
    // HEAD itself is symbolic.
    assert!(target_of(&repo, "HEAD").is_none());
}

#[test]
fn get_short_message_truncates_at_first_newline() {
    let repo = init_repo("short_message_truncate");

    // Multi-line commit message
    let msg = "First line of message\nSecond line\nThird line";
    let commit = commit_file(&repo, "file.txt", "contents", msg);

    let short = get_short_message(&record_of(id_of(&commit), &commit));
    assert_eq!(short, "First line of message");
}

#[test]
fn get_short_message_returns_full_when_no_newline() {
    let repo = init_repo("short_message_full");

    let msg = "Single line message";
    let commit = commit_file(&repo, "file.txt", "contents", msg);

    let short = get_short_message(&record_of(id_of(&commit), &commit));
    assert_eq!(short, "Single line message");
}

#[test]
fn get_short_message_handles_empty_message() {
    let repo = init_repo("short_message_empty");

    let msg = "";
    let commit = commit_file(&repo, "file.txt", "contents", msg);

    let short = get_short_message(&record_of(id_of(&commit), &commit));
    assert_eq!(short, "");
}

#[test]
fn get_abbreviated_hash_truncates_to_7_chars() {
    // Construct a known Oid from a full 40-char hex string
    let oid = git2::Oid::from_str("0123456789abcdef0123456789abcdef01234567").unwrap();
    let full = oid.to_string();

    // Sanity: git2 always gives a 40-char hex string here
    assert!(full.len() > 7);

    let short = get_abbreviated_hash(&CommitId { hex: full.clone() });

    assert_eq!(short.len(), 7);
    assert_eq!(short, &full[..7]);
}
