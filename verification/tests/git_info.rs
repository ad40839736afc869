use mosaic_core::git_info::{
    git_marker_path, git_root_step, parse_git_remote_urls, resolve_path, GitRootStep,
};

#[test]
fn test_parse_git_remote_urls() {
    let input = "origin\thttps://github.com/user/repo.git (fetch)\norigin\thttps://github.com/user/repo.git (push)\n";
    let result = parse_git_remote_urls(input).unwrap();
    assert_eq!(result.len(), 1);
    assert_eq!(result.get("origin").unwrap(), "https://github.com/user/repo.git");
}

#[test]
fn parse_git_remote_urls_keeps_every_remote() {
    let input = "origin\thttps://a/x.git (fetch)\nupstream\thttps://b/y.git (fetch)\n";
    let result = parse_git_remote_urls(input).unwrap();
    assert_eq!(result.len(), 2);
    assert_eq!(result.get("upstream").unwrap(), "https://b/y.git");
}

#[test]
fn parse_git_remote_urls_without_remotes_is_none() {
    assert!(parse_git_remote_urls("").is_none());
    assert!(parse_git_remote_urls("garbage line\n").is_none());
}

#[test]
fn marker_and_resolved_paths() {
    assert_eq!(git_marker_path("/repo"), "/repo/.git");
    assert_eq!(git_marker_path("/repo/"), "/repo/.git");
    assert_eq!(resolve_path("/base", "/abs"), "/abs");
    assert_eq!(resolve_path("", "rel"), "rel");
}

#[test]
fn test_get_git_repo_root_finds_repo() {
    assert_eq!(git_root_step("/tmp/myrepo/a/b/c", false), GitRootStep::Ascend("/tmp/myrepo/a/b".into()));
    assert_eq!(git_root_step("/tmp/myrepo", true), GitRootStep::Found("/tmp/myrepo".into()));
}

#[test]
fn test_get_git_repo_root_returns_none() {
    assert_eq!(git_root_step("/", false), GitRootStep::NotFound);
    assert_eq!(git_root_step("/tmp", false), GitRootStep::Ascend("/".into()));
}

use mosaic_core::git_info::{
    branch_ancestry, find_closest_sha, git_info_from, order_local_branches, parse_commit_log, parse_distance,
    parse_git_remotes, remote_show_head_branch, symref_branch, trimmed_output,
};

#[test]
fn commit_log_lines_become_entries() {
    let text = "abc123\u{1f}1700000000\u{1f}First commit\n\u{1f}17\u{1f}no sha\ndef456\u{1f}soon\u{1f} Second \nbare\n";
    let entries = parse_commit_log(text);
    assert_eq!(entries.len(), 2);
    assert_eq!(entries[0].sha, "abc123");
    assert_eq!(entries[0].timestamp, 1_700_000_000);
    assert_eq!(entries[0].subject, "First commit");
    assert_eq!(entries[1].sha, "def456");
    assert_eq!(entries[1].timestamp, 0);
    assert_eq!(entries[1].subject, "Second");
}

#[test]
fn remotes_list_origin_first() {
    assert_eq!(parse_git_remotes("upstream\norigin\nfork\n"), vec!["origin", "upstream", "fork"]);
    assert_eq!(parse_git_remotes("a\nb\n"), vec!["a", "b"]);
}

#[test]
fn default_branch_from_symref_or_remote_show() {
    assert_eq!(symref_branch("refs/remotes/origin/main\n"), Some("main".to_string()));
    assert_eq!(symref_branch("nothing"), None);
    let show = "* remote origin\n  Fetch URL: x\n  HEAD branch: (unknown)\n";
    assert_eq!(remote_show_head_branch(show), Some("(unknown)".to_string()));
    assert_eq!(remote_show_head_branch("  HEAD branch:   \n  HEAD branch: develop\n"), Some("develop".to_string()));
    assert_eq!(remote_show_head_branch("no head here"), None);
}

#[test]
fn git_info_trims_and_drops_detached_head() {
    let info = git_info_from(Some("abc\n"), Some("HEAD\n"), Some(" https://x \n"));
    assert_eq!(info.commit_hash, Some("abc".to_string()));
    assert_eq!(info.branch, None);
    assert_eq!(info.repository_url, Some("https://x".to_string()));
    let info = git_info_from(None, Some("main\n"), None);
    assert_eq!(info.branch, Some("main".to_string()));
    assert_eq!(info.commit_hash, None);
    assert_eq!(trimmed_output("  \n"), None);
    assert_eq!(trimmed_output(" feature \n"), Some("feature".to_string()));
}

#[test]
fn branch_ancestry_dedupes_in_order() {
    let listings = vec![
        ("origin".to_string(), "origin/main\norigin/feature\nupstream/x\norigin/\n".to_string()),
        ("upstream".to_string(), "upstream/main\nupstream/topic\n".to_string()),
    ];
    assert_eq!(
        branch_ancestry(Some("feature\n"), Some("main"), &listings),
        vec!["feature", "main", "topic"]
    );
    assert_eq!(branch_ancestry(Some("HEAD\n"), None, &[]), Vec::<String>::new());
}

#[test]
fn closest_remote_commit_wins() {
    let candidates = vec![
        Some((Some("aaa".to_string()), 5)),
        None,
        Some((None, 1)),
        Some((Some("bbb".to_string()), 2)),
        Some((Some("ccc".to_string()), 2)),
    ];
    assert_eq!(find_closest_sha(&candidates), Some("bbb".to_string()));
    assert_eq!(find_closest_sha(&[None, Some((None, 0))]), None);
    assert_eq!(parse_distance(" 42\n"), Some(42));
    assert_eq!(parse_distance("x"), None);
}

#[test]
fn local_branches_sorted_default_first() {
    assert_eq!(order_local_branches("zeta\n  main\n\nalpha\n", Some("main")), vec!["main", "alpha", "zeta"]);
    assert_eq!(order_local_branches("b\na\n", Some("none")), vec!["a", "b"]);
    assert_eq!(order_local_branches("b\na\n", None), vec!["a", "b"]);
}
