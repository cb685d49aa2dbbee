use check_git_status::scan::{
    branch_from_text, branch_name, check_repo_status, check_repos_parallel, classify_status,
    find_git_repos, marks_repo, validate_depth, validate_path, wants_branch, DirEntry, GitOutput, RepoProbe,
    RepoStatus,
};

fn finished(success: bool, stdout: &str, stderr: &str) -> GitOutput {
    GitOutput::Finished {
        success,
        stdout: stdout.as_bytes().to_vec(),
        stderr: stderr.as_bytes().to_vec(),
    }
}

fn probe(path: &str, status: GitOutput, branch: Option<GitOutput>) -> RepoProbe {
    RepoProbe { path: path.to_string(), status, branch }
}

fn dir(path: &str, depth: usize) -> DirEntry {
    DirEntry { path: path.to_string(), depth, is_dir: true }
}

#[test]
fn test_validate_depth() {
    assert!(validate_depth(1).is_ok());
    assert!(validate_depth(50).is_ok());
    assert!(validate_depth(100).is_ok());
    assert!(validate_depth(0).is_err());
    assert!(validate_depth(101).is_err());
}

#[test]
fn valid_depth_is_returned_unchanged() {
    for d in 1..=100usize {
        assert_eq!(validate_depth(d).unwrap(), d);
    }
    assert!(validate_depth(1000).is_err());
    assert!(validate_depth(usize::MAX).is_err());
}

#[test]
fn test_repo_status_methods() {
    let clean = RepoStatus::Clean { path: "/test".to_string(), branch: Some("main".to_string()) };
    assert!(!clean.is_dirty());

    let dirty = RepoStatus::Dirty {
        path: "/test".to_string(),
        changes: "M file.txt".to_string(),
        branch: Some("dev".to_string()),
    };
    assert!(dirty.is_dirty());
    assert_eq!(dirty.path(), "/test");
}

#[test]
fn test_validate_path_nonexistent() {
    let result = validate_path("/nonexistent/path/that/does/not/exist", None, false);
    assert!(result.is_err());
}

#[test]
fn validate_path_keeps_canonical_directory() {
    let ok = validate_path("./here", Some("/abs/here".to_string()), true);
    assert_eq!(ok.unwrap(), "/abs/here");
    match validate_path("./file", Some("/abs/file".to_string()), false) {
        Err(e) => assert_eq!(e.to_string(), "Invalid path: /abs/file"),
        Ok(_) => panic!("a file is no root"),
    }
}

#[test]
fn test_find_git_repos_no_repos() {
    let entries = vec![dir("/tmp/test_no_repos", 0)];
    let repos = find_git_repos(&entries, 3);
    assert_eq!(repos.len(), 0);
}

#[test]
fn git_dirs_mark_their_parents() {
    let entries = vec![
        dir("/r", 0),
        dir("/r/a", 1),
        dir("/r/a/.git", 2),
        DirEntry { path: "/r/b/.git".to_string(), depth: 2, is_dir: false },
        dir("/r/c/d/.git", 3),
        dir("/r/e/.github", 2),
    ];
    assert_eq!(find_git_repos(&entries, 2), vec!["/r/a".to_string()]);
    assert_eq!(find_git_repos(&entries, 3), vec!["/r/a".to_string(), "/r/c/d".to_string()]);
}

#[test]
fn test_check_repo_status_invalid_path() {
    let p = probe(
        "/invalid/path",
        finished(false, "", "fatal: cannot change to '/invalid/path': No such file or directory"),
        None,
    );
    let result = check_repo_status(&p, false);
    assert!(result.is_err());
}

#[test]
fn blank_status_is_clean() {
    let p = probe("/r/a", finished(true, " \n\t\r\n", ""), None);
    match check_repo_status(&p, false).unwrap() {
        RepoStatus::Clean { path, branch } => {
            assert_eq!(path, "/r/a");
            assert_eq!(branch, None);
        }
        _ => panic!("blank output is clean"),
    }
}

#[test]
fn status_text_is_kept_raw_when_dirty() {
    let p = probe("/r/a", finished(true, " M file.txt\n?? new\n", ""), None);
    match check_repo_status(&p, false).unwrap() {
        RepoStatus::Dirty { changes, .. } => assert_eq!(changes, " M file.txt\n?? new\n"),
        _ => panic!("non-blank output is dirty"),
    }
}

#[test]
fn failed_status_reports_stderr() {
    let p = probe("/r/a", finished(false, "", "fatal: not a git repository"), None);
    match check_repo_status(&p, true) {
        Err(e) => assert_eq!(e.to_string(), "Git command failed in /r/a: fatal: not a git repository"),
        Ok(_) => panic!("failure expected"),
    }
    let q = probe("/r/b", GitOutput::NotStarted("No such file".to_string()), None);
    match check_repo_status(&q, false) {
        Err(e) => assert_eq!(e.to_string(), "Git command failed in /r/b: No such file"),
        Ok(_) => panic!("failure expected"),
    }
}

#[test]
fn branch_is_trimmed_and_only_kept_when_asked() {
    let p = probe("/r/a", finished(true, "", ""), Some(finished(true, "  main\n", "")));
    match check_repo_status(&p, true).unwrap() {
        RepoStatus::Clean { branch, .. } => assert_eq!(branch, Some("main".to_string())),
        _ => panic!("clean expected"),
    }
    match check_repo_status(&p, false).unwrap() {
        RepoStatus::Clean { branch, .. } => assert_eq!(branch, None),
        _ => panic!("clean expected"),
    }
}

#[test]
fn failed_branch_query_changes_nothing_else() {
    let failing = Some(finished(false, "", "fatal: bad HEAD"));
    let p = probe("/r/a", finished(true, "?? x\n", ""), failing);
    match check_repo_status(&p, true).unwrap() {
        RepoStatus::Dirty { branch, changes, .. } => {
            assert_eq!(branch, None);
            assert_eq!(changes, "?? x\n");
        }
        _ => panic!("dirty expected"),
    }
    let not_started = probe("/r/a", finished(true, "", ""), Some(GitOutput::NotStarted("x".to_string())));
    assert!(!check_repo_status(&not_started, true).unwrap().is_dirty());
}

#[test]
fn branch_needs_utf8() {
    let bad = Some(GitOutput::Finished { success: true, stdout: vec![0xff, 0xfe], stderr: vec![] });
    assert_eq!(branch_name(&bad), None);
    assert_eq!(branch_name(&Some(finished(true, "dev\r\n", ""))), Some("dev".to_string()));
    assert_eq!(branch_from_text(Some("\u{3000}x y\t".to_string())), Some("x y".to_string()));
    assert_eq!(branch_from_text(None), None);
}

#[test]
fn lossy_status_text_replaces_invalid_bytes() {
    let p = RepoProbe {
        path: "/r".to_string(),
        status: GitOutput::Finished { success: true, stdout: vec![b'a', 0xff], stderr: vec![] },
        branch: None,
    };
    match check_repo_status(&p, false).unwrap() {
        RepoStatus::Dirty { changes, .. } => assert_eq!(changes, "a\u{fffd}"),
        _ => panic!("dirty expected"),
    }
}

#[test]
fn classify_status_decides_on_trimmed_text() {
    assert!(!classify_status("/a".to_string(), "".to_string(), None).is_dirty());
    assert!(!classify_status("/a".to_string(), "\u{a0}\n".to_string(), None).is_dirty());
    assert!(classify_status("/a".to_string(), " x ".to_string(), None).is_dirty());
}

#[test]
fn branch_asked_only_after_status_succeeds() {
    assert!(wants_branch(true, &finished(true, "", "")));
    assert!(!wants_branch(false, &finished(true, "", "")));
    assert!(!wants_branch(true, &finished(false, "", "")));
    assert!(!wants_branch(true, &GitOutput::NotStarted("x".to_string())));
}

#[test]
fn every_repository_gives_one_result() {
    let probes = vec![
        probe("/r/a", finished(true, "", ""), None),
        probe("/r/b", finished(false, "", "bad"), None),
        probe("/r/c", finished(true, "M x\n", ""), None),
        probe("/r/d", GitOutput::NotStarted("gone".to_string()), None),
    ];
    let (statuses, errors) = check_repos_parallel(&probes, false);
    assert_eq!(statuses.len() + errors.len(), probes.len());
    assert_eq!(statuses.len(), 2);
    assert_eq!(statuses[0].path(), "/r/a");
    assert!(!statuses[0].is_dirty());
    assert_eq!(statuses[1].path(), "/r/c");
    assert!(statuses[1].is_dirty());
    assert_eq!(errors[0].to_string(), "Git command failed in /r/b: bad");
    assert_eq!(errors[1].to_string(), "Git command failed in /r/d: gone");
}

#[test]
fn no_repositories_give_nothing() {
    let (statuses, errors) = check_repos_parallel(&vec![], true);
    assert!(statuses.is_empty());
    assert!(errors.is_empty());
}

#[test]
fn only_git_directories_within_depth_mark_repos() {
    let git = Some(".git".to_string());
    assert!(marks_repo(true, 2, 2, &git));
    assert!(!marks_repo(true, 3, 2, &git));
    assert!(!marks_repo(false, 1, 2, &git));
    assert!(!marks_repo(true, 1, 2, &Some(".gitignore".to_string())));
    assert!(!marks_repo(true, 1, 2, &None));
}
