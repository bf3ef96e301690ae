use codex_scout::git::{
    git_output, query_not_started, CaptureStep, GitQuery, GitSnapshot, ProbeVerdict,
    SnapshotCapture, WorkTreeProbe,
};

fn snapshot(status: &[u8], unstaged: &[u8], staged: &[u8]) -> GitSnapshot {
    GitSnapshot {
        status: status.to_vec(),
        unstaged_diff: unstaged.to_vec(),
        staged_diff: staged.to_vec(),
    }
}

fn exited(success: bool, stdout: &[u8]) -> WorkTreeProbe {
    WorkTreeProbe::Exited { success, stdout: stdout.to_vec() }
}

#[test]
fn only_a_work_tree_is_captured() {
    assert_eq!(exited(true, b"true\n").verdict(), ProbeVerdict::Capture);
    assert_eq!(exited(true, b"true\r\n").verdict(), ProbeVerdict::Capture);
    for (success, stdout) in [
        (false, &b"true\n"[..]),
        (true, &b"false\n"[..]),
        (true, &b"true"[..]),
        (true, &b"true\n\n"[..]),
        (true, &b""[..]),
    ] {
        assert_eq!(exited(success, stdout).verdict(), ProbeVerdict::Skip);
    }
    assert_eq!(WorkTreeProbe::GitMissing.verdict(), ProbeVerdict::Skip);
    assert_eq!(WorkTreeProbe::NotStarted.verdict(), ProbeVerdict::Fail);
}

#[test]
fn a_snapshot_is_made_of_three_queries() {
    assert!(matches!(SnapshotCapture::begin(&WorkTreeProbe::GitMissing), CaptureStep::Done(None)));
    assert!(matches!(
        SnapshotCapture::begin(&WorkTreeProbe::NotStarted),
        CaptureStep::NotInspectable
    ));
    let mut step = SnapshotCapture::begin(&exited(true, b"true\n"));
    let mut queries = Vec::new();
    let found = loop {
        match step {
            CaptureStep::Ask { capture, query } => {
                queries.push(query);
                step = capture.take(vec![queries.len() as u8]);
            }
            CaptureStep::Done(found) => break found,
            CaptureStep::NotInspectable => panic!("not inspectable"),
        }
    };
    assert_eq!(queries, [GitQuery::Status, GitQuery::UnstagedDiff, GitQuery::StagedDiff]);
    assert_eq!(found, Some(snapshot(&[1], &[2], &[3])));
}

#[test]
fn queries_have_their_arguments() {
    assert_eq!(GitQuery::WorkTree.args(), ["rev-parse", "--is-inside-work-tree"]);
    assert_eq!(
        GitQuery::Status.args(),
        ["status", "--porcelain=v1", "-z", "--untracked-files=all"]
    );
    assert_eq!(
        GitQuery::UnstagedDiff.args(),
        ["diff", "--no-ext-diff", "--binary", "--no-color"]
    );
    assert_eq!(
        GitQuery::StagedDiff.args(),
        ["diff", "--cached", "--no-ext-diff", "--binary", "--no-color"]
    );
}

#[test]
fn a_failed_query_is_reported() {
    let args = GitQuery::Status.args();
    assert_eq!(git_output(&args, true, vec![1, 2], b"warning"), Ok(vec![1, 2]));
    assert_eq!(
        git_output(&args, false, vec![1, 2], b" fatal: not a repository\xff\n"),
        Err("`git status --porcelain=v1 -z --untracked-files=all` failed while checking for scout mutations: fatal: not a repository\u{fffd}".to_string())
    );
    assert_eq!(
        query_not_started(&GitQuery::WorkTree.args()),
        "could not run `git rev-parse --is-inside-work-tree`"
    );
}

#[test]
fn every_visible_change_is_found() {
    let before = Some(snapshot(b"A  source.rs\0", b"", b"+before\n"));
    let same = Some(snapshot(b"A  source.rs\0", b"", b"+before\n"));
    assert!(GitSnapshot::ensure_unchanged(&before, &same).is_ok());
    for after in [
        Some(snapshot(b"AM source.rs\0", b"", b"+before\n")),
        Some(snapshot(b"A  source.rs\0", b"+after\n", b"+before\n")),
        Some(snapshot(b"A  source.rs\0", b"", b"+before")),
        None,
    ] {
        let error = GitSnapshot::ensure_unchanged(&before, &after).unwrap_err();
        assert!(error.message().contains("changed Git-visible repository state"));
    }
    assert!(GitSnapshot::ensure_unchanged(&None, &before).is_ok());
    assert!(GitSnapshot::ensure_unchanged(&None, &None).is_ok());
}
