//! What Git can see of a repository, before and after a scout.

use crate::text::{contents, from_utf8_lossy, join, joined, lossy_utf8, trim, trimmed};
use vstd::prelude::*;
use vstd::string::*;
use vstd::utf8::*;

verus! {

/// What is asked of Git.
#[derive(Clone, Copy, Debug, PartialEq, Eq)]
pub enum GitQuery {
    /// Whether the directory is inside a work tree.
    WorkTree,
    Status,
    UnstagedDiff,
    StagedDiff,
}

/// The arguments of a query.
pub open spec fn query_arguments(query: GitQuery) -> Seq<Seq<char>> {
    match query {
        GitQuery::WorkTree => seq!["rev-parse"@, "--is-inside-work-tree"@],
        GitQuery::Status => seq![
            "status"@,
            "--porcelain=v1"@,
            "-z"@,
            "--untracked-files=all"@,
        ],
        GitQuery::UnstagedDiff => seq!["diff"@, "--no-ext-diff"@, "--binary"@, "--no-color"@],
        GitQuery::StagedDiff => seq![
            "diff"@,
            "--cached"@,
            "--no-ext-diff"@,
            "--binary"@,
            "--no-color"@,
        ],
    }
}

impl GitQuery {
    /// The arguments of the query.
    pub fn args(&self) -> (args: Vec<String>)
        ensures
            contents(args@) == query_arguments(*self),
    {
        let args = match self {
            GitQuery::WorkTree => vec![
                "rev-parse".to_string(),
                "--is-inside-work-tree".to_string(),
            ],
            GitQuery::Status => vec![
                "status".to_string(),
                "--porcelain=v1".to_string(),
                "-z".to_string(),
                "--untracked-files=all".to_string(),
            ],
            GitQuery::UnstagedDiff => vec![
                "diff".to_string(),
                "--no-ext-diff".to_string(),
                "--binary".to_string(),
                "--no-color".to_string(),
            ],
            GitQuery::StagedDiff => vec![
                "diff".to_string(),
                "--cached".to_string(),
                "--no-ext-diff".to_string(),
                "--binary".to_string(),
                "--no-color".to_string(),
            ],
        };
        assert(contents(args@) == query_arguments(*self));
        args
    }
}

/// What came of asking whether the directory is inside a work tree.
#[derive(Debug)]
pub enum WorkTreeProbe {
    /// There is no Git to ask.
    GitMissing,
    /// Git could not be started for another reason.
    NotStarted,
    /// Git ran to its end.
    Exited { success: bool, stdout: Vec<u8> },
}

/// What follows from it.
#[derive(Clone, Copy, Debug, PartialEq, Eq)]
pub enum ProbeVerdict {
    /// There is nothing to capture.
    Skip,
    /// The state is to be captured.
    Capture,
    /// The state cannot be inspected.
    Fail,
}

/// Git's answer that the directory is inside a work tree, with either line end.
pub open spec fn says_true(stdout: Seq<u8>) -> bool {
    stdout == seq![116u8, 114, 117, 101, 10] || stdout == seq![116u8, 114, 117, 101, 13, 10]
}

/// What follows from a probe.
pub open spec fn verdict_of(probe: WorkTreeProbe) -> ProbeVerdict {
    match probe {
        WorkTreeProbe::GitMissing => ProbeVerdict::Skip,
        WorkTreeProbe::NotStarted => ProbeVerdict::Fail,
        WorkTreeProbe::Exited { success, stdout } => if success && says_true(stdout@) {
            ProbeVerdict::Capture
        } else {
            ProbeVerdict::Skip
        },
    }
}

fn same_bytes(a: &Vec<u8>, b: &Vec<u8>) -> (equal: bool)
    ensures
        equal == (a@ == b@),
{
    if a.len() != b.len() {
        return false;
    }
    for i in 0..a.len()
        invariant
            a@.len() == b@.len(),
            forall|j: int| 0 <= j < i ==> a@[j] == b@[j],
    {
        if a[i] != b[i] {
            return false;
        }
    }
    assert(a@ == b@);
    true
}

impl WorkTreeProbe {
    /// What follows from the probe.
    pub fn verdict(&self) -> (verdict: ProbeVerdict)
        ensures
            verdict == verdict_of(*self),
    {
        match self {
            WorkTreeProbe::GitMissing => ProbeVerdict::Skip,
            WorkTreeProbe::NotStarted => ProbeVerdict::Fail,
            WorkTreeProbe::Exited { success, stdout } => {
                let unix: Vec<u8> = vec![116, 114, 117, 101, 10];
                let windows: Vec<u8> = vec![116, 114, 117, 101, 13, 10];
                assert(unix@ == seq![116u8, 114, 117, 101, 10]);
                assert(windows@ == seq![116u8, 114, 117, 101, 13, 10]);
                if *success && (same_bytes(stdout, &unix) || same_bytes(stdout, &windows)) {
                    ProbeVerdict::Capture
                } else {
                    ProbeVerdict::Skip
                }
            },
        }
    }
}

/// What is said of a query that failed with a standard error that reads as `stderr`.
pub open spec fn query_failure_wording(args: Seq<Seq<char>>, stderr: Seq<char>) -> Seq<char> {
    "`git "@ + joined(args) + "` failed while checking for scout mutations: "@ + trimmed(stderr)
}

/// What is said of a query that failed with a standard error that reads as `stderr`.
pub fn query_failure_text(args: &Vec<String>, stderr: &str) -> (text: String)
    ensures
        text@ == query_failure_wording(contents(args@), stderr@),
{
    "`git ".to_string().concat(join(args).as_str()).concat(
        "` failed while checking for scout mutations: ",
    ).concat(trim(stderr))
}

/// What is said of a query that could not be started.
pub open spec fn query_not_started_wording(args: Seq<Seq<char>>) -> Seq<char> {
    "could not run `git "@ + joined(args) + "`"@
}

/// What a query comes to that ran to its end with this output and a standard error that reads as
/// `stderr`.
pub open spec fn query_result(
    args: Seq<Seq<char>>,
    success: bool,
    stdout: Seq<u8>,
    stderr: Seq<char>,
) -> Result<Seq<u8>, Seq<char>> {
    if success {
        Ok(stdout)
    } else {
        Err(query_failure_wording(args, stderr))
    }
}

/// What is said of a query that could not be started.
pub fn query_not_started(args: &Vec<String>) -> (text: String)
    ensures
        text@ == query_not_started_wording(contents(args@)),
        text@ == "could not run `git "@ + joined(contents(args@)) + "`"@,
{
    "could not run `git ".to_string().concat(join(args).as_str()).concat("`")
}

/// The output of a query that ran to its end: its standard output if it succeeded, and else what
/// is said of it.
pub fn git_output(
    args: &Vec<String>,
    success: bool,
    stdout: Vec<u8>,
    stderr: &[u8],
) -> (result: Result<Vec<u8>, String>)
    ensures
        query_result(contents(args@), success, stdout@, lossy_utf8(stderr@)) == match result {
            Ok(bytes) => Ok::<Seq<u8>, Seq<char>>(bytes@),
            Err(text) => Err::<Seq<u8>, Seq<char>>(text@),
        },
        match result {
            Ok(bytes) => success && bytes@ == stdout@,
            Err(text) => {
                &&& !success
                &&& text@ == query_failure_wording(contents(args@), lossy_utf8(stderr@))
                &&& valid_utf8(stderr@) ==> text@ == query_failure_wording(
                    contents(args@),
                    decode_utf8(stderr@),
                )
            },
        },
{
    if success {
        Ok(stdout)
    } else {
        let text = from_utf8_lossy(stderr);
        Err(query_failure_text(args, text.as_str()))
    }
}

/// What Git can see of a repository.
#[derive(Debug, PartialEq, Eq)]
pub struct GitSnapshot {
    pub status: Vec<u8>,
    pub unstaged_diff: Vec<u8>,
    pub staged_diff: Vec<u8>,
}

/// The outputs that make up a snapshot.
pub struct SnapshotView {
    pub status: Seq<u8>,
    pub unstaged_diff: Seq<u8>,
    pub staged_diff: Seq<u8>,
}

/// An optional snapshot, as contracts speak of it.
pub open spec fn snapshot_view(snapshot: Option<GitSnapshot>) -> Option<SnapshotView> {
    match snapshot {
        Some(s) => Some(s@),
        None => None,
    }
}

/// The repository was left as it was: nothing was there to be captured, or the same is there
/// still.
pub open spec fn is_unchanged(before: Option<SnapshotView>, after: Option<SnapshotView>) -> bool {
    before is Some ==> after == before
}

impl GitSnapshot {
    pub open spec fn view(&self) -> SnapshotView {
        SnapshotView {
            status: self.status@,
            unstaged_diff: self.unstaged_diff@,
            staged_diff: self.staged_diff@,
        }
    }

    /// Whether two snapshots show the same.
    pub fn shows_same(&self, other: &GitSnapshot) -> (equal: bool)
        ensures
            equal == (self@ == other@),
    {
        same_bytes(&self.status, &other.status) && same_bytes(
            &self.unstaged_diff,
            &other.unstaged_diff,
        ) && same_bytes(&self.staged_diff, &other.staged_diff)
    }

    /// Refuses a repository that was not left as it was.
    pub fn ensure_unchanged(
        before: &Option<GitSnapshot>,
        after: &Option<GitSnapshot>,
    ) -> (result: Result<(), RepositoryChanged>)
        ensures
            result is Ok <==> is_unchanged(snapshot_view(*before), snapshot_view(*after)),
            *before is None ==> result is Ok,
            *before matches Some(b) ==> (result is Ok <==> (*after matches Some(a) && a.status@
                == b.status@ && a.unstaged_diff@ == b.unstaged_diff@ && a.staged_diff@
                == b.staged_diff@)),
    {
        let unchanged = match (before, after) {
            (None, _) => true,
            (Some(b), Some(a)) => b.shows_same(a),
            (Some(_), None) => false,
        };
        if unchanged {
            Ok(())
        } else {
            Err(RepositoryChanged)
        }
    }
}

/// The repository was not left as it was.
#[derive(Clone, Copy, Debug, PartialEq, Eq)]
pub struct RepositoryChanged;

impl RepositoryChanged {
    /// The wording of the error.
    pub fn message(&self) -> (text: &'static str)
        ensures
            text@
                == "Codex repository scout changed Git-visible repository state; result discarded"@,
    {
        "Codex repository scout changed Git-visible repository state; result discarded"
    }
}

/// A snapshot in the making: what is known of it, and so which query comes next.
#[derive(Debug)]
pub enum SnapshotCapture {
    NeedStatus,
    NeedUnstaged { status: Vec<u8> },
    NeedStaged { status: Vec<u8>, unstaged_diff: Vec<u8> },
}

/// What is to be done for a snapshot.
#[derive(Debug)]
pub enum CaptureStep {
    /// The query is to be run, and its output handed on.
    Ask { capture: SnapshotCapture, query: GitQuery },
    /// All is known; `None` where there is nothing to capture.
    Done(Option<GitSnapshot>),
    /// The state cannot be inspected.
    NotInspectable,
}

/// How a snapshot begins with what came of the probe.
pub open spec fn capture_start(probe: WorkTreeProbe) -> CaptureStep {
    match verdict_of(probe) {
        ProbeVerdict::Skip => CaptureStep::Done(None),
        ProbeVerdict::Capture => CaptureStep::Ask {
            capture: SnapshotCapture::NeedStatus,
            query: GitQuery::Status,
        },
        ProbeVerdict::Fail => CaptureStep::NotInspectable,
    }
}

/// How a snapshot goes on with the output of the query that was asked for.
pub open spec fn capture_next(capture: SnapshotCapture, output: Vec<u8>) -> CaptureStep {
    match capture {
        SnapshotCapture::NeedStatus => CaptureStep::Ask {
            capture: SnapshotCapture::NeedUnstaged { status: output },
            query: GitQuery::UnstagedDiff,
        },
        SnapshotCapture::NeedUnstaged { status } => CaptureStep::Ask {
            capture: SnapshotCapture::NeedStaged { status, unstaged_diff: output },
            query: GitQuery::StagedDiff,
        },
        SnapshotCapture::NeedStaged { status, unstaged_diff } => CaptureStep::Done(
            Some(GitSnapshot { status, unstaged_diff, staged_diff: output }),
        ),
    }
}

impl SnapshotCapture {
    /// Begins with what came of the probe.
    pub fn begin(probe: &WorkTreeProbe) -> (step: CaptureStep)
        ensures
            step == capture_start(*probe),
            step == match verdict_of(*probe) {
                ProbeVerdict::Skip => CaptureStep::Done(None),
                ProbeVerdict::Capture => CaptureStep::Ask {
                    capture: SnapshotCapture::NeedStatus,
                    query: GitQuery::Status,
                },
                ProbeVerdict::Fail => CaptureStep::NotInspectable,
            },
    {
        match probe.verdict() {
            ProbeVerdict::Skip => CaptureStep::Done(None),
            ProbeVerdict::Capture => CaptureStep::Ask {
                capture: SnapshotCapture::NeedStatus,
                query: GitQuery::Status,
            },
            ProbeVerdict::Fail => CaptureStep::NotInspectable,
        }
    }

    /// Goes on with the output of the query that was asked for.
    pub fn take(self, output: Vec<u8>) -> (step: CaptureStep)
        ensures
            step == capture_next(self, output),
            step == match self {
                SnapshotCapture::NeedStatus => CaptureStep::Ask {
                    capture: SnapshotCapture::NeedUnstaged { status: output },
                    query: GitQuery::UnstagedDiff,
                },
                SnapshotCapture::NeedUnstaged { status } => CaptureStep::Ask {
                    capture: SnapshotCapture::NeedStaged { status, unstaged_diff: output },
                    query: GitQuery::StagedDiff,
                },
                SnapshotCapture::NeedStaged { status, unstaged_diff } => CaptureStep::Done(
                    Some(GitSnapshot { status, unstaged_diff, staged_diff: output }),
                ),
            },
    {
        match self {
            SnapshotCapture::NeedStatus => CaptureStep::Ask {
                capture: SnapshotCapture::NeedUnstaged { status: output },
                query: GitQuery::UnstagedDiff,
            },
            SnapshotCapture::NeedUnstaged { status } => CaptureStep::Ask {
                capture: SnapshotCapture::NeedStaged { status, unstaged_diff: output },
                query: GitQuery::StagedDiff,
            },
            SnapshotCapture::NeedStaged { status, unstaged_diff } => CaptureStep::Done(
                Some(GitSnapshot { status, unstaged_diff, staged_diff: output }),
            ),
        }
    }
}

/// A repository counts as unchanged if and only if the same three outputs are there after the
/// scout, whatever they hold; where nothing was captured before, it always does.
pub proof fn a_repository_is_unchanged_if_it_shows_the_same(
    before: GitSnapshot,
    after: Option<GitSnapshot>,
)
    ensures
        is_unchanged(Some(before@), snapshot_view(after)) <==> (after matches Some(a) && a.status@
            == before.status@ && a.unstaged_diff@ == before.unstaged_diff@ && a.staged_diff@
            == before.staged_diff@),
        is_unchanged(None, snapshot_view(after)),
{
    if let Some(a) = after {
        if a.status@ == before.status@ && a.unstaged_diff@ == before.unstaged_diff@
            && a.staged_diff@ == before.staged_diff@ {
            assert(a@ == before@);
        }
    }
}

/// A repository that is captured twice with the same outputs counts as unchanged, and two
/// snapshots that count as unchanged do so either way round.
pub proof fn to_be_unchanged_goes_both_ways(a: GitSnapshot, b: GitSnapshot)
    ensures
        is_unchanged(Some(a@), Some(a@)),
        is_unchanged(Some(a@), Some(b@)) <==> is_unchanged(Some(b@), Some(a@)),
        !is_unchanged(Some(a@), None),
{
}

/// The state is captured exactly where Git ran well and answered `true` and a line end, of either
/// kind. There is nothing to capture where there is no Git or it answered otherwise, and only
/// where Git could not be started the state cannot be inspected.
pub proof fn only_a_work_tree_has_a_state(probe: WorkTreeProbe)
    ensures
        verdict_of(probe) is Capture <==> (probe matches WorkTreeProbe::Exited { success, stdout }
            && success && (stdout@ == seq!['t' as u8, 'r' as u8, 'u' as u8, 'e' as u8, 10]
            || stdout@ == seq!['t' as u8, 'r' as u8, 'u' as u8, 'e' as u8, 13, 10])),
        verdict_of(probe) is Fail <==> probe is NotStarted,
        verdict_of(probe) is Capture <==> capture_start(probe) is Ask,
        verdict_of(probe) is Skip <==> capture_start(probe) == CaptureStep::Done(None),
        verdict_of(probe) is Fail <==> capture_start(probe) is NotInspectable,
{
    assert('t' as u8 == 116 && 'r' as u8 == 114 && 'u' as u8 == 117 && 'e' as u8 == 101);
}

/// A snapshot is made of three outputs, each of its own query: the status, then the difference to
/// the index, then that of the index. Each is kept as it came.
pub proof fn a_snapshot_holds_the_outputs_of_its_queries(
    probe: WorkTreeProbe,
    status: Vec<u8>,
    unstaged: Vec<u8>,
    staged: Vec<u8>,
)
    requires
        verdict_of(probe) is Capture,
    ensures
        capture_start(probe) matches CaptureStep::Ask { capture: first, query: one } && one
            == GitQuery::Status && (capture_next(first, status) matches CaptureStep::Ask {
            capture: second,
            query: two,
        } && two == GitQuery::UnstagedDiff && (capture_next(
            second,
            unstaged,
        ) matches CaptureStep::Ask { capture: third, query: three } && three
            == GitQuery::StagedDiff && (capture_next(third, staged) matches CaptureStep::Done(
            Some(snapshot),
        ) && snapshot.status@ == status@ && snapshot.unstaged_diff@ == unstaged@
            && snapshot.staged_diff@ == staged@))),
{
}

/// Git is asked for all that it can see, in a form that does not depend on how it is set up: the
/// status with every untracked file, and both differences in full.
pub proof fn git_is_asked_for_all_it_can_see()
    ensures
        query_arguments(GitQuery::WorkTree) == seq!["rev-parse"@, "--is-inside-work-tree"@],
        query_arguments(GitQuery::Status) == seq![
            "status"@,
            "--porcelain=v1"@,
            "-z"@,
            "--untracked-files=all"@,
        ],
        query_arguments(GitQuery::UnstagedDiff) == seq![
            "diff"@,
            "--no-ext-diff"@,
            "--binary"@,
            "--no-color"@,
        ],
        query_arguments(GitQuery::StagedDiff) == query_arguments(GitQuery::UnstagedDiff).insert(
            1,
            "--cached"@,
        ),
{
    assert(query_arguments(GitQuery::StagedDiff) == query_arguments(GitQuery::UnstagedDiff).insert(
        1,
        "--cached"@,
    ));
}

/// A query that failed is named by its arguments, and all that its standard error says is told.
pub proof fn a_failed_query_is_told_in_full(args: Seq<Seq<char>>, stderr: Seq<char>)
    ensures
        query_failure_wording(args, stderr) == "`git "@ + joined(args)
            + "` failed while checking for scout mutations: "@ + trimmed(stderr),
        trimmed(stderr).is_suffix_of(query_failure_wording(args, stderr)),
{
    let text = query_failure_wording(args, stderr);
    let n = text.len() as int;
    assert(trimmed(stderr) == text.subrange(n - trimmed(stderr).len(), n));
}

/// A query that ran well gives all of its output, whatever is on its standard error; one that did
/// not gives none of it, and is told by its arguments and its standard error.
pub proof fn a_query_gives_all_or_nothing(
    args: Seq<Seq<char>>,
    stdout: Seq<u8>,
    stderr: Seq<char>,
)
    ensures
        query_result(args, true, stdout, stderr) == Ok::<Seq<u8>, Seq<char>>(stdout),
        query_result(args, false, stdout, stderr) == Err::<Seq<u8>, Seq<char>>(
            "`git "@ + joined(args) + "` failed while checking for scout mutations: "@ + trimmed(
                stderr,
            ),
        ),
        query_not_started_wording(args) == "could not run `git "@ + joined(args) + "`"@,
{
}

} // verus!
