use vstd::prelude::*;
use crate::classify::{
    branch_present, classify_diff, spec_branch_present, spec_classify, DivergenceOutcome,
    DivergenceOutcomeView,
};
use crate::command::{result_wf, CommandResultView, CommandRunner};
use crate::git::{Git, Repo};

verus! {

/// The terminal state one repository's check reaches.
#[derive(Debug, PartialEq, Eq)]
pub enum RepoOutcome {
    /// A fetch command failed; its error text is kept. The repository is
    /// skipped without running the later commands.
    FetchFailed(String),
    /// Both fetches succeeded and the check ran on to a classification.
    Classified(DivergenceOutcome),
}

/// The mathematical shape of a `RepoOutcome`.
pub enum RepoOutcomeView {
    FetchFailed(Seq<char>),
    Classified(DivergenceOutcomeView),
}

impl View for RepoOutcome {
    type V = RepoOutcomeView;

    open spec fn view(&self) -> RepoOutcomeView {
        match self {
            RepoOutcome::FetchFailed(t) => RepoOutcomeView::FetchFailed(t@),
            RepoOutcome::Classified(o) => RepoOutcomeView::Classified(o@),
        }
    }
}

/// One repository's check as a function of what its five commands returned
/// — fetch source, fetch target, query source, query target, diff, run
/// strictly in that order. The first terminal condition wins; results of
/// commands a terminal condition precedes are ignored, since those commands
/// are never run.
pub open spec fn spec_check(
    fetch_source: CommandResultView,
    fetch_target: CommandResultView,
    query_source: CommandResultView,
    query_target: CommandResultView,
    diff: CommandResultView,
) -> RepoOutcomeView
    recommends
        result_wf(fetch_source),
        result_wf(fetch_target),
        result_wf(diff),
{
    if !fetch_source.0 {
        RepoOutcomeView::FetchFailed(fetch_source.2.unwrap())
    } else if !fetch_target.0 {
        RepoOutcomeView::FetchFailed(fetch_target.2.unwrap())
    } else if !spec_branch_present(query_source) || !spec_branch_present(query_target) {
        RepoOutcomeView::Classified(DivergenceOutcomeView::BranchMissing)
    } else {
        RepoOutcomeView::Classified(spec_classify(diff))
    }
}

/// An outcome the check pipeline can produce from some well-formed command
/// results: what `process_repository` promises of its answer, whatever the
/// external tool printed.
pub open spec fn outcome_reachable(o: RepoOutcomeView) -> bool {
    exists|
        f1: CommandResultView,
        f2: CommandResultView,
        q1: CommandResultView,
        q2: CommandResultView,
        d: CommandResultView,
    |
        {
            &&& result_wf(f1)
            &&& result_wf(f2)
            &&& result_wf(q1)
            &&& result_wf(q2)
            &&& result_wf(d)
            &&& o == #[trigger] spec_check(f1, f2, q1, q2, d)
        }
}

/// Drives one repository through fetch, branch validation and diff, and
/// classifies what came back. Within the repository the commands run
/// strictly in order; the first terminal condition stops the pipeline and
/// later commands are not run.
pub fn process_repository<R: CommandRunner>(repository: &Repo, runner: &R) -> (out: RepoOutcome)
    ensures
        outcome_reachable(out@),
{
    let ghost not_run: CommandResultView = (false, None, Some(Seq::<char>::empty()));
    let fetches = repository.fetch();
    let fetch_source = runner.run(&fetches[0]);
    if !fetch_source.0 {
        let out = RepoOutcome::FetchFailed(fetch_source.2.unwrap());
        proof {
            assert(out@ == spec_check(fetch_source.deep_view(), not_run, not_run, not_run, not_run));
        }
        return out;
    }
    let fetch_target = runner.run(&fetches[1]);
    if !fetch_target.0 {
        let out = RepoOutcome::FetchFailed(fetch_target.2.unwrap());
        proof {
            assert(out@ == spec_check(
                fetch_source.deep_view(),
                fetch_target.deep_view(),
                not_run,
                not_run,
                not_run,
            ));
        }
        return out;
    }
    let query_source = runner.run(&repository.branch_exists(repository.source_branch.as_str()));
    let query_target = runner.run(&repository.branch_exists(repository.target_branch.as_str()));
    if !branch_present(&query_source) || !branch_present(&query_target) {
        let out = RepoOutcome::Classified(DivergenceOutcome::BranchMissing);
        proof {
            assert(out@ == spec_check(
                fetch_source.deep_view(),
                fetch_target.deep_view(),
                query_source.deep_view(),
                query_target.deep_view(),
                not_run,
            ));
        }
        return out;
    }
    let diff = runner.run(&repository.diff());
    let out = RepoOutcome::Classified(classify_diff(&diff));
    proof {
        assert(out@ == spec_check(
            fetch_source.deep_view(),
            fetch_target.deep_view(),
            query_source.deep_view(),
            query_target.deep_view(),
            diff.deep_view(),
        ));
    }
    out
}

/// Checks every configured repository, in configuration order. One
/// repository's failure never stops the run: the answer holds exactly one
/// outcome per repository.
pub fn check_repositories<R: CommandRunner>(git: &Git, runner: &R) -> (outcomes: Vec<RepoOutcome>)
    ensures
        outcomes@.len() == git.repositories@.len(),
        forall|i: int| 0 <= i < outcomes@.len() ==> outcome_reachable(#[trigger] outcomes@[i]@),
{
    let mut outcomes: Vec<RepoOutcome> = Vec::new();
    let mut i: usize = 0;
    while i < git.repositories.len()
        invariant
            i <= git.repositories@.len(),
            outcomes@.len() == i,
            forall|j: int| 0 <= j < i ==> outcome_reachable(#[trigger] outcomes@[j]@),
        decreases git.repositories@.len() - i,
    {
        let outcome = process_repository(&git.repositories[i], runner);
        outcomes.push(outcome);
        i = i + 1;
    }
    outcomes
}

/// When both fetches succeed but a branch-existence query reports its
/// branch absent, the check ends in `BranchMissing`, whatever the diff
/// command would have said.
pub proof fn lemma_branch_missing(
    fetch_source: CommandResultView,
    fetch_target: CommandResultView,
    query_source: CommandResultView,
    query_target: CommandResultView,
    diff: CommandResultView,
)
    requires
        fetch_source.0,
        fetch_target.0,
        !spec_branch_present(query_source) || !spec_branch_present(query_target),
    ensures
        spec_check(fetch_source, fetch_target, query_source, query_target, diff)
            == RepoOutcomeView::Classified(DivergenceOutcomeView::BranchMissing),
{
}

/// When both fetches succeed and both branches are present, the outcome is
/// exactly the classification of the diff result: the pipeline neither adds
/// nor drops anything.
pub proof fn lemma_clean_run_classifies(
    fetch_source: CommandResultView,
    fetch_target: CommandResultView,
    query_source: CommandResultView,
    query_target: CommandResultView,
    diff: CommandResultView,
)
    requires
        fetch_source.0,
        fetch_target.0,
        spec_branch_present(query_source),
        spec_branch_present(query_target),
    ensures
        spec_check(fetch_source, fetch_target, query_source, query_target, diff)
            == RepoOutcomeView::Classified(spec_classify(diff)),
{
}

/// Checking a repository is a function of what the commands returned: two
/// runs whose fetch, query and diff commands come back the same reach the
/// same outcome. Repeating a check with no intervening history change is
/// exactly such a pair of runs.
pub proof fn lemma_check_idempotent(
    first: (CommandResultView, CommandResultView, CommandResultView, CommandResultView, CommandResultView),
    second: (CommandResultView, CommandResultView, CommandResultView, CommandResultView, CommandResultView),
)
    requires
        first == second,
    ensures
        spec_check(first.0, first.1, first.2, first.3, first.4) == spec_check(
            second.0,
            second.1,
            second.2,
            second.3,
            second.4,
        ),
{
}

} // verus!
