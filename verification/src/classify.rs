use vstd::prelude::*;
use crate::command::{CommandResult, CommandResultView, result_wf};
use crate::text::{contains_substr, spec_contains};

verus! {

/// The classification of one repository's divergence computation: the fixed
/// taxonomy every check ends in.
#[derive(Debug, PartialEq, Eq)]
pub enum DivergenceOutcome {
    /// The target already contains everything reachable from the source.
    NoDivergence,
    /// The source holds commits the target lacks; the raw listing of those
    /// non-merge commits is carried along.
    DivergenceExists(String),
    /// The working directory is not a version-controlled repository.
    RepositoryNotFound,
    /// A branch named in the check has no remote-tracking reference.
    BranchMissing,
    /// The tool rejected a reference as unknown.
    InvalidReference,
    /// Any other failure; the raw error text is carried along.
    UnknownFailure(String),
}

/// The mathematical shape of a `DivergenceOutcome`, with captured text as a
/// character sequence.
pub enum DivergenceOutcomeView {
    NoDivergence,
    DivergenceExists(Seq<char>),
    RepositoryNotFound,
    BranchMissing,
    InvalidReference,
    UnknownFailure(Seq<char>),
}

impl View for DivergenceOutcome {
    type V = DivergenceOutcomeView;

    open spec fn view(&self) -> DivergenceOutcomeView {
        match self {
            DivergenceOutcome::NoDivergence => DivergenceOutcomeView::NoDivergence,
            DivergenceOutcome::DivergenceExists(t) => DivergenceOutcomeView::DivergenceExists(t@),
            DivergenceOutcome::RepositoryNotFound => DivergenceOutcomeView::RepositoryNotFound,
            DivergenceOutcome::BranchMissing => DivergenceOutcomeView::BranchMissing,
            DivergenceOutcome::InvalidReference => DivergenceOutcomeView::InvalidReference,
            DivergenceOutcome::UnknownFailure(t) => DivergenceOutcomeView::UnknownFailure(t@),
        }
    }
}

/// How a finished divergence command is read: success with empty output
/// means the histories agree; success with output means divergence, with
/// the listing kept verbatim; a failure is keyed on known substrings of the
/// tool's error text, the missing-repository indicator taking precedence.
pub open spec fn spec_classify(r: CommandResultView) -> DivergenceOutcomeView
    recommends
        result_wf(r),
{
    if r.0 {
        if r.1.unwrap().len() == 0 {
            DivergenceOutcomeView::NoDivergence
        } else {
            DivergenceOutcomeView::DivergenceExists(r.1.unwrap())
        }
    } else {
        if spec_contains(r.2.unwrap(), "not a git repository"@) {
            DivergenceOutcomeView::RepositoryNotFound
        } else if spec_contains(r.2.unwrap(), "unknown revision"@) {
            DivergenceOutcomeView::InvalidReference
        } else {
            DivergenceOutcomeView::UnknownFailure(r.2.unwrap())
        }
    }
}

/// Classifies what the divergence command returned.
pub fn classify_diff(result: &CommandResult) -> (o: DivergenceOutcome)
    requires
        result_wf(result.deep_view()),
    ensures
        o@ == spec_classify(result.deep_view()),
{
    if result.0 {
        let out = result.1.as_ref().unwrap();
        if out.as_str().is_empty() {
            DivergenceOutcome::NoDivergence
        } else {
            DivergenceOutcome::DivergenceExists(out.clone())
        }
    } else {
        let err = result.2.as_ref().unwrap();
        if contains_substr(err.as_str(), "not a git repository") {
            DivergenceOutcome::RepositoryNotFound
        } else if contains_substr(err.as_str(), "unknown revision") {
            DivergenceOutcome::InvalidReference
        } else {
            DivergenceOutcome::UnknownFailure(err.clone())
        }
    }
}

/// What the branch-existence query means: the remote-tracking reference
/// exists exactly when the query succeeded with non-empty output.
pub open spec fn spec_branch_present(r: CommandResultView) -> bool {
    r.0 && r.1 is Some && r.1.unwrap().len() > 0
}

/// Reads a finished branch-existence query.
pub fn branch_present(result: &CommandResult) -> (b: bool)
    ensures
        b == spec_branch_present(result.deep_view()),
{
    result.0 && match &result.1 {
        Some(out) => !out.as_str().is_empty(),
        None => false,
    }
}

/// When the divergence command succeeds with empty output — source and
/// target point to the same history — the classification is `NoDivergence`.
pub proof fn lemma_same_history_no_divergence(r: CommandResultView)
    requires
        result_wf(r),
        r.0,
        r.1.unwrap().len() == 0,
    ensures
        spec_classify(r) == DivergenceOutcomeView::NoDivergence,
{
}

/// When the divergence command succeeds with non-empty output — the source
/// holds commits absent from the target's history — the classification
/// reports divergence and carries that listing unchanged.
pub proof fn lemma_divergence_reported(r: CommandResultView)
    requires
        result_wf(r),
        r.0,
        r.1.unwrap().len() > 0,
    ensures
        spec_classify(r) == DivergenceOutcomeView::DivergenceExists(r.1.unwrap()),
{
}

/// A failure whose error text names a missing repository is classified
/// `RepositoryNotFound`.
pub proof fn lemma_repository_not_found(r: CommandResultView)
    requires
        result_wf(r),
        !r.0,
        spec_contains(r.2.unwrap(), "not a git repository"@),
    ensures
        spec_classify(r) == DivergenceOutcomeView::RepositoryNotFound,
{
}

/// A failure whose error text names an unknown revision — and not a missing
/// repository, whose indicator takes precedence — is classified
/// `InvalidReference`.
pub proof fn lemma_invalid_reference(r: CommandResultView)
    requires
        result_wf(r),
        !r.0,
        spec_contains(r.2.unwrap(), "unknown revision"@),
        !spec_contains(r.2.unwrap(), "not a git repository"@),
    ensures
        spec_classify(r) == DivergenceOutcomeView::InvalidReference,
{
}

} // verus!
