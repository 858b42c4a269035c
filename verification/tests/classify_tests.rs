use rust_git_diff::classify::{branch_present, classify_diff, DivergenceOutcome};
use rust_git_diff::command::{
    assemble_result, decode_error_result, dir_not_found_result, missing_dir_result,
    spawn_error_result, CommandResult,
};
use rust_git_diff::text::contains_substr;

#[test]
fn classify_empty_output_is_no_divergence() {
    let result: CommandResult = (true, Some(String::new()), None);
    assert_eq!(DivergenceOutcome::NoDivergence, classify_diff(&result));
}

#[test]
fn classify_nonempty_output_is_divergence() {
    let listing = String::from("commit 1111111\n\n    one\n\ncommit 2222222\n\n    two\n");
    let result: CommandResult = (true, Some(listing.clone()), None);
    assert_eq!(
        DivergenceOutcome::DivergenceExists(listing),
        classify_diff(&result)
    );
}

#[test]
fn classify_missing_repository() {
    let stderr =
        String::from("fatal: not a git repository (or any of the parent directories): .git\n");
    let result: CommandResult = (false, None, Some(stderr));
    assert_eq!(DivergenceOutcome::RepositoryNotFound, classify_diff(&result));
}

#[test]
fn classify_unknown_revision() {
    let stderr = String::from(
        "fatal: ambiguous argument 'origin/featureZ': unknown revision or path not in the working tree.\n",
    );
    let result: CommandResult = (false, None, Some(stderr));
    assert_eq!(DivergenceOutcome::InvalidReference, classify_diff(&result));
}

#[test]
fn classify_other_error_is_unknown_failure() {
    let stderr = String::from("fatal: unable to access remote\n");
    let result: CommandResult = (false, None, Some(stderr.clone()));
    assert_eq!(
        DivergenceOutcome::UnknownFailure(stderr),
        classify_diff(&result)
    );
}

#[test]
fn classify_missing_repository_takes_precedence() {
    let stderr = String::from("not a git repository; also unknown revision or path\n");
    let result: CommandResult = (false, None, Some(stderr));
    assert_eq!(DivergenceOutcome::RepositoryNotFound, classify_diff(&result));
}

#[test]
fn branch_present_reads_query_output() {
    let found: CommandResult = (true, Some(String::from("  origin/develop\n")), None);
    let absent: CommandResult = (true, Some(String::new()), None);
    let failed: CommandResult = (false, None, Some(String::from("fatal: broken\n")));
    assert!(branch_present(&found));
    assert!(!branch_present(&absent));
    assert!(!branch_present(&failed));
}

#[test]
fn contains_substr_finds_runs_of_characters() {
    assert!(contains_substr("unknown revision or path", "unknown revision"));
    assert!(contains_substr("abc", "abc"));
    assert!(contains_substr("abc", ""));
    assert!(contains_substr("abc", "c"));
    assert!(!contains_substr("abc", "abcd"));
    assert!(!contains_substr("", "a"));
    assert!(!contains_substr("abab", "aba b"));
}

#[test]
fn assemble_result_keeps_one_stream() {
    let ok = assemble_result(true, String::from("out"), String::from("err"));
    assert_eq!((true, Some(String::from("out")), None), ok);

    let failed = assemble_result(false, String::from("out"), String::from("err"));
    assert_eq!((false, None, Some(String::from("err"))), failed);
}

#[test]
fn missing_dir_result_fails_with_message() {
    let result = missing_dir_result("/tmp/non-existing-folder");
    assert_eq!(false, result.0);
    assert_eq!(None, result.1);
    assert_eq!(
        Some(String::from("path /tmp/non-existing-folder is not a folder")),
        result.2
    );
}

#[test]
fn spawn_error_result_fails_with_message() {
    let result = spawn_error_result("git");
    assert_eq!(false, result.0);
    assert_eq!(None, result.1);
    assert_eq!(Some(String::from("could not launch git")), result.2);
}

#[test]
fn decode_error_result_fails_with_message() {
    let result = decode_error_result("stdout");
    assert_eq!(false, result.0);
    assert_eq!(None, result.1);
    assert_eq!(
        Some(String::from("could not decode stdout as text")),
        result.2
    );
}

#[test]
fn dir_not_found_result_fails_with_message() {
    let result = dir_not_found_result("/tmp/non-existing-folder");
    assert_eq!(false, result.0);
    assert_eq!(None, result.1);
    assert_eq!(
        Some(String::from("Directory not found /tmp/non-existing-folder")),
        result.2
    );
}
