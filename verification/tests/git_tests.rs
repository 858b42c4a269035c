use rust_git_diff::command::Command;
use rust_git_diff::git::{Git, GitCommand, Repo};

#[test]
fn add_repository() {
    let mut git = Git::new();
    git.add_repository(Repo::new("git-test", "/tmp/git-test", "origin", "develop", "main"));

    assert_eq!(true, git.repositories.get(0).is_some());
    assert_eq!(
        String::from("/tmp/git-test"),
        git.repositories.get(0).unwrap().path
    );
    assert_eq!(
        String::from("develop"),
        git.repositories.get(0).unwrap().source_branch
    );
    assert_eq!(
        String::from("main"),
        git.repositories.get(0).unwrap().target_branch
    );
}

#[test]
fn git_command_diff() {
    let command = GitCommand::new("/tmp/git-test").diff("origin", "develop", "main");

    assert_eq!("git", command.get_command());
    assert_eq!(
        "log --no-merges origin/develop ^origin/main",
        command.get_args().join(" ")
    );
    assert_eq!("/tmp/git-test", command.get_path());
}

#[test]
fn git_command_fetch() {
    let command = GitCommand::new("/tmp/git-test").fetch("origin", "main");

    assert_eq!("git", command.get_command());
    assert_eq!("fetch origin main", command.get_args().join(" "));
    assert_eq!("/tmp/git-test", command.get_path());
}

#[test]
fn repo_fetch() {
    let repo = Repo::new("git-test", "/tmp/git-test", "origin", "develop", "main");

    let fetch = repo.fetch();
    let commands = fetch
        .iter()
        .map(|f| f.get_command())
        .collect::<Vec<String>>();
    let args = fetch
        .iter()
        .map(|f| f.get_args().join(" "))
        .collect::<Vec<String>>();

    assert_eq!(2, fetch.len());

    assert_eq!("git", commands.get(0).unwrap());
    assert_eq!("fetch origin develop", args.get(0).unwrap());

    assert_eq!("git", commands.get(1).unwrap());
    assert_eq!("fetch origin main", args.get(1).unwrap());
}

#[test]
fn repo_diff() {
    let repo = Repo::new("git-test", "/tmp/git-test", "origin", "develop", "main");

    let diff = repo.diff();
    let command = diff.get_command();
    let args = diff.get_args().join(" ");

    assert_eq!("git", command);
    assert_eq!("log --no-merges origin/develop ^origin/main", args);
}

#[test]
fn repo_branch_query() {
    let repo = Repo::new("git-test", "/tmp/git-test", "origin", "develop", "main");

    let query = repo.branch_exists("develop");

    assert_eq!("git", query.get_command());
    assert_eq!("branch -r --list origin/develop", query.get_args().join(" "));
    assert_eq!("/tmp/git-test", query.get_path());
}
