use rust_git_diff::config::{load_repositories, Config, Project};

#[test]
fn defaults_are_applied() {
    let project = Project {
        name: String::from("git-test"),
        folder: String::from("/tmp/git-test"),
        remote_name: None,
        source_branch: String::from("develop"),
        target_branch: None,
    };

    let repo = project.to_repo();

    assert_eq!("git-test", repo.name);
    assert_eq!("/tmp/git-test", repo.path);
    assert_eq!("origin", repo.remote_name);
    assert_eq!("develop", repo.source_branch);
    assert_eq!("main", repo.target_branch);
}

#[test]
fn configured_values_win_over_defaults() {
    let project = Project {
        name: String::from("git-test"),
        folder: String::from("/tmp/git-test"),
        remote_name: Some(String::from("upstream")),
        source_branch: String::from("featureB"),
        target_branch: Some(String::from("release")),
    };

    let repo = project.to_repo();

    assert_eq!("upstream", repo.remote_name);
    assert_eq!("featureB", repo.source_branch);
    assert_eq!("release", repo.target_branch);
}

#[test]
fn repositories_keep_configuration_order() {
    let config = Config {
        projects: vec![
            Project {
                name: String::from("first"),
                folder: String::from("/tmp/first"),
                remote_name: None,
                source_branch: String::from("develop"),
                target_branch: None,
            },
            Project {
                name: String::from("second"),
                folder: String::from("/tmp/second"),
                remote_name: Some(String::from("upstream")),
                source_branch: String::from("featureA"),
                target_branch: Some(String::from("stable")),
            },
        ],
        log_level: Some(String::from("debug")),
    };

    let git = load_repositories(&config);

    assert_eq!(2, git.repositories.len());
    assert_eq!("first", git.repositories[0].name);
    assert_eq!("origin", git.repositories[0].remote_name);
    assert_eq!("second", git.repositories[1].name);
    assert_eq!("upstream", git.repositories[1].remote_name);
    assert_eq!("stable", git.repositories[1].target_branch);
}
