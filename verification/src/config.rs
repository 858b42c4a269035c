use vstd::prelude::*;
use crate::git::{Git, Repo};

verus! {

/// The configuration file's shape: the repositories to check and an
/// optional logging level.
#[derive(Clone)]
pub struct Config {
    pub projects: Vec<Project>,
    pub log_level: Option<String>,
}

/// One configured repository, before defaults are applied: the remote
/// defaults to `origin` and the target branch to `main`.
#[derive(Clone)]
pub struct Project {
    pub name: String,
    pub folder: String,
    pub remote_name: Option<String>,
    pub source_branch: String,
    pub target_branch: Option<String>,
}

/// `r` is the repository that the configuration entry `p` describes, with
/// the defaults applied.
pub open spec fn repo_matches_project(r: Repo, p: Project) -> bool {
    &&& r.name@ == p.name@
    &&& r.path@ == p.folder@
    &&& (p.remote_name matches Some(n) ==> r.remote_name@ == n@)
    &&& (p.remote_name is None ==> r.remote_name@ == "origin"@)
    &&& r.source_branch@ == p.source_branch@
    &&& (p.target_branch matches Some(t) ==> r.target_branch@ == t@)
    &&& (p.target_branch is None ==> r.target_branch@ == "main"@)
}

impl Project {
    /// The repository this entry describes, with the defaults applied.
    pub fn to_repo(&self) -> (r: Repo)
        ensures
            repo_matches_project(r, *self),
    {
        Repo::new(
            self.name.as_str(),
            self.folder.as_str(),
            match &self.remote_name {
                Some(remote_name) => remote_name.as_str(),
                None => "origin",
            },
            self.source_branch.as_str(),
            match &self.target_branch {
                Some(target_branch) => target_branch.as_str(),
                None => "main",
            },
        )
    }
}

/// Builds the run's repository list from a configuration: one repository per
/// configured project, in configuration order, with the defaults applied.
pub fn load_repositories(config: &Config) -> (g: Git)
    ensures
        g.repositories@.len() == config.projects@.len(),
        forall|i: int|
            0 <= i < config.projects@.len() ==> repo_matches_project(
                #[trigger] g.repositories@[i],
                config.projects@[i],
            ),
{
    let mut git = Git::new();
    let mut i: usize = 0;
    while i < config.projects.len()
        invariant
            i <= config.projects@.len(),
            git.repositories@.len() == i,
            forall|j: int|
                0 <= j < i ==> repo_matches_project(
                    #[trigger] git.repositories@[j],
                    config.projects@[j],
                ),
        decreases config.projects@.len() - i,
    {
        git.add_repository(config.projects[i].to_repo());
        i = i + 1;
    }
    git
}

} // verus!
