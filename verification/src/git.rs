use vstd::prelude::*;
use vstd::string::StringExecFns;
use crate::command::Command;

verus! {

/// The remote-tracking reference name `remote/branch`.
pub open spec fn spec_ref(remote: Seq<char>, branch: Seq<char>) -> Seq<char> {
    remote + "/"@ + branch
}

/// The exclusion form `^remote/branch`: commits reachable from this
/// reference are left out of a log listing.
pub open spec fn spec_not_ref(remote: Seq<char>, branch: Seq<char>) -> Seq<char> {
    "^"@ + spec_ref(remote, branch)
}

/// A command that fetches `remote`/`branch`, scoped to `path`.
pub open spec fn is_fetch_command(
    c: GitCommand,
    path: Seq<char>,
    remote: Seq<char>,
    branch: Seq<char>,
) -> bool {
    &&& c.command@ == "git"@
    &&& c.path@ == path
    &&& c.args.deep_view() == seq!["fetch"@, remote, branch]
}

/// A command that lists the commits reachable from `remote`/`source` but not
/// from `remote`/`target`, merge commits excluded, scoped to `path`.
pub open spec fn is_diff_command(
    c: GitCommand,
    path: Seq<char>,
    remote: Seq<char>,
    source: Seq<char>,
    target: Seq<char>,
) -> bool {
    &&& c.command@ == "git"@
    &&& c.path@ == path
    &&& c.args.deep_view() == seq![
        "log"@,
        "--no-merges"@,
        spec_ref(remote, source),
        spec_not_ref(remote, target),
    ]
}

/// A command that queries whether the remote-tracking reference
/// `remote`/`branch` exists: it succeeds with non-empty output exactly when
/// the reference is known.
pub open spec fn is_branch_query_command(
    c: GitCommand,
    path: Seq<char>,
    remote: Seq<char>,
    branch: Seq<char>,
) -> bool {
    &&& c.command@ == "git"@
    &&& c.path@ == path
    &&& c.args.deep_view() == seq!["branch"@, "-r"@, "--list"@, spec_ref(remote, branch)]
}

/// Builds the reference name `remote/branch`.
pub fn remote_ref(remote_name: &str, branch: &str) -> (r: String)
    ensures
        r@ == spec_ref(remote_name@, branch@),
{
    let mut s = remote_name.to_owned();
    s.append("/");
    s.append(branch);
    s
}

/// One repository to check: a display name, the folder the commands run in,
/// the remote to fetch from, and the two branches whose divergence is asked
/// about.
pub struct Repo {
    pub name: String,
    pub path: String,
    pub remote_name: String,
    pub source_branch: String,
    pub target_branch: String,
}

impl Repo {
    pub fn new(
        name: &str,
        path: &str,
        remote_name: &str,
        source_branch: &str,
        target_branch: &str,
    ) -> (r: Repo)
        ensures
            r.name@ == name@,
            r.path@ == path@,
            r.remote_name@ == remote_name@,
            r.source_branch@ == source_branch@,
            r.target_branch@ == target_branch@,
    {
        Repo {
            name: name.to_owned(),
            path: path.to_owned(),
            remote_name: remote_name.to_owned(),
            source_branch: source_branch.to_owned(),
            target_branch: target_branch.to_owned(),
        }
    }

    /// The two fetch commands for this repository: first the source branch,
    /// then the target branch, both scoped to the repository's folder.
    pub fn fetch(&self) -> (cmds: Vec<GitCommand>)
        ensures
            cmds@.len() == 2,
            is_fetch_command(cmds@[0], self.path@, self.remote_name@, self.source_branch@),
            is_fetch_command(cmds@[1], self.path@, self.remote_name@, self.target_branch@),
    {
        let mut commands = Vec::new();
        commands.push(
            GitCommand::new(self.path.as_str()).fetch(
                self.remote_name.as_str(),
                self.source_branch.as_str(),
            ),
        );
        commands.push(
            GitCommand::new(self.path.as_str()).fetch(
                self.remote_name.as_str(),
                self.target_branch.as_str(),
            ),
        );
        commands
    }

    /// The command that computes this repository's divergence listing.
    pub fn diff(&self) -> (c: GitCommand)
        ensures
            is_diff_command(
                c,
                self.path@,
                self.remote_name@,
                self.source_branch@,
                self.target_branch@,
            ),
    {
        GitCommand::new(self.path.as_str()).diff(
            self.remote_name.as_str(),
            self.source_branch.as_str(),
            self.target_branch.as_str(),
        )
    }

    /// The command that asks whether the remote-tracking reference for
    /// `branch` exists in this repository.
    pub fn branch_exists(&self, branch: &str) -> (c: GitCommand)
        ensures
            is_branch_query_command(c, self.path@, self.remote_name@, branch@),
    {
        GitCommand::new(self.path.as_str()).branch_query(self.remote_name.as_str(), branch)
    }
}

/// The collection of repositories one run checks, in configuration order.
pub struct Git {
    pub repositories: Vec<Repo>,
}

impl Git {
    pub fn new() -> (g: Git)
        ensures
            g.repositories@ == Seq::<Repo>::empty(),
    {
        Git { repositories: Vec::new() }
    }

    pub fn add_repository(&mut self, repository: Repo)
        ensures
            final(self).repositories@ == old(self).repositories@.push(repository),
    {
        self.repositories.push(repository);
    }
}

/// An immutable value describing one invocation of the version-control tool:
/// the program, its ordered arguments, and the folder it runs in. Built once
/// by the chained append operations below and then executed once.
#[derive(Clone)]
pub struct GitCommand {
    pub command: String,
    pub args: Vec<String>,
    pub path: String,
}

impl GitCommand {
    pub fn new(path: &str) -> (c: GitCommand)
        ensures
            c.command@ == "git"@,
            c.args.deep_view() == Seq::<Seq<char>>::empty(),
            c.path@ == path@,
    {
        let command = GitCommand {
            command: "git".to_owned(),
            args: Vec::new(),
            path: path.to_owned(),
        };
        proof {
            assert(command.args.deep_view() =~= Seq::<Seq<char>>::empty());
        }
        command
    }

    /// Appends the arguments of a divergence listing: commits reachable from
    /// `remote_name`/`source_branch` but not from `remote_name`/`target_branch`,
    /// with merge commits excluded.
    pub fn diff(self, remote_name: &str, source_branch: &str, target_branch: &str) -> (c:
        GitCommand)
        ensures
            c.command == self.command,
            c.path == self.path,
            c.args.deep_view() == self.args.deep_view() + seq![
                "log"@,
                "--no-merges"@,
                spec_ref(remote_name@, source_branch@),
                spec_not_ref(remote_name@, target_branch@),
            ],
    {
        let mut c = self;
        c.args.push("log".to_owned());
        c.args.push("--no-merges".to_owned());
        c.args.push(remote_ref(remote_name, source_branch));
        let mut excluded = "^".to_owned();
        excluded.append(remote_name);
        excluded.append("/");
        excluded.append(target_branch);
        proof {
            assert(excluded@ =~= spec_not_ref(remote_name@, target_branch@));
        }
        c.args.push(excluded);
        proof {
            assert(c.args.deep_view() =~~= self.args.deep_view() + seq![
                "log"@,
                "--no-merges"@,
                spec_ref(remote_name@, source_branch@),
                spec_not_ref(remote_name@, target_branch@),
            ]);
        }
        c
    }

    /// Appends the arguments that fetch `branch` from `remote_name`.
    pub fn fetch(self, remote_name: &str, branch: &str) -> (c: GitCommand)
        ensures
            c.command == self.command,
            c.path == self.path,
            c.args.deep_view() == self.args.deep_view() + seq!["fetch"@, remote_name@, branch@],
    {
        let mut c = self;
        c.args.push("fetch".to_owned());
        c.args.push(remote_name.to_owned());
        c.args.push(branch.to_owned());
        proof {
            assert(c.args.deep_view() =~~= self.args.deep_view() + seq![
                "fetch"@,
                remote_name@,
                branch@,
            ]);
        }
        c
    }

    /// Appends the arguments that list the remote-tracking reference
    /// `remote_name`/`branch`, if it exists.
    pub fn branch_query(self, remote_name: &str, branch: &str) -> (c: GitCommand)
        ensures
            c.command == self.command,
            c.path == self.path,
            c.args.deep_view() == self.args.deep_view() + seq![
                "branch"@,
                "-r"@,
                "--list"@,
                spec_ref(remote_name@, branch@),
            ],
    {
        let mut c = self;
        c.args.push("branch".to_owned());
        c.args.push("-r".to_owned());
        c.args.push("--list".to_owned());
        c.args.push(remote_ref(remote_name, branch));
        proof {
            assert(c.args.deep_view() =~~= self.args.deep_view() + seq![
                "branch"@,
                "-r"@,
                "--list"@,
                spec_ref(remote_name@, branch@),
            ]);
        }
        c
    }
}

impl Command for GitCommand {
    open spec fn program_view(&self) -> Seq<char> {
        self.command@
    }

    open spec fn args_view(&self) -> Seq<Seq<char>> {
        self.args.deep_view()
    }

    open spec fn path_view(&self) -> Seq<char> {
        self.path@
    }

    fn get_command(&self) -> (r: String) {
        self.command.clone()
    }

    fn get_args(&self) -> (r: Vec<String>) {
        let copy = self.args.clone();
        proof {
            broadcast use vstd::std_specs::vec::vec_clone_deep_view_proof;

            assert forall|i: int| 0 <= i < self.args@.len() implies #[trigger] copy.deep_view()[i]
                == self.args.deep_view()[i] by {
                assert(cloned::<String>(self.args@[i], copy@[i]));
            };
            assert(copy.deep_view() =~= self.args.deep_view());
        }
        copy
    }

    fn get_path(&self) -> (r: &str) {
        self.path.as_str()
    }
}

} // verus!
