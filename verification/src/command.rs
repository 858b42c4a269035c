use vstd::prelude::*;
use vstd::string::StringExecFns;

verus! {

/// Outcome of one external command invocation: a success flag, the captured
/// standard output (present exactly on success) and the captured standard
/// error (present exactly on failure).
pub type CommandResult = (bool, Option<String>, Option<String>);

/// The mathematical shape of a `CommandResult`: the same triple with every
/// piece of text replaced by its character sequence.
pub type CommandResultView = (bool, Option<Seq<char>>, Option<Seq<char>>);

/// A well-formed result carries standard output exactly when the invocation
/// succeeded and standard error exactly when it failed: never both, never
/// neither.
pub open spec fn result_wf(r: CommandResultView) -> bool {
    &&& r.0 ==> r.1 is Some && r.2 is None
    &&& !r.0 ==> r.1 is None && r.2 is Some
}

/// One runnable external command: a program name, its ordered argument list,
/// and the working directory the invocation is scoped to.
pub trait Command {
    /// The program to invoke.
    spec fn program_view(&self) -> Seq<char>;

    /// The ordered argument list; order is semantically significant.
    spec fn args_view(&self) -> Seq<Seq<char>>;

    /// The working directory the invocation is scoped to.
    spec fn path_view(&self) -> Seq<char>;

    fn get_command(&self) -> (r: String)
        ensures
            r@ == self.program_view(),
    ;

    fn get_args(&self) -> (r: Vec<String>)
        ensures
            r.deep_view() == self.args_view(),
    ;

    fn get_path(&self) -> (r: &str)
        ensures
            r@ == self.path_view(),
    ;
}

/// Something that can run a command and hand back its captured outcome.
///
/// Every implementation must return a well-formed result; nothing more is
/// promised, since what an external process prints is outside this crate's
/// control. Implementations that spawn real processes live outside the
/// verified library and are trusted to meet this contract.
pub trait CommandRunner {
    fn run<C: Command>(&self, command: &C) -> (r: CommandResult)
        ensures
            result_wf(r.deep_view()),
    ;
}

/// Packages the captured streams of a finished process into a well-formed
/// result: on success the decoded standard output is kept and standard error
/// is dropped, on failure the other way round.
pub fn assemble_result(success: bool, stdout: String, stderr: String) -> (r: CommandResult)
    ensures
        r.0 == success,
        success ==> r.1 == Some(stdout) && r.2 is None,
        !success ==> r.1 is None && r.2 == Some(stderr),
        result_wf(r.deep_view()),
{
    if success {
        (true, Some(stdout), None)
    } else {
        (false, None, Some(stderr))
    }
}

/// The failure result reported when a command's working directory is not a
/// folder; built before any process is spawned.
pub fn missing_dir_result(path: &str) -> (r: CommandResult)
    ensures
        !r.0,
        r.1 is None,
        r.2 matches Some(msg) && msg@ == "path "@ + path@ + " is not a folder"@,
        result_wf(r.deep_view()),
{
    let mut msg = "path ".to_owned();
    msg.append(path);
    msg.append(" is not a folder");
    (false, None, Some(msg))
}

/// The failure result reported when the external program cannot be launched
/// or waited for; fatal to this invocation only, never to the run.
pub fn spawn_error_result(program: &str) -> (r: CommandResult)
    ensures
        !r.0,
        r.1 is None,
        r.2 matches Some(msg) && msg@ == "could not launch "@ + program@,
        result_wf(r.deep_view()),
{
    let mut msg = "could not launch ".to_owned();
    msg.append(program);
    (false, None, Some(msg))
}

/// The failure result reported when a captured stream is not valid text:
/// the invocation is abandoned rather than given garbled output.
pub fn decode_error_result(stream_name: &str) -> (r: CommandResult)
    ensures
        !r.0,
        r.1 is None,
        r.2 matches Some(msg) && msg@ == "could not decode "@ + stream_name@ + " as text"@,
        result_wf(r.deep_view()),
{
    let mut msg = "could not decode ".to_owned();
    msg.append(stream_name);
    msg.append(" as text");
    (false, None, Some(msg))
}

/// The failure result reported when the working directory cannot be entered;
/// built before any process is spawned.
pub fn dir_not_found_result(path: &str) -> (r: CommandResult)
    ensures
        !r.0,
        r.1 is None,
        r.2 matches Some(msg) && msg@ == "Directory not found "@ + path@,
        result_wf(r.deep_view()),
{
    let mut msg = "Directory not found ".to_owned();
    msg.append(path);
    (false, None, Some(msg))
}

} // verus!
