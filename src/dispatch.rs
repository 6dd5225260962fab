//! Decisions of the external subcommand dispatcher: the executable's name,
//! the order of the directories searched, which candidate is taken, and the
//! exit status that results.
use vstd::prelude::*;

verus! {

/// Why dispatch to an external subcommand did not succeed.
pub enum DispatchError {
    /// No directory holds the executable; carries its name.
    NotFound(String),
    /// The executable ran and exited with this code.
    Exited(i32),
    /// The executable could not be run, or ended without an exit code.
    Execution(String),
}

/// What became of running the external executable.
pub enum ExecOutcome {
    Completed,
    ExitCode(i32),
    Failed(String),
}

/// The exit status for failures that carry no code of their own.
pub const GENERIC_FAILURE: i32 = 1;

/// The name of the executable that stands for `token`.
pub open spec fn command_name(token: Seq<char>, exe_suffix: Seq<char>) -> Seq<char> {
    "near-"@ + token + exe_suffix
}

/// Builds the executable name for an unrecognized subcommand token.
pub fn external_command_name(token: &str, exe_suffix: &str) -> (r: String)
    ensures
        r@ == command_name(token@, exe_suffix@),
{
    let mut s = String::from_str("near-");
    s.append(token);
    s.append(exe_suffix);
    s
}

/// The directories to search, in order: the tool's own first, then those of
/// `PATH` as listed.
pub fn search_directories(primary: String, path_dirs: Vec<String>) -> (r: Vec<String>)
    ensures
        r@ == seq![primary] + path_dirs@,
{
    let mut dirs: Vec<String> = Vec::new();
    dirs.push(primary);
    let mut rest = path_dirs;
    dirs.append(&mut rest);
    dirs
}

/// Whether a file with these metadata may be run: a regular file with an
/// execute bit set.
pub fn is_executable(is_file: bool, mode: u32) -> (r: bool)
    ensures
        r == (is_file && (mode & 0o111u32) != 0),
{
    is_file && (mode & 0o111u32) != 0
}

/// The index of the first candidate that is executable, if any.
pub fn first_executable(executable: &Vec<bool>) -> (r: Option<usize>)
    ensures
        r matches Some(i) ==> i < executable@.len() && executable@[i as int] && forall|j: int|
            0 <= j < i ==> !#[trigger] executable@[j],
        r is None ==> forall|j: int| 0 <= j < executable@.len() ==> !#[trigger] executable@[j],
{
    let mut i: usize = 0;
    while i < executable.len()
        invariant
            0 <= i <= executable@.len(),
            forall|j: int| 0 <= j < i ==> !#[trigger] executable@[j],
        decreases executable@.len() - i,
    {
        if executable[i] {
            return Some(i);
        }
        i = i + 1;
    }
    None
}

/// Picks the candidate to run, or names the executable that was not found.
pub fn locate(exe_name: String, executable: &Vec<bool>) -> (r: Result<usize, DispatchError>)
    ensures
        r matches Ok(i) ==> i < executable@.len() && executable@[i as int] && forall|j: int|
            0 <= j < i ==> !#[trigger] executable@[j],
        r matches Err(e) ==> e == DispatchError::NotFound(exe_name) && forall|j: int|
            0 <= j < executable@.len() ==> !#[trigger] executable@[j],
{
    match first_executable(executable) {
        Some(i) => Ok(i),
        None => Err(DispatchError::NotFound(exe_name)),
    }
}

/// The message for an executable that was not found.
pub open spec fn not_found_text(exe_name: Seq<char>) -> Seq<char> {
    "command "@ + exe_name + " does not exist"@
}

pub fn not_found_message(exe_name: &String) -> (r: String)
    ensures
        r@ == not_found_text(exe_name@),
{
    let mut s = String::from_str("command ");
    s.append(exe_name.as_str());
    s.append(" does not exist");
    s
}

/// The dispatcher's result for what became of the external executable.
pub fn exec_result(outcome: ExecOutcome) -> (r: Result<(), DispatchError>)
    ensures
        r == match outcome {
            ExecOutcome::Completed => Ok(()),
            ExecOutcome::ExitCode(c) => Err(DispatchError::Exited(c)),
            ExecOutcome::Failed(m) => Err(DispatchError::Execution(m)),
        },
{
    match outcome {
        ExecOutcome::Completed => Ok(()),
        ExecOutcome::ExitCode(c) => Err(DispatchError::Exited(c)),
        ExecOutcome::Failed(m) => Err(DispatchError::Execution(m)),
    }
}

/// The tool's exit status: 0 on success, the external process's own code
/// when it exited with one, and the generic failure status otherwise.
pub fn exit_status(result: &Result<(), DispatchError>) -> (r: i32)
    ensures
        r == match result {
            Ok(()) => 0,
            Err(DispatchError::Exited(c)) => *c,
            Err(_) => GENERIC_FAILURE,
        },
{
    match result {
        Ok(()) => 0,
        Err(DispatchError::Exited(c)) => *c,
        Err(_) => GENERIC_FAILURE,
    }
}

} // verus!
