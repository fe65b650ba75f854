//! The command execution contract: split a command line into words, spawn
//! the executable with stderr merged into captured stdout, and classify the
//! outcome into the process-level error taxonomy.

use vstd::prelude::*;
use vstd::string::StrSliceExecFns;

use crate::config::CommandSpec;
use crate::errors::RunCommandError;
use crate::strutil::{contains_i32, views_of};

verus! {

/// What spawning one process yielded.  Which variant comes back depends on
/// the machine, the search path and the spawned program, so the spawn
/// wrapper promises nothing of it; the classification of each variant is
/// verified.
pub enum SpawnOutcome {
    /// The executable was not found.
    NotFound,
    /// Spawning or waiting failed some other way, with the error's message.
    OtherIo(String),
    /// The captured bytes were not valid UTF-8.
    BadUtf8,
    /// The process was terminated by a signal and has no exit code.
    Signalled,
    /// The process ran to an exit code; `output` is the captured combined
    /// stdout/stderr stream.
    Exited { code: i32, output: String },
}

/// Relies on `duct::cmd` and `duct::Expression::{dir, env, stderr_to_stdout,
/// stdout_capture, unchecked, run}`: spawns `program` with `args` in `dir`,
/// stderr joined into the captured stdout stream, one variable of the child
/// environment overridden when `env` is given.  The outcome depends on the
/// machine, so nothing is promised of it.
#[verifier::external_body]
fn spawn_capture(
    program: &str,
    args: &Vec<String>,
    dir: &String,
    env: &Option<(String, String)>,
) -> SpawnOutcome {
    let mut expr = duct::cmd(program, args).dir(dir.as_str()).stderr_to_stdout()
        .stdout_capture().unchecked();
    if let Some((name, value)) = env {
        expr = expr.env(name, value);
    }
    match expr.run() {
        Err(e) if e.kind() == std::io::ErrorKind::NotFound => SpawnOutcome::NotFound,
        Err(e) => SpawnOutcome::OtherIo(e.to_string()),
        Ok(out) => match (String::from_utf8(out.stdout), out.status.code()) {
            (Err(_), _) => SpawnOutcome::BadUtf8,
            (Ok(_), None) => SpawnOutcome::Signalled,
            (Ok(output), Some(code)) => SpawnOutcome::Exited { code, output },
        },
    }
}

/// The words of a command line under shell quoting, or nothing when the
/// quoting is malformed; the result of `shell_words::split`, a function of
/// the line alone.
pub uninterp spec fn shell_split(s: Seq<char>) -> Option<Seq<Seq<char>>>;

/// Relies on `shell_words::split`: tokenization honours quoting and
/// escaping and is a function of the line alone.
#[verifier::external_body]
fn split_words(line: &str) -> (r: Option<Vec<String>>)
    ensures
        r is Some <==> shell_split(line@) is Some,
        r matches Some(v) ==> shell_split(line@) == Some(views_of(v@)),
{
    shell_words::split(line).ok()
}

/// Relies on `std::path::Path::exists`; the answer depends on the disk, so
/// nothing is promised of it.
#[verifier::external_body]
pub(crate) fn dir_exists(path: &String) -> bool {
    std::path::Path::new(path.as_str()).exists()
}

/// Relies on `tempfile::NamedTempFile::{new_in, persist}` and
/// `std::io::Write::write_all`: fills a fresh file beside `path` and moves
/// it onto `path`, replacing any file already there.  Success depends on
/// the disk, so nothing is promised of it.
#[verifier::external_body]
pub(crate) fn write_text_file(path: &String, content: &String) -> Result<(), String> {
    let target = std::path::Path::new(path.as_str());
    let dir = target.parent().unwrap_or(std::path::Path::new("."));
    let mut file = tempfile::NamedTempFile::new_in(dir).map_err(|e| e.to_string())?;
    std::io::Write::write_all(&mut file, content.as_bytes()).map_err(|e| e.to_string())?;
    match file.persist(target) {
        Ok(_) => Ok(()),
        Err(e) => Err(e.error.to_string()),
    }
}

/// Turn the outcome of one spawned process into the process-level result:
/// the captured output on an accepted exit code, the classified error
/// otherwise.
pub fn classify_outcome(
    program: &str,
    success_statuses: &Vec<i32>,
    outcome: SpawnOutcome,
) -> (r: Result<String, RunCommandError>)
    ensures
        outcome is NotFound ==> (r matches Err(e) && e matches RunCommandError::NotFound(n)
            && n@ == program@),
        outcome matches SpawnOutcome::OtherIo(m) ==> r == Err::<String, RunCommandError>(
            RunCommandError::Other(m),
        ),
        outcome is BadUtf8 ==> r == Err::<String, RunCommandError>(RunCommandError::Utf8),
        outcome is Signalled ==> r == Err::<String, RunCommandError>(RunCommandError::Signal),
        outcome matches SpawnOutcome::Exited { code, output } ==> (if success_statuses@.contains(
            code,
        ) {
            r == Ok::<String, RunCommandError>(output)
        } else {
            r == Err::<String, RunCommandError>(
                RunCommandError::StatusCode { output, code },
            )
        }),
{
    match outcome {
        SpawnOutcome::NotFound => Err(RunCommandError::NotFound(program.to_owned())),
        SpawnOutcome::OtherIo(m) => Err(RunCommandError::Other(m)),
        SpawnOutcome::BadUtf8 => Err(RunCommandError::Utf8),
        SpawnOutcome::Signalled => Err(RunCommandError::Signal),
        SpawnOutcome::Exited { code, output } => {
            if contains_i32(success_statuses, code) {
                Ok(output)
            } else {
                Err(RunCommandError::StatusCode { output, code })
            }
        },
    }
}

/// Run one command specification in `dir`: split the line into words, spawn
/// the first word as the executable with the rest as arguments, and classify
/// the outcome against the specification's accepted exit codes.
pub fn run_command(
    cmd: &CommandSpec,
    dir: &String,
    env: &Option<(String, String)>,
) -> (r: Result<String, RunCommandError>)
    ensures
        ({
            let split = shell_split(cmd.spec_command());
            &&& (r == Err::<String, RunCommandError>(RunCommandError::Split) <==> (split is None
                || (split matches Some(words) && words.len() == 0)))
            &&& (r matches Err(e) ==> (e matches RunCommandError::NotFound(n) ==> (split
                matches Some(words) && words.len() > 0 && n@ == words[0])))
            &&& (r matches Err(e) ==> (e matches RunCommandError::StatusCode { code, .. }
                ==> !cmd.spec_statuses().contains(code)))
            &&& (r is Ok ==> (split matches Some(words) && words.len() > 0))
        }),
{
    let words = match split_words(cmd.command().as_str()) {
        Some(words) => words,
        None => return Err(RunCommandError::Split),
    };
    if words.len() == 0 {
        return Err(RunCommandError::Split);
    }
    let program = &words[0];
    let mut args: Vec<String> = Vec::new();
    let mut i: usize = 1;
    while i < words.len()
        invariant
            1 <= i <= words@.len(),
        decreases words@.len() - i,
    {
        args.push(words[i].clone());
        i = i + 1;
    }
    let statuses = cmd.success_statuses();
    let outcome = spawn_capture(program.as_str(), &args, dir, env);
    classify_outcome(program.as_str(), &statuses, outcome)
}

/// Run git with the given arguments in `dir`, accepting only exit code 0.
pub fn run_git(args: Vec<String>, dir: &String) -> (r: Result<String, RunCommandError>)
    ensures
        r matches Err(e) ==> (e matches RunCommandError::NotFound(n) ==> n@ == "git"@),
        r matches Err(e) ==> !(e is Split),
        r matches Err(e) ==> (e matches RunCommandError::StatusCode { code, .. } ==> code != 0),
{
    let mut statuses: Vec<i32> = Vec::new();
    statuses.push(0);
    proof {
        assert(statuses@[0] == 0i32);
    }
    let outcome = spawn_capture("git", &args, dir, &None);
    classify_outcome("git", &statuses, outcome)
}

} // verus!
