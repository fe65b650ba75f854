//! Per-kind check execution: the version gate on the tool itself, the two
//! built-in git checks, and the generic external command check with
//! optional fix command, folder, version gate and output capture.

use vstd::prelude::*;
use vstd::string::StrSliceExecFns;

use crate::config::Check;
use crate::errors::{CheckError, RunCommandError};
use crate::runner::{dir_exists, run_command, run_git, write_text_file};
use crate::strutil::{join_path, spec_join, trim_str, trimmed};
use crate::versions::{req_matches, semver_valid, semver_version_is_valid, version_gate};

verus! {

/// The explicit execution context of one run: the tool's own version and
/// the resolved toolchain pins, gathered once so that execution itself
/// never reads the ambient process environment.
pub struct ExecContext {
    /// The tool's own embedded semantic version.
    pub tool_version: String,
    /// Whether the toolchain-pinning environment variable is set in the
    /// parent environment.
    pub toolchain_env_set: bool,
    /// For each working directory holding a toolchain-pin file, the channel
    /// that file declares.
    pub toolchain_channels: Vec<(String, String)>,
}

impl ExecContext {
    /// The tool's own version string parses as a semantic version.
    pub open spec fn wf(&self) -> bool {
        semver_valid(self.tool_version@)
    }

    /// Decide `wf` at run time.
    pub fn validate(&self) -> (r: bool)
        ensures
            r == self.wf(),
    {
        semver_version_is_valid(self.tool_version.as_str())
    }
}

/// The channel pinned for `dir`, if one was gathered.
pub open spec fn channel_for(channels: Seq<(String, String)>, dir: Seq<char>) -> Option<
    Seq<char>,
>
    decreases channels.len(),
{
    if channels.len() == 0 {
        None
    } else if channels[0].0@ == dir {
        Some(channels[0].1@)
    } else {
        channel_for(channels.drop_first(), dir)
    }
}

/// The environment override for commands running in `dir`: when the
/// toolchain-pinning variable is set in the parent environment and a pin
/// was gathered for `dir`, that variable is overridden with the pinned
/// channel.
pub fn env_override_for(ctx: &ExecContext, dir: &String) -> (r: Option<(String, String)>)
    ensures
        !ctx.toolchain_env_set ==> r is None,
        ctx.toolchain_env_set ==> (r is Some <==> channel_for(ctx.toolchain_channels@, dir@)
            is Some),
        ctx.toolchain_env_set ==> (r matches Some(p) ==> p.0@ == "RUSTUP_TOOLCHAIN"@ && Some(
            p.1@,
        ) == channel_for(ctx.toolchain_channels@, dir@)),
{
    if !ctx.toolchain_env_set {
        return None;
    }
    let channels = &ctx.toolchain_channels;
    let mut i: usize = 0;
    proof {
        assert(channels@.skip(0) =~= channels@);
    }
    while i < channels.len()
        invariant
            i <= channels@.len(),
            ctx.toolchain_env_set,
            channels@ == ctx.toolchain_channels@,
            channel_for(channels@, dir@) == channel_for(channels@.skip(i as int), dir@),
        decreases channels@.len() - i,
    {
        proof {
            assert(channels@.skip(i as int)[0] == channels@[i as int]);
            assert(channels@.skip(i as int).drop_first() =~= channels@.skip(i + 1));
        }
        if channels[i].0.eq(dir) {
            return Some((crate::toolchain::toolchain_env_var().to_owned(), channels[i].1.clone()));
        }
        i = i + 1;
    }
    proof {
        assert(channels@.skip(i as int).len() == 0);
    }
    None
}

/// Decide the clean check from the captured `git status --porcelain -uno`
/// output: the repository is clean exactly when that output is empty.
pub fn clean_verdict(out: &String) -> (r: Result<(), CheckError>)
    ensures
        r is Ok <==> out@.len() == 0,
        out@.len() > 0 ==> r == Err::<(), CheckError>(CheckError::DirtyRepository),
{
    if out.as_str().is_empty() {
        Ok(())
    } else {
        Err(CheckError::DirtyRepository)
    }
}

/// Decide the rebase check from the resolved commits: the branch is rebased
/// exactly when the merge base of upstream and HEAD is the upstream commit
/// itself.
pub fn rebase_verdict(origin: &String, head: &String, merge_base: &String) -> (r: Result<
    (),
    CheckError,
>)
    ensures
        r is Ok <==> trimmed(merge_base@) == origin@,
        trimmed(merge_base@) != origin@ ==> (r matches Err(e) && e
            matches CheckError::NotRebased { local, origin: o } && local@ == head@ && o@
            == origin@),
{
    let mb = trim_str(merge_base.as_str());
    if mb.eq(origin) {
        Ok(())
    } else {
        Err(CheckError::NotRebased { local: head.clone(), origin: origin.clone() })
    }
}

/// The directory a check's commands run in.
fn resolved_dir(repository: &String, folder: &Option<String>) -> (r: String)
    ensures
        r@ == match folder {
            Some(f) => spec_join(repository@, f@),
            None => repository@,
        },
{
    match folder {
        Some(f) => join_path(repository.as_str(), f.as_str()),
        None => repository.clone(),
    }
}

impl Check {
    /// The directory this check's commands run in, resolved against the
    /// repository root.
    pub open spec fn spec_dir(&self, repo: Seq<char>) -> Seq<char> {
        match self {
            Check::Command { folder, .. } => match folder {
                Some(f) => spec_join(repo, f@),
                None => repo,
            },
            _ => repo,
        }
    }

    pub fn working_dir(&self, repository: &String) -> (r: String)
        ensures
            r@ == self.spec_dir(repository@),
    {
        match self {
            Check::Command { folder, .. } => resolved_dir(repository, folder),
            _ => repository.clone(),
        }
    }

    /// Execute the check once against `repository`.  With `fix` set, run
    /// the check's fix command instead of its check command; the built-in
    /// checks have no fix.  When an output path is configured, the selected
    /// command's captured output is persisted there, on success and on a
    /// rejected exit code alike.  Each call is one pass of the per-kind state
    /// machine; what a spawned process yields depends on the machine, so
    /// the contract pins the process-free decisions and the provenance of
    /// each error.
    pub fn execute(&self, repository: &String, fix: bool, ctx: &ExecContext) -> (r: Result<
        (),
        CheckError,
    >)
        requires
            self.wf(),
            ctx.wf(),
        ensures
            self matches Check::Version { version: req } ==> (r is Ok <==> req_matches(
                req@,
                ctx.tool_version@,
            )),
            self matches Check::Version { version: req } ==> (!req_matches(
                req@,
                ctx.tool_version@,
            ) ==> (r matches Err(e) && e matches CheckError::VersionReq { version_req, version }
                && version_req@ == req@ && version@ == ctx.tool_version@)),
            (self is GitClean || self is GitRebased) && fix ==> r == Err::<(), CheckError>(
                CheckError::NoFix,
            ),
            r == Err::<(), CheckError>(CheckError::NoFix) ==> fix,
            r == Err::<(), CheckError>(CheckError::NoFix) ==> (self is GitClean || self
                is GitRebased || (self matches Check::Command { fix_command: None, .. })),
            r == Err::<(), CheckError>(CheckError::DirtyRepository) ==> self is GitClean && !fix,
            r matches Err(e) ==> (e matches CheckError::NotRebased { .. } ==> self is GitRebased
                && !fix),
            r == Err::<(), CheckError>(CheckError::MissingVersionCommand) ==> (self
                matches Check::Command { version: Some(_), version_command: None, .. }),
            (self matches Check::Command { version: Some(_), version_command: None, .. }) ==> (r
                == Err::<(), CheckError>(CheckError::MissingVersionCommand) || (r matches Err(e)
                && e matches CheckError::ExecutionFolder(_))),
            r matches Err(e) ==> (e matches CheckError::ExecutionFolder(d) ==> (self
                is Command && d@ == self.spec_dir(repository@))),
            r matches Err(e) ==> (e matches CheckError::WriteOutput(_) ==> (self
                matches Check::Command { output: Some(_), .. })),
            (self is GitClean || self is GitRebased) ==> (r matches Err(e) ==> (e
                matches CheckError::RunCommand(rc) ==> (!(rc is Split) && (rc
                matches RunCommandError::NotFound(n) ==> n@ == "git"@)))),
            r matches Err(e) ==> (e matches CheckError::VersionFind(_) ==> (self
                matches Check::Command { version: Some(_), version_command: Some(_), .. })),
            r matches Err(e) ==> (e matches CheckError::VersionReq { .. } ==> (self is Version
                || (self matches Check::Command { version: Some(_), .. }))),
    {
        match self {
            Check::Version { version } => {
                match crate::versions::semver_req_matches(
                    version.as_str(),
                    ctx.tool_version.as_str(),
                ) {
                    Some(true) => Ok(()),
                    Some(false) => Err(
                        CheckError::VersionReq {
                            version_req: version.clone(),
                            version: ctx.tool_version.clone(),
                        },
                    ),
                    None => unreached(),
                }
            },
            Check::GitClean => {
                if fix {
                    return Err(CheckError::NoFix);
                }
                let args = vec![
                    "status".to_owned(),
                    "--porcelain".to_owned(),
                    "-uno".to_owned(),
                ];
                let out = match run_git(args, repository) {
                    Ok(o) => o,
                    Err(e) => return Err(CheckError::RunCommand(e)),
                };
                clean_verdict(&out)
            },
            Check::GitRebased => {
                if fix {
                    return Err(CheckError::NoFix);
                }
                match run_git(vec!["fetch".to_owned()], repository) {
                    Ok(_) => (),
                    Err(e) => return Err(CheckError::RunCommand(e)),
                }
                let origin_out = match run_git(
                    vec!["rev-parse".to_owned(), "origin/master".to_owned()],
                    repository,
                ) {
                    Ok(o) => o,
                    Err(e) => return Err(CheckError::RunCommand(e)),
                };
                let origin = trim_str(origin_out.as_str());
                let head_out = match run_git(
                    vec!["rev-parse".to_owned(), "HEAD".to_owned()],
                    repository,
                ) {
                    Ok(o) => o,
                    Err(e) => return Err(CheckError::RunCommand(e)),
                };
                let head = trim_str(head_out.as_str());
                let merge_base = match run_git(
                    vec!["merge-base".to_owned(), origin.clone(), head.clone()],
                    repository,
                ) {
                    Ok(o) => o,
                    Err(e) => return Err(CheckError::RunCommand(e)),
                };
                rebase_verdict(&origin, &head, &merge_base)
            },
            Check::Command { command, fix_command, folder, version_command, version, output, .. } => {
                let dir = resolved_dir(repository, folder);
                if !dir_exists(&dir) {
                    return Err(CheckError::ExecutionFolder(dir));
                }
                let env = env_override_for(ctx, &dir);
                match (version, version_command) {
                    (Some(_), None) => {
                        return Err(CheckError::MissingVersionCommand);
                    },
                    (Some(req), Some(version_command)) => {
                        let out = match run_command(version_command, &dir, &env) {
                            Ok(o) => o,
                            Err(e) => return Err(CheckError::RunCommand(e)),
                        };
                        match version_gate(req, &out) {
                            Ok(_) => (),
                            Err(e) => return Err(e),
                        }
                    },
                    _ => (),
                }
                let selected = if fix {
                    match fix_command {
                        None => return Err(CheckError::NoFix),
                        Some(fix_command) => fix_command,
                    }
                } else {
                    command
                };
                let outcome = run_command(selected, &dir, &env);
                if let Some(path) = output {
                    match &outcome {
                        Ok(stdout) => {
                            match write_text_file(path, stdout) {
                                Ok(_) => (),
                                Err(m) => return Err(CheckError::WriteOutput(m)),
                            }
                        },
                        Err(RunCommandError::StatusCode { output: captured, .. }) => {
                            match write_text_file(path, captured) {
                                Ok(_) => (),
                                Err(m) => return Err(CheckError::WriteOutput(m)),
                            }
                        },
                        _ => (),
                    }
                }
                match outcome {
                    Ok(_) => Ok(()),
                    Err(e) => Err(CheckError::RunCommand(e)),
                }
            },
        }
    }
}

} // verus!
