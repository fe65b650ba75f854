//! The run orchestrator: one sequential pass over the configured checks
//! with the fail / fix protocol, and the mandatory full re-verification
//! pass after any successful fix.

use vstd::prelude::*;
use vstd::string::StrSliceExecFns;

use crate::checks::ExecContext;
use crate::config::Config;
use crate::errors::CheckError;

verus! {

/// Why a run ended early.
#[derive(Debug)]
pub enum RunFailure {
    /// The tool's own version string does not parse as a version.
    InvalidToolVersion { version: String },
    /// A configured version requirement does not parse as one.
    InvalidRequirement { name: String },
    /// A check failed with fixing not requested, or failed during the
    /// re-verification pass.
    CheckFailed { name: String, error: CheckError },
    /// A fix attempt itself failed.
    FixFailed { name: String, error: CheckError },
}

/// One pass over the checks, in configured order.  Each check runs once;
/// on failure in fix mode its fix runs once, and a failing fix ends the
/// pass at once; on failure outside fix mode the pass ends at once.
/// Returns whether at least one fix ran.
pub fn run_checks(config: &Config, repository: &String, fix: bool, ctx: &ExecContext) -> (r:
    Result<bool, RunFailure>)
    requires
        config.wf(),
        ctx.wf(),
    ensures
        !fix ==> (r is Ok ==> r == Ok::<bool, RunFailure>(false)),
        r == Ok::<bool, RunFailure>(true) ==> fix,
        config.checks@.len() == 0 ==> r == Ok::<bool, RunFailure>(false),
        !fix ==> (r matches Err(f) ==> f matches RunFailure::CheckFailed { .. }),
        fix ==> (r matches Err(f) ==> f matches RunFailure::FixFailed { .. }),
        r matches Err(f) ==> (f matches RunFailure::CheckFailed { name, .. }
            ==> config.spec_names().contains(name@)),
        r matches Err(f) ==> (f matches RunFailure::FixFailed { name, .. }
            ==> config.spec_names().contains(name@)),
{
    let mut ran_fix = false;
    let mut i: usize = 0;
    while i < config.checks.len()
        invariant
            i <= config.checks@.len(),
            config.wf(),
            ctx.wf(),
            !fix ==> ran_fix == false,
            i == 0 ==> ran_fix == false,
        decreases config.checks@.len() - i,
    {
        let check = &config.checks[i];
        match check.execute(repository, false, ctx) {
            Ok(_) => {},
            Err(e) => {
                proof {
                    assert(config.spec_names()[i as int] == check.spec_name());
                }
                if fix {
                    match check.execute(repository, true, ctx) {
                        Ok(_) => {
                            ran_fix = true;
                        },
                        Err(fix_error) => {
                            return Err(
                                RunFailure::FixFailed {
                                    name: check.name().to_owned(),
                                    error: fix_error,
                                },
                            );
                        },
                    }
                } else {
                    return Err(
                        RunFailure::CheckFailed { name: check.name().to_owned(), error: e },
                    );
                }
            },
        }
        i = i + 1;
    }
    Ok(ran_fix)
}

/// Drive a whole run: reject an execution context or configuration whose
/// version strings do not parse, run one pass over the checks, and, when
/// fixing was requested and at least one fix ran, run one complete
/// re-verification pass with fixing disabled, whose failures are final.
pub fn run(config: &Config, repository: &String, fix: bool, ctx: &ExecContext) -> (r: Result<
    (),
    RunFailure,
>)
    ensures
        !ctx.wf() ==> (r matches Err(f) && f matches RunFailure::InvalidToolVersion { version }
            && version@ == ctx.tool_version@),
        r matches Err(f) ==> (f matches RunFailure::InvalidToolVersion { .. } ==> !ctx.wf()),
        r matches Err(f) ==> (f matches RunFailure::InvalidRequirement { .. } ==> !config.wf()),
        ctx.wf() && !config.wf() ==> (r matches Err(f) && f
            matches RunFailure::InvalidRequirement { name } && (exists|j: int|
            0 <= j < config.checks@.len() && !config.checks@[j].wf()
                && config.checks@[j].spec_name() == name@)),
        ctx.wf() && config.wf() && config.checks@.len() == 0 ==> r is Ok,
        !fix ==> (r matches Err(f) ==> !(f matches RunFailure::FixFailed { .. })),
        r matches Err(f) ==> (f matches RunFailure::CheckFailed { name, .. }
            ==> config.spec_names().contains(name@)),
        r matches Err(f) ==> (f matches RunFailure::FixFailed { name, .. }
            ==> config.spec_names().contains(name@)),
{
    if !ctx.validate() {
        return Err(RunFailure::InvalidToolVersion { version: ctx.tool_version.clone() });
    }
    let mut i: usize = 0;
    while i < config.checks.len()
        invariant
            i <= config.checks@.len(),
            ctx.wf(),
            forall|j: int| 0 <= j < i ==> config.checks@[j].wf(),
        decreases config.checks@.len() - i,
    {
        if !config.checks[i].validate() {
            let name = config.checks[i].name().to_owned();
            proof {
                assert(exists|j: int|
                    0 <= j < config.checks@.len() && !config.checks@[j].wf()
                        && config.checks@[j].spec_name() == name@) by {
                    assert(!config.checks@[i as int].wf() && config.checks@[i as int].spec_name()
                        == name@);
                }
            }
            return Err(RunFailure::InvalidRequirement { name });
        }
        i = i + 1;
    }
    let ran_fix = match run_checks(config, repository, fix, ctx) {
        Ok(b) => b,
        Err(f) => return Err(f),
    };
    if fix && ran_fix {
        match run_checks(config, repository, false, ctx) {
            Ok(_) => Ok(()),
            Err(f) => Err(f),
        }
    } else {
        Ok(())
    }
}

} // verus!
