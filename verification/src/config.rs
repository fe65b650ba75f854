//! The check model: command specifications, the closed set of check kinds,
//! the run configuration, and `only`/`skip` filtering.

use vstd::prelude::*;
use vstd::string::StrSliceExecFns;

use crate::strutil::{contains_string, views_of};
use crate::versions::{req_valid, semver_req_is_valid};

verus! {

/// A command line together with the set of exit codes that count as success.
pub enum CommandSpec {
    /// A bare command line; success is exit code 0.
    Simple(String),
    /// A command line with an explicit set of accepted exit codes.
    Complex { command: String, success_statuses: Vec<i32> },
}

impl CommandSpec {
    /// The command line to split and spawn.
    pub open spec fn spec_command(&self) -> Seq<char> {
        match self {
            CommandSpec::Simple(command) => command@,
            CommandSpec::Complex { command, .. } => command@,
        }
    }

    /// The exit codes that count as success.
    pub open spec fn spec_statuses(&self) -> Seq<i32> {
        match self {
            CommandSpec::Simple(_) => seq![0i32],
            CommandSpec::Complex { success_statuses, .. } => success_statuses@,
        }
    }

    pub fn command(&self) -> (r: &String)
        ensures
            r@ == self.spec_command(),
    {
        match self {
            CommandSpec::Simple(command) => command,
            CommandSpec::Complex { command, .. } => command,
        }
    }

    pub fn success_statuses(&self) -> (r: Vec<i32>)
        ensures
            r@ == self.spec_statuses(),
    {
        match self {
            CommandSpec::Simple(_) => {
                let mut v: Vec<i32> = Vec::new();
                v.push(0);
                proof {
                    assert(v@ =~= seq![0i32]);
                }
                v
            },
            CommandSpec::Complex { success_statuses, .. } => {
                let mut v: Vec<i32> = Vec::new();
                let mut i: usize = 0;
                while i < success_statuses.len()
                    invariant
                        i <= success_statuses@.len(),
                        v@ == success_statuses@.take(i as int),
                    decreases success_statuses@.len() - i,
                {
                    v.push(success_statuses[i]);
                    proof {
                        assert(success_statuses@.take(i as int).push(success_statuses@[i as int])
                            =~= success_statuses@.take(i + 1));
                    }
                    i = i + 1;
                }
                proof {
                    assert(success_statuses@.take(i as int) =~= success_statuses@);
                }
                v
            },
        }
    }
}

/// Law: a bare command line and the same line with the accepted exit codes
/// `{0}` agree on everything a run depends on — the command line that is
/// split and spawned and the set of exit codes that count as success — so
/// the two forms behave identically everywhere a `CommandSpec` is consumed.
pub proof fn lemma_simple_equals_complex_zero(line: String, statuses: Vec<i32>)
    requires
        statuses@ == seq![0i32],
    ensures
        ({
            let bare = CommandSpec::Simple(line);
            let explicit = (CommandSpec::Complex { command: line, success_statuses: statuses });
            bare.spec_command() == explicit.spec_command() && bare.spec_statuses()
                == explicit.spec_statuses()
        }),
{
}

/// One configured check.
#[allow(inconsistent_fields)]
pub enum Check {
    /// Compare the tool's own version against a requirement.
    Version { version: String },
    /// Fail when the repository has uncommitted changes to tracked files.
    GitClean,
    /// Fail when the repository is not rebased on `origin/master`.
    GitRebased,
    /// Run an external command.
    Command {
        name: String,
        /// Command to execute.
        command: CommandSpec,
        /// Command that attempts to fix failures.
        fix_command: Option<CommandSpec>,
        /// Directory where the command runs, relative to the repository root.
        folder: Option<String>,
        /// Command whose output yields a version to check against `version`.
        version_command: Option<CommandSpec>,
        /// Version requirement on the external tool.
        version: Option<String>,
        /// Save the captured output at this location, overwriting.
        output: Option<String>,
    },
}

impl Check {
    /// The stable name used for reporting and for `only`/`skip` filtering.
    pub open spec fn spec_name(&self) -> Seq<char> {
        match self {
            Check::Version { .. } => "version"@,
            Check::GitClean => "git-is-clean"@,
            Check::GitRebased => "git-is-rebased"@,
            Check::Command { name, .. } => name@,
        }
    }

    pub fn name(&self) -> (r: &str)
        ensures
            r@ == self.spec_name(),
    {
        match self {
            Check::Version { .. } => "version",
            Check::GitClean => "git-is-clean",
            Check::GitRebased => "git-is-rebased",
            Check::Command { name, .. } => name.as_str(),
        }
    }

    /// Every version requirement the check holds parses as one.
    pub open spec fn wf(&self) -> bool {
        match self {
            Check::Version { version } => req_valid(version@),
            Check::Command { version, .. } => match version {
                Some(v) => req_valid(v@),
                None => true,
            },
            _ => true,
        }
    }

    /// Decide `wf` at run time.
    pub fn validate(&self) -> (r: bool)
        ensures
            r == self.wf(),
    {
        match self {
            Check::Version { version } => semver_req_is_valid(version.as_str()),
            Check::Command { version: Some(v), .. } => semver_req_is_valid(v.as_str()),
            _ => true,
        }
    }
}

/// Where a tool bundle would be downloaded from and unpacked to.
pub struct BundleConfig {
    pub url: String,
    pub path: String,
}

/// The ordered, immutable list of checks of one run.
pub struct Config {
    pub checks: Vec<Check>,
    pub bundle: Option<BundleConfig>,
}

/// Why filtering was rejected.
#[derive(Debug)]
pub enum FilterError {
    /// `only` and `skip` were both given; they are mutually exclusive.
    BothFilters,
    /// A `skip` entry names no configured check.
    UnknownSkip,
    /// An `only` entry names no configured check.
    UnknownOnly,
}

/// Whether every name of `sub` occurs in `names`.
pub open spec fn name_subset(sub: Seq<Seq<char>>, names: Seq<Seq<char>>) -> bool {
    forall|i: int| 0 <= i < sub.len() ==> names.contains(sub[i])
}

/// Whether a check survives the `only`/`skip` filters.
pub open spec fn keep_check(c: Check, only: Seq<Seq<char>>, skip: Seq<Seq<char>>) -> bool {
    (only.len() == 0 || only.contains(c.spec_name())) && !skip.contains(c.spec_name())
}

/// The checks surviving the `only`/`skip` filters, in order.
pub open spec fn kept_of(checks: Seq<Check>, only: Seq<Seq<char>>, skip: Seq<Seq<char>>) -> Seq<
    Check,
>
    decreases checks.len(),
{
    if checks.len() == 0 {
        Seq::empty()
    } else {
        let rest = kept_of(checks.drop_first(), only, skip);
        if keep_check(checks[0], only, skip) {
            seq![checks[0]] + rest
        } else {
            rest
        }
    }
}

impl Config {
    /// Every check of the configuration is well formed.
    pub open spec fn wf(&self) -> bool {
        forall|i: int| 0 <= i < self.checks@.len() ==> self.checks@[i].wf()
    }

    /// Decide `wf` at run time.
    pub fn validate(&self) -> (r: bool)
        ensures
            r == self.wf(),
    {
        let mut i: usize = 0;
        while i < self.checks.len()
            invariant
                i <= self.checks@.len(),
                forall|j: int| 0 <= j < i ==> self.checks@[j].wf(),
            decreases self.checks@.len() - i,
        {
            if !self.checks[i].validate() {
                return false;
            }
            i = i + 1;
        }
        true
    }

    /// The names of the configured checks, in order.
    pub open spec fn spec_names(&self) -> Seq<Seq<char>> {
        self.checks@.map_values(|c: Check| c.spec_name())
    }

    /// Whether some configured check is named `name`.
    pub fn has_check_named(&self, name: &String) -> (r: bool)
        ensures
            r == self.spec_names().contains(name@),
    {
        let mut i: usize = 0;
        while i < self.checks.len()
            invariant
                i <= self.checks@.len(),
                forall|j: int| 0 <= j < i ==> self.spec_names()[j] != name@,
            decreases self.checks@.len() - i,
        {
            if name.eq(&self.checks[i].name().to_owned()) {
                proof {
                    assert(self.spec_names()[i as int] == name@);
                }
                return true;
            }
            i = i + 1;
        }
        proof {
            assert(forall|j: int|
                0 <= j < self.spec_names().len() ==> self.spec_names()[j] != name@);
        }
        false
    }

    /// Whether every name of `sub` names a configured check.
    fn covers_all(&self, sub: &Vec<String>) -> (r: bool)
        ensures
            r == name_subset(views_of(sub@), self.spec_names()),
    {
        let mut i: usize = 0;
        while i < sub.len()
            invariant
                i <= sub@.len(),
                forall|j: int| 0 <= j < i ==> self.spec_names().contains(views_of(sub@)[j]),
            decreases sub@.len() - i,
        {
            if !self.has_check_named(&sub[i]) {
                proof {
                    assert(views_of(sub@)[i as int] == sub@[i as int]@);
                }
                return false;
            }
            i = i + 1;
        }
        true
    }

    /// Restrict the run to the `only` checks, or drop the `skip` checks.
    /// The two filters are mutually exclusive, and each must name only
    /// configured checks; otherwise the configuration is left unchanged
    /// and the run is rejected before any check executes.
    pub fn filter(&mut self, only: &Vec<String>, skip: &Vec<String>) -> (r: Result<
        (),
        FilterError,
    >)
        ensures
            ({
                let both = only@.len() > 0 && skip@.len() > 0;
                let skip_ok = name_subset(views_of(skip@), old(self).spec_names());
                let only_ok = name_subset(views_of(only@), old(self).spec_names());
                &&& (r == Err::<(), FilterError>(FilterError::BothFilters) <==> both)
                &&& (r == Err::<(), FilterError>(FilterError::UnknownSkip) <==> (!both
                    && !skip_ok))
                &&& (r == Err::<(), FilterError>(FilterError::UnknownOnly) <==> (!both && skip_ok
                    && !only_ok))
                &&& (r is Ok <==> (!both && skip_ok && only_ok))
                &&& (r is Ok ==> final(self).checks@ == kept_of(
                    old(self).checks@,
                    views_of(only@),
                    views_of(skip@),
                ) && final(self).bundle == old(self).bundle)
                &&& (r is Err ==> *final(self) == *old(self))
            }),
    {
        if only.len() > 0 && skip.len() > 0 {
            return Err(FilterError::BothFilters);
        }
        if !self.covers_all(skip) {
            return Err(FilterError::UnknownSkip);
        }
        if !self.covers_all(only) {
            return Err(FilterError::UnknownOnly);
        }
        let ghost orig = self.checks@;
        let ghost o = views_of(only@);
        let ghost s = views_of(skip@);
        let mut kept: Vec<Check> = Vec::new();
        while self.checks.len() > 0
            invariant
                kept_of(orig, o, s) == kept@ + kept_of(self.checks@, o, s),
                o == views_of(only@),
                s == views_of(skip@),
                orig == old(self).checks@,
                self.bundle == old(self).bundle,
            decreases self.checks@.len(),
        {
            let ghost before = self.checks@;
            let c = self.checks.remove(0);
            proof {
                assert(before.remove(0) =~= before.drop_first());
                assert(c == before[0]);
            }
            let name_string = c.name().to_owned();
            let keep = (only.len() == 0 || contains_string(only, &name_string))
                && !contains_string(skip, &name_string);
            proof {
                assert(keep == keep_check(c, o, s));
            }
            if keep {
                proof {
                    assert(kept@.push(c) + kept_of(self.checks@, o, s) =~= kept@ + (seq![c]
                        + kept_of(self.checks@, o, s)));
                }
                kept.push(c);
            }
        }
        proof {
            assert(kept_of(self.checks@, o, s) == Seq::<Check>::empty());
            assert(kept@ + Seq::<Check>::empty() =~= kept@);
        }
        core::mem::swap(&mut self.checks, &mut kept);
        Ok(())
    }
}

/// The resolved command-line options of one run.
pub struct Flags {
    /// Repository root; when absent it is deduced from the current directory.
    pub repository: Option<String>,
    /// Skip these checks.
    pub skip: Vec<String>,
    /// Only perform these checks.
    pub only: Vec<String>,
    /// Configuration path relative to the repository root.
    pub config: String,
    /// Try to fix errors.
    pub fix: bool,
}

} // verus!
