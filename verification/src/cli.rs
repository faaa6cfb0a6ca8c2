//! The command-line surface as plain data: the parsed invocation and the
//! decisions made from it. Argument parsing, environment reading and
//! process control live with the surrounding program; this module holds
//! only the values and the profile-resolution rule.

use vstd::prelude::*;

verus! {

/// Options of the `run` subcommand.
pub struct RunOpts {}

/// The reserved migration subcommand family; it has no members yet, and no
/// caller outside this crate can construct it.
#[non_exhaustive]
pub struct MigrationOpts {}

/// Which subcommand was invoked.
pub enum GotchaCommand {
    Run(RunOpts),
    Migration(MigrationOpts),
}

/// One parsed invocation: the global profile flag and the subcommand.
pub struct Cli {
    pub profile: Option<String>,
    pub command: GotchaCommand,
}

impl Cli {
    /// The profile that takes effect: the command-line flag when given,
    /// else the environment's, else none.
    pub open spec fn spec_effective_profile(
        flag: Option<Seq<char>>,
        env: Option<Seq<char>>,
    ) -> Option<Seq<char>> {
        if flag is Some {
            flag
        } else {
            env
        }
    }

    /// Resolve the effective profile from this invocation's flag and the
    /// environment's value, which the caller reads and passes in.
    pub fn effective_profile(&self, env: Option<String>) -> (r: Option<String>)
        ensures
            r.deep_view() == Cli::spec_effective_profile(self.profile.deep_view(), env.deep_view()),
    {
        match &self.profile {
            Some(p) => Some(p.clone()),
            None => env,
        }
    }

    /// Whether this invocation asks to start serving.
    pub fn is_run(&self) -> (r: bool)
        ensures
            r == (self.command is Run),
    {
        match &self.command {
            GotchaCommand::Run(_) => true,
            GotchaCommand::Migration(_) => false,
        }
    }
}

} // verus!
