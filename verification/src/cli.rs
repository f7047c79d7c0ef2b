//! The command line: what was asked for, and what to do once a plan is
//! made.

use vstd::prelude::*;

verus! {

/// How much is logged.
#[derive(Clone, Copy, Debug, PartialEq, Eq, Structural)]
pub enum LogLevel {
    Trace,
    Debug,
    Info,
    Warn,
    Error,
}

/// What the program is asked to do.
#[derive(Debug)]
pub enum Commands {
    /// Plan the migration to the schema in the file `to`, and run it where
    /// `execute` is set; without `apply_execute` the user is asked first.
    Migrate { execute: bool, apply_execute: bool, to: String },
    /// Print the objects that the database holds.
    Dump,
}

/// The arguments of the command line.
#[derive(Debug)]
pub struct Args {
    pub command: Commands,
    pub log_level: LogLevel,
    pub log_json: bool,
}

/// What follows once the plan is printed.
#[derive(Clone, Copy, Debug, PartialEq, Eq, Structural)]
pub enum NextStep {
    /// Nothing: the plan was only to be shown.
    Stop,
    /// Ask the user whether to run the plan.
    Confirm,
    /// Run the plan.
    Execute,
}

/// What follows the plan, by the flags of the command line.
pub open spec fn step_after_plan(execute: bool, apply_execute: bool) -> NextStep {
    if !execute {
        NextStep::Stop
    } else if apply_execute {
        NextStep::Execute
    } else {
        NextStep::Confirm
    }
}

impl Args {
    /// What follows once the plan is printed: nothing unless the plan is to
    /// be executed; then the plan is run, after the user has agreed where
    /// `apply_execute` is not set. A dump has no plan to run.
    pub fn after_plan(&self) -> (r: NextStep)
        ensures
            r == match self.command {
                Commands::Migrate { execute, apply_execute, .. } => step_after_plan(
                    execute,
                    apply_execute,
                ),
                Commands::Dump => NextStep::Stop,
            },
    {
        match &self.command {
            Commands::Migrate { execute, apply_execute, .. } => {
                if !*execute {
                    NextStep::Stop
                } else if *apply_execute {
                    NextStep::Execute
                } else {
                    NextStep::Confirm
                }
            },
            Commands::Dump => NextStep::Stop,
        }
    }
}

/// The text that `str::to_lowercase` gives.
pub uninterp spec fn lowercase_of(text: Seq<char>) -> Seq<char>;

/// The text that `str::trim` gives.
pub uninterp spec fn trimmed_of(text: Seq<char>) -> Seq<char>;

/// Calls `str::to_lowercase`, which gives the lowercase equivalent of the
/// text as a new string.
#[verifier::external_body]
fn lowercase(text: &str) -> (r: String)
    ensures
        r@ == lowercase_of(text@),
{
    text.to_lowercase()
}

/// Calls `str::trim`, which gives the text without its leading and
/// trailing whitespace.
#[verifier::external_body]
fn trimmed(text: &str) -> (r: &str)
    ensures
        r@ == trimmed_of(text@),
{
    text.trim()
}

/// Whether the word is the one that agrees: `y`.
pub fn is_yes(word: &str) -> (r: bool)
    ensures
        r == (word@ == "y"@),
{
    word.to_owned() == "y".to_owned()
}

/// Whether the user's answer agrees to run the plan: it does when, in
/// lower case and without the whitespace around it, it is `y`.
pub fn confirmed(answer: &str) -> (r: bool)
    ensures
        r == (trimmed_of(lowercase_of(answer@)) == "y"@),
{
    let lower = lowercase(answer);
    is_yes(trimmed(lower.as_str()))
}

} // verus!
