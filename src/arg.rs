use vstd::prelude::*;
use crate::matches::{Matches, occurs, literal_value};

verus! {

/// The full definition of one command-line option, as handed to the
/// argument parser: canonical name, long and short forms, extra aliases,
/// how many values may follow it, and its help text.
pub struct ArgSpec {
    pub name: &'static str,
    pub long: &'static str,
    pub short: &'static str,
    pub aliases: Vec<&'static str>,
    pub value_name: &'static str,
    pub min_values: u64,
    pub max_values: u64,
    pub help: &'static str,
}

/// The global flags of one invocation, read once and passed on.
#[derive(Clone, Copy, PartialEq, Eq, Structural)]
pub struct Config {
    /// Relax checks that would otherwise end the invocation.
    pub force: bool,
    /// Print diagnostic output.
    pub verbose: bool,
}

/// What the user could do differently after a failure.
#[derive(Clone, Copy, PartialEq, Eq, Structural)]
pub struct ErrorHints {
    /// Suggest running again with the force flag.
    pub force: bool,
    /// Suggest running again with verbose output.
    pub verbose: bool,
}

/// A failure that ends the invocation: a message for the user and hints on
/// how to get past it. A single top-level handler prints it and exits.
pub struct QuitError {
    pub message: &'static str,
    pub hints: ErrorHints,
}

/// An option that can describe itself.
pub trait CmdArg {
    /// The canonical name, the key under which the parser records the option.
    spec fn spec_name() -> Seq<char>;

    fn name() -> (r: &'static str)
        ensures
            r@ == Self::spec_name(),
    ;

    fn build() -> (r: ArgSpec)
        ensures
            r.name@ == Self::spec_name(),
    ;
}

/// An option that can be given on its own, without a value.
pub trait CmdArgFlag: CmdArg {
    /// Whether the option was given, with or without a value.
    fn is_present(matches: &Matches) -> (r: bool)
        ensures
            r == occurs(matches@, Self::spec_name()),
    {
        matches.is_present(Self::name())
    }
}

/// An option that carries a value.
pub trait CmdArgOption: CmdArgFlag {
    /// The literal value given after the option: none when the option is
    /// absent or was given bare.
    fn value_raw(matches: &Matches) -> (r: Option<String>)
        ensures
            r.deep_view() == literal_value(matches@, Self::spec_name()),
    {
        matches.value_of(Self::name())
    }
}

} // verus!
