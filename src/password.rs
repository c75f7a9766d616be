use vstd::prelude::*;
use crate::arg::{ArgSpec, CmdArg, CmdArgFlag, CmdArgOption, Config, ErrorHints, QuitError};
use crate::matches::{Matches, occurs, literal_value};

verus! {

/// Shown when an empty password is given without the force override.
pub const EMPTY_PASSWORD_MESSAGE: &'static str = "An empty password is not supported by the web interface";

/// The password option: `--password`, `-p` or `--pass`, with at most one
/// value. Given bare, the password is asked for at a prompt.
pub struct ArgPassword {}

/// A candidate password passes the policy when it is non-empty or the force
/// override is active.
pub open spec fn accepts(candidate: Seq<char>, force: bool) -> bool {
    candidate.len() > 0 || force
}

/// The failure for an empty password: the fixed message, a hint to use the
/// force flag, and no hint to use verbose output.
pub open spec fn is_empty_password_error(e: QuitError) -> bool {
    &&& e.message@ == EMPTY_PASSWORD_MESSAGE@
    &&& e.hints.force
    &&& !e.hints.verbose
}

/// `r` is what validating `candidate` gives: the candidate itself, unchanged,
/// or the empty-password failure.
pub open spec fn validated(
    candidate: Seq<char>,
    force: bool,
    r: Result<Option<String>, QuitError>,
) -> bool {
    if accepts(candidate, force) {
        r matches Ok(Some(v)) && v@ == candidate
    } else {
        r matches Err(e) && is_empty_password_error(e)
    }
}

/// Resolution asks the prompt: the option was given, but bare.
pub open spec fn prompts(m: Seq<(Seq<char>, Seq<Seq<char>>)>) -> bool {
    occurs(m, ArgPassword::spec_name()) && literal_value(m, ArgPassword::spec_name()) is None
}

/// `r` is a result of resolving the password against the recorded options
/// `m`, the configuration `config`, and a prompt that may answer anything
/// that `prompt` allows.
pub open spec fn resolves_to<F: FnOnce(Config) -> String>(
    m: Seq<(Seq<char>, Seq<Seq<char>>)>,
    config: Config,
    prompt: F,
    r: Result<Option<String>, QuitError>,
) -> bool {
    if !occurs(m, ArgPassword::spec_name()) {
        r matches Ok(None)
    } else {
        match literal_value(m, ArgPassword::spec_name()) {
            Some(v) => validated(v, config.force, r),
            None => exists|p: String| #[trigger] prompt.ensures((config,), p) && validated(p@, config.force, r),
        }
    }
}

/// What a resolution result says, with strings read as character sequences.
pub open spec fn outcome(r: Result<Option<String>, QuitError>) -> Result<Option<Seq<char>>, (Seq<char>, ErrorHints)> {
    match r {
        Ok(Some(v)) => Ok(Some(v@)),
        Ok(None) => Ok(None),
        Err(e) => Err((e.message@, e.hints)),
    }
}

impl CmdArg for ArgPassword {
    open spec fn spec_name() -> Seq<char> {
        "password"@
    }

    fn name() -> (r: &'static str) {
        "password"
    }

    fn build() -> (r: ArgSpec)
        ensures
            r.long@ == "password"@,
            r.short@ == "p"@,
            r.aliases@.len() == 1,
            r.aliases@[0]@ == "pass"@,
            r.value_name@ == "PASSWORD"@,
            r.min_values == 0,
            r.max_values == 1,
            r.help@ == "Unlock a password protected file"@,
    {
        ArgSpec {
            name: "password",
            long: "password",
            short: "p",
            aliases: vec!["pass"],
            value_name: "PASSWORD",
            min_values: 0,
            max_values: 1,
            help: "Unlock a password protected file",
        }
    }
}

impl CmdArgFlag for ArgPassword {}

impl CmdArgOption for ArgPassword {}

impl ArgPassword {
    /// Applies the password policy to a candidate: an empty password is
    /// refused unless `config.force` is set. An accepted candidate is
    /// returned as it was given.
    pub fn check(candidate: String, config: Config) -> (r: Result<Option<String>, QuitError>)
        ensures
            validated(candidate@, config.force, r),
    {
        if !config.force && candidate.as_str().is_empty() {
            return Err(
                QuitError {
                    message: EMPTY_PASSWORD_MESSAGE,
                    hints: ErrorHints { force: true, verbose: false },
                },
            );
        }
        Ok(Some(candidate))
    }

    /// The effective password. None when the option was not given; the
    /// literal value when one followed it; otherwise what `prompt` answers,
    /// asked once with `config`. The candidate then goes through `check`.
    pub fn value<F: FnOnce(Config) -> String>(matches: &Matches, config: Config, prompt: F) -> (r:
        Result<Option<String>, QuitError>)
        requires
            prompt.requires((config,)),
        ensures
            resolves_to(matches@, config, prompt, r),
            r matches Ok(Some(v)) ==> v@.len() > 0 || config.force,
    {
        if !Self::is_present(matches) {
            return Ok(None);
        }
        let password = match Self::value_raw(matches) {
            Some(password) => password,
            None => prompt(config),
        };
        Self::check(password, config)
    }
}

/// Resolving the password twice against the same recorded options and the
/// same configuration gives the same outcome, whenever no prompt is asked.
pub proof fn lemma_resolution_deterministic<F1: FnOnce(Config) -> String, F2: FnOnce(Config) -> String>(
    m: Seq<(Seq<char>, Seq<Seq<char>>)>,
    config: Config,
    prompt1: F1,
    prompt2: F2,
    r1: Result<Option<String>, QuitError>,
    r2: Result<Option<String>, QuitError>,
)
    requires
        !prompts(m),
        resolves_to(m, config, prompt1, r1),
        resolves_to(m, config, prompt2, r2),
    ensures
        outcome(r1) == outcome(r2),
{
}

/// An empty password comes out of a resolution only when the force override
/// was active.
pub proof fn lemma_empty_only_when_forced<F: FnOnce(Config) -> String>(
    m: Seq<(Seq<char>, Seq<Seq<char>>)>,
    config: Config,
    prompt: F,
    r: Result<Option<String>, QuitError>,
)
    requires
        resolves_to(m, config, prompt, r),
        r matches Ok(Some(v)) && v@.len() == 0,
    ensures
        config.force,
{
}

} // verus!
