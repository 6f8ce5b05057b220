use vstd::prelude::*;
use crate::appenv::{validation_outcome, EnvRuleValidator, ValidEnvKey};
use crate::text::{eq_ignore_ascii_case, eq_ignoring_ascii_case, text_eq, trim, trim_text};

verus! {

pub const MSG_ERROR_ARGUMENTS: &'static str = "Incorrect arguments!";

pub const MSG_ERROR_FLAGS: &'static str = "Error: invalid flag detected!";

pub const MSG_ERROR_READING_INPUT: &'static str = "Error reading input!";

pub const MSG_ENV_MISSING: &'static str = "Error reading env: does not exist!";

pub const MSG_ENV_INVALID: &'static str = "Error in environment variable value.";

/// The flag that is refused wherever it appears.
pub const INVALID_FLAG: &'static str = "--bad-flag";

/// The flag that asks for the environment check.
pub const VALID_FLAG: &'static str = "--check-env";

/// What is answered to the sentinel line.
pub const SENTINEL_RESPONSE: &'static str = "elephant";

/// What a successful pass over the arguments found.
#[derive(Debug, Clone, Copy, PartialEq, Eq, Structural)]
pub struct ArgsOutcome {
    /// Number of arguments after the program name.
    pub count: usize,
    /// Whether the environment variable was checked (and accepted).
    pub env_checked: bool,
}

/// Whether some argument is exactly `flag`.
pub open spec fn has_flag(args: Seq<String>, flag: Seq<char>) -> bool {
    exists|i: int| 0 <= i < args.len() && args[i]@ == flag
}

/// Outcome of checking the variable `key`, read as `value` (`None` when unset).
pub open spec fn env_check_outcome(
    table: Map<Seq<char>, Seq<Seq<char>>>,
    key: Seq<char>,
    value: Option<Seq<char>>,
) -> Result<(), &'static str> {
    match value {
        None => Err(MSG_ENV_MISSING),
        Some(v) => if validation_outcome(table, key, v) is None {
            Ok(())
        } else {
            Err(MSG_ENV_INVALID)
        },
    }
}

/// The characters of an optional string.
pub open spec fn option_view(value: Option<&str>) -> Option<Seq<char>> {
    match value {
        None => None,
        Some(v) => Some(v@),
    }
}

/// Outcome of the flag pass: `Ok(true)` when the environment was checked.
pub open spec fn flags_outcome(
    table: Map<Seq<char>, Seq<Seq<char>>>,
    args: Seq<String>,
    env_value: Option<Seq<char>>,
) -> Result<bool, &'static str> {
    if has_flag(args, INVALID_FLAG@) {
        Err(MSG_ERROR_FLAGS)
    } else if has_flag(args, VALID_FLAG@) {
        match env_check_outcome(table, ValidEnvKey::FOO.spec_name(), env_value) {
            Ok(()) => Ok(true),
            Err(e) => Err(e),
        }
    } else {
        Ok(false)
    }
}

/// Outcome of handling the whole argument list, program name first.
pub open spec fn args_outcome(
    table: Map<Seq<char>, Seq<Seq<char>>>,
    args: Seq<String>,
    env_value: Option<Seq<char>>,
) -> Result<ArgsOutcome, &'static str> {
    if args.len() == 1 {
        Ok(ArgsOutcome { count: 0, env_checked: false })
    } else if args.len() == 2 {
        match flags_outcome(table, args, env_value) {
            Ok(checked) => Ok(ArgsOutcome { count: 1, env_checked: checked }),
            Err(e) => Err(e),
        }
    } else {
        Err(MSG_ERROR_ARGUMENTS)
    }
}

/// Whether some argument is exactly `flag`.
pub fn contains_flag(args: &[String], flag: &str) -> (r: bool)
    ensures
        r == has_flag(args@, flag@),
{
    let mut i: usize = 0;
    while i < args.len()
        invariant
            i <= args@.len(),
            forall|j: int| 0 <= j < i ==> args@[j]@ != flag@,
        decreases args@.len() - i,
    {
        if text_eq(args[i].as_str(), flag) {
            return true;
        }
        i = i + 1;
    }
    false
}

/// Refuses an argument list that holds the invalid flag.
pub fn verify_input_flags(args: &[String]) -> (r: Result<(), &'static str>)
    ensures
        r == (if has_flag(args@, INVALID_FLAG@) {
            Err(MSG_ERROR_FLAGS)
        } else {
            Ok(())
        }),
{
    if contains_flag(args, INVALID_FLAG) {
        return Err(MSG_ERROR_FLAGS);
    }
    Ok(())
}

/// Checks the value read for the variable `key` (`None` when it is unset).
pub fn verify_environment_variables(
    rules: &EnvRuleValidator,
    key: &str,
    value: Option<&str>,
) -> (r: Result<(), &'static str>)
    ensures
        r == env_check_outcome(rules@, key@, option_view(value)),
{
    match value {
        None => Err(MSG_ENV_MISSING),
        Some(v) => {
            if rules.validate(key, v).is_err() {
                return Err(MSG_ENV_INVALID);
            }
            Ok(())
        },
    }
}

/// Checks the value read for the variable that the check flag is about.
pub fn handle_check_env_flag(rules: &EnvRuleValidator, value: Option<&str>) -> (r: Result<
    (),
    &'static str,
>)
    ensures
        r == env_check_outcome(rules@, ValidEnvKey::FOO.spec_name(), option_view(value)),
{
    verify_environment_variables(rules, ValidEnvKey::FOO.as_str(), value)
}

/// Refuses the invalid flag, then runs the environment check when asked for.
/// `env_value` is what the checked variable holds, `None` when it is unset.
pub fn process_flags(rules: &EnvRuleValidator, args: &[String], env_value: Option<&str>) -> (r:
    Result<bool, &'static str>)
    ensures
        r == flags_outcome(rules@, args@, option_view(env_value)),
{
    verify_input_flags(args)?;
    if contains_flag(args, VALID_FLAG) {
        handle_check_env_flag(rules, env_value)?;
        return Ok(true);
    }
    Ok(false)
}

/// Handles the argument list (program name first): none is counted as zero,
/// one goes through the flag pass, more are refused.
pub fn handle_args(rules: &EnvRuleValidator, args: &[String], env_value: Option<&str>) -> (r:
    Result<ArgsOutcome, &'static str>)
    ensures
        r == args_outcome(rules@, args@, option_view(env_value)),
{
    if args.len() == 1 {
        Ok(ArgsOutcome { count: 0, env_checked: false })
    } else if args.len() == 2 {
        let checked = process_flags(rules, args, env_value)?;
        Ok(ArgsOutcome { count: args.len() - 1, env_checked: checked })
    } else {
        Err(MSG_ERROR_ARGUMENTS)
    }
}

/// Whether an already trimmed input line is the sentinel word, the name of
/// the `PINK` key in any ASCII case.
pub fn is_sentinel(trimmed: &str) -> (r: bool)
    ensures
        r == eq_ignoring_ascii_case(ValidEnvKey::PINK.spec_name(), trimmed@),
{
    eq_ignore_ascii_case(ValidEnvKey::PINK.as_str(), trimmed)
}

/// The answer to one line of input: the fixed response when the line, with
/// surrounding white space removed, is the sentinel word.
pub fn stdin_response(line: &str) -> (r: Option<&'static str>)
    ensures
        r == (if eq_ignoring_ascii_case(ValidEnvKey::PINK.spec_name(), trim_text(line@)) {
            Some(SENTINEL_RESPONSE)
        } else {
            None
        }),
{
    if is_sentinel(trim(line)) {
        Some(SENTINEL_RESPONSE)
    } else {
        None
    }
}

} // verus!
