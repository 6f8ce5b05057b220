use vstd::prelude::*;
use crate::appenv::{outcome_of, validation_outcome, EnvRuleValidator, Rejection, ValidationError};

verus! {

/// A non-empty key that has no rule is refused as unknown, whatever the value.
pub proof fn unknown_key_is_refused(
    table: Map<Seq<char>, Seq<Seq<char>>>,
    key: Seq<char>,
    value: Seq<char>,
)
    requires
        key.len() > 0,
        value.len() > 0,
        !table.contains_key(key),
    ensures
        validation_outcome(table, key, value) == Some(Rejection::UnknownKey(key)),
{
}

/// A known key with one of its allowed values is accepted.
pub proof fn allowed_value_is_accepted(
    table: Map<Seq<char>, Seq<Seq<char>>>,
    key: Seq<char>,
    value: Seq<char>,
)
    requires
        key.len() > 0,
        value.len() > 0,
        table.contains_key(key),
        table[key].contains(value),
    ensures
        validation_outcome(table, key, value) is None,
{
}

/// A known key with a value outside its allowed set is refused, and the
/// refusal names the key, the value and every allowed value.
pub proof fn disallowed_value_is_refused(
    table: Map<Seq<char>, Seq<Seq<char>>>,
    key: Seq<char>,
    value: Seq<char>,
)
    requires
        key.len() > 0,
        value.len() > 0,
        table.contains_key(key),
        !table[key].contains(value),
    ensures
        validation_outcome(table, key, value) == Some(
            Rejection::InvalidValue { key, value, allowed: table[key] },
        ),
{
}

/// An empty key or an empty value is refused as empty input, whatever the
/// table holds.
pub proof fn empty_input_is_refused(
    table: Map<Seq<char>, Seq<Seq<char>>>,
    key: Seq<char>,
    value: Seq<char>,
)
    requires
        key.len() == 0 || value.len() == 0,
    ensures
        validation_outcome(table, key, value) == Some(Rejection::EmptyInput),
{
}

/// Validating the same pair against the same table twice gives the same
/// outcome: the result depends on the table, the key and the value alone.
pub proof fn validation_is_repeatable(
    rules: EnvRuleValidator,
    key: &str,
    value: &str,
    first: Result<(), ValidationError>,
    second: Result<(), ValidationError>,
)
    requires
        outcome_of(first) == validation_outcome(rules@, key@, value@),
        outcome_of(second) == validation_outcome(rules@, key@, value@),
    ensures
        outcome_of(first) == outcome_of(second),
{
}

} // verus!
