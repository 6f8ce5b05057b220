use vstd::prelude::*;
use crate::text::text_eq;
use vstd::string::StringExecFns;

verus! {

/// The environment variables that the rule table recognises.
#[derive(Clone, Copy, Debug, PartialEq, Eq, Structural)]
pub enum ValidEnvKey {
    FOO,
    PINK,
}

impl ValidEnvKey {
    /// The name of the key, as a character sequence.
    pub open spec fn spec_name(self) -> Seq<char> {
        match self {
            ValidEnvKey::FOO => "FOO"@,
            ValidEnvKey::PINK => "PINK"@,
        }
    }

    /// The canonical text form of the key.
    pub fn as_str(&self) -> (r: &'static str)
        ensures
            r@ == self.spec_name(),
    {
        match self {
            ValidEnvKey::FOO => "FOO",
            ValidEnvKey::PINK => "PINK",
        }
    }

    /// Returns all valid keys as a slice.
    pub fn all() -> (r: &'static [ValidEnvKey])
        ensures
            r@ == seq![ValidEnvKey::FOO, ValidEnvKey::PINK],
    {
        &[ValidEnvKey::FOO, ValidEnvKey::PINK]
    }
}

/// A single validation rule: a variable name and the values it may take.
#[derive(Debug)]
pub struct ValidEnvRule<'a> {
    pub key: &'a str,
    pub valid_values: &'a [&'a str],
}

impl<'a> ValidEnvRule<'a> {
    /// The allowed values, as character sequences, in their order.
    pub open spec fn values_view(&self) -> Seq<Seq<char>> {
        texts_view(self.valid_values@)
    }
}

/// The character sequences of borrowed strings, in their order.
pub open spec fn texts_view(values: Seq<&str>) -> Seq<Seq<char>> {
    values.map_values(|v: &str| v@)
}

/// The character sequences of owned strings, in their order.
pub open spec fn strings_view(values: Seq<String>) -> Seq<Seq<char>> {
    values.map_values(|v: String| v@)
}

/// The built-in rule table.
pub open spec fn default_table() -> Map<Seq<char>, Seq<Seq<char>>> {
    map![
        ValidEnvKey::FOO.spec_name() => seq!["bar"@],
        ValidEnvKey::PINK.spec_name() => seq!["elephant"@],
    ]
}

/// Why a key/value pair was refused.
#[derive(Debug, PartialEq, Eq)]
pub enum ValidationError {
    /// The key or the value was empty.
    EmptyInput,
    /// The table has no rule for this key.
    UnknownKey(String),
    /// The key is known but the value is not among its allowed values.
    InvalidValue { key: String, value: String, allowed: Vec<String> },
}

/// The mathematical form of a [`ValidationError`].
pub enum Rejection {
    EmptyInput,
    UnknownKey(Seq<char>),
    InvalidValue { key: Seq<char>, value: Seq<char>, allowed: Seq<Seq<char>> },
}

impl View for ValidationError {
    type V = Rejection;

    open spec fn view(&self) -> Rejection {
        match self {
            ValidationError::EmptyInput => Rejection::EmptyInput,
            ValidationError::UnknownKey(k) => Rejection::UnknownKey(k@),
            ValidationError::InvalidValue { key, value, allowed } => Rejection::InvalidValue {
                key: key@,
                value: value@,
                allowed: strings_view(allowed@),
            },
        }
    }
}

/// What validating `key = value` against `table` yields: `None` when the
/// pair is accepted.
pub open spec fn validation_outcome(
    table: Map<Seq<char>, Seq<Seq<char>>>,
    key: Seq<char>,
    value: Seq<char>,
) -> Option<Rejection> {
    if key.len() == 0 || value.len() == 0 {
        Some(Rejection::EmptyInput)
    } else if !table.contains_key(key) {
        Some(Rejection::UnknownKey(key))
    } else if !table[key].contains(value) {
        Some(Rejection::InvalidValue { key, value, allowed: table[key] })
    } else {
        None
    }
}

/// The outcome that a result of `validate` stands for.
pub open spec fn outcome_of(r: Result<(), ValidationError>) -> Option<Rejection> {
    match r {
        Ok(()) => None,
        Err(e) => Some(e@),
    }
}

/// Whether `value` is one of `values`.
fn contains_value(values: &[&str], value: &str) -> (r: bool)
    ensures
        r == texts_view(values@).contains(value@),
{
    let mut i: usize = 0;
    while i < values.len()
        invariant
            i <= values@.len(),
            forall|j: int| 0 <= j < i ==> values@[j]@ != value@,
        decreases values@.len() - i,
    {
        if text_eq(values[i], value) {
            proof {
                assert(texts_view(values@)[i as int] == value@);
            }
            return true;
        }
        i = i + 1;
    }
    proof {
        if texts_view(values@).contains(value@) {
            let j = choose|j: int| 0 <= j < values@.len() && texts_view(values@)[j] == value@;
            assert(values@[j]@ == value@);
        }
    }
    false
}

/// Owned copies of `values`, in their order.
fn owned_values(values: &[&str]) -> (r: Vec<String>)
    ensures
        strings_view(r@) == texts_view(values@),
{
    let mut out: Vec<String> = Vec::new();
    let mut i: usize = 0;
    while i < values.len()
        invariant
            i <= values@.len(),
            strings_view(out@) =~= texts_view(values@).take(i as int),
        decreases values@.len() - i,
    {
        let owned = values[i].to_owned();
        proof {
            assert(owned@ == texts_view(values@)[i as int]);
        }
        let ghost before = out@;
        out.push(owned);
        i = i + 1;
        proof {
            assert(out@ == before.push(owned));
            assert(strings_view(out@) =~= strings_view(before).push(owned@));
            assert(texts_view(values@).take(i as int) =~= texts_view(values@).take(i - 1).push(
                owned@,
            ));
        }
    }
    proof {
        assert(texts_view(values@).take(i as int) =~= texts_view(values@));
    }
    out
}

/// An immutable table from variable names to their allowed values, with
/// the validation operations over it.
pub struct EnvRuleValidator<'a> {
    rules: Vec<ValidEnvRule<'a>>,
}

impl<'a> View for EnvRuleValidator<'a> {
    type V = Map<Seq<char>, Seq<Seq<char>>>;

    closed spec fn view(&self) -> Self::V {
        Map::new(
            |k: Seq<char>| exists|i: int| 0 <= i < self.rules@.len() && self.rules@[i].key@ == k,
            |k: Seq<char>|
                {
                    let i = choose|i: int| 0 <= i < self.rules@.len() && self.rules@[i].key@ == k;
                    self.rules@[i].values_view()
                },
        )
    }
}

impl<'a> EnvRuleValidator<'a> {
    /// No two rules share a key.
    #[verifier::type_invariant]
    closed spec fn keys_distinct(&self) -> bool {
        forall|i: int, j: int|
            0 <= i < self.rules@.len() && 0 <= j < self.rules@.len() && i != j
                ==> self.rules@[i].key@ != self.rules@[j].key@
    }

    /// Builds the built-in rule table.
    pub fn new() -> (r: EnvRuleValidator<'static>)
        ensures
            r@ == default_table(),
    {
        let foo = ValidEnvKey::FOO.as_str();
        let pink = ValidEnvKey::PINK.as_str();
        proof {
            reveal_strlit("FOO");
            reveal_strlit("PINK");
            assert(foo@.len() != pink@.len());
        }
        let rules = vec![
            ValidEnvRule { key: foo, valid_values: &["bar"] },
            ValidEnvRule { key: pink, valid_values: &["elephant"] },
        ];
        let r = EnvRuleValidator { rules };
        proof {
            assert(rules@[0].values_view() =~= seq!["bar"@]);
            assert(rules@[1].values_view() =~= seq!["elephant"@]);
            assert(r@.contains_key(rules@[0].key@));
            assert(r@.contains_key(rules@[1].key@));
            assert(r@ =~= default_table());
        }
        r
    }

    /// Whether the table has a rule for `key`.
    pub fn is_known_key(&self, key: &str) -> (r: bool)
        ensures
            r == self@.contains_key(key@),
    {
        self.find_rule(key).is_some()
    }

    /// Checks `key = value` against the table: both must be non-empty, the
    /// key must have a rule, and the value must be one that the rule allows.
    pub fn validate(&self, key: &str, value: &str) -> (r: Result<(), ValidationError>)
        ensures
            outcome_of(r) == validation_outcome(self@, key@, value@),
    {
        if key.is_empty() || value.is_empty() {
            return Err(ValidationError::EmptyInput);
        }
        match self.find_rule(key) {
            None => Err(ValidationError::UnknownKey(key.to_owned())),
            Some(i) => {
                let rule = &self.rules[i];
                if contains_value(rule.valid_values, value) {
                    Ok(())
                } else {
                    Err(
                        ValidationError::InvalidValue {
                            key: key.to_owned(),
                            value: value.to_owned(),
                            allowed: owned_values(rule.valid_values),
                        },
                    )
                }
            },
        }
    }

    /// Position of the rule for `key`, if the table has one.
    fn find_rule(&self, key: &str) -> (r: Option<usize>)
        ensures
            r is None <==> !self@.contains_key(key@),
            r matches Some(i) ==> i < self.rules@.len() && self.rules@[i as int].key@ == key@
                && self@[key@] == self.rules@[i as int].values_view(),
    {
        proof {
            use_type_invariant(self);
        }
        let mut i: usize = 0;
        while i < self.rules.len()
            invariant
                i <= self.rules@.len(),
                self.keys_distinct(),
                forall|j: int| 0 <= j < i ==> self.rules@[j].key@ != key@,
            decreases self.rules@.len() - i,
        {
            if text_eq(self.rules[i].key, key) {
                proof {
                    assert(self@.contains_key(key@));
                    let j = choose|j: int| 0 <= j < self.rules@.len() && self.rules@[j].key@ == key@;
                    assert(j == i);
                }
                return Some(i);
            }
            i = i + 1;
        }
        None
    }
}

/// Text of the `Debug` form of a list of strings (`["a", "b"]`).
pub uninterp spec fn debug_list_text(items: Seq<Seq<char>>) -> Seq<char>;

/// Relies on the `Debug` impl of `Vec<String>`: the text it writes depends on
/// the items alone.
#[verifier::external_body]
fn debug_list(items: &Vec<String>) -> (r: String)
    ensures
        r@ == debug_list_text(strings_view(items@)),
{
    format!("{:?}", items)
}

/// Diagnostic for an empty key or value.
pub open spec fn empty_input_text() -> Seq<char> {
    "Key or value cannot be empty"@
}

/// Diagnostic for a variable name that has no rule.
pub open spec fn unknown_variable_text(key: Seq<char>) -> Seq<char> {
    "Invalid environment variable: "@ + key
}

/// Diagnostic for a refused value, given the rendered allowed values.
pub open spec fn invalid_value_text(key: Seq<char>, value: Seq<char>, allowed_text: Seq<char>) -> Seq<
    char,
> {
    "Invalid value for environment variable: "@ + key + ", Found value: "@ + value
        + ", expected on of value: "@ + allowed_text
}

/// The diagnostic for a refused value, given the rendered list of allowed values.
pub fn invalid_value_message(key: &str, value: &str, allowed_text: &str) -> (r: String)
    ensures
        r@ == invalid_value_text(key@, value@, allowed_text@),
{
    let mut m = "Invalid value for environment variable: ".to_owned();
    m.append(key);
    m.append(", Found value: ");
    m.append(value);
    m.append(", expected on of value: ");
    m.append(allowed_text);
    m
}

/// The diagnostic for a variable name that has no rule.
fn unknown_variable_message(key: &str) -> (r: String)
    ensures
        r@ == unknown_variable_text(key@),
{
    let mut m = "Invalid environment variable: ".to_owned();
    m.append(key);
    m
}

/// Checks that `key` names a variable of the built-in table.
pub fn is_valid_env_variable(key: &str) -> (r: Result<(), String>)
    ensures
        r is Ok <==> default_table().contains_key(key@),
        r matches Err(m) ==> m@ == unknown_variable_text(key@),
{
    let rules = EnvRuleValidator::new();
    if rules.is_known_key(key) {
        Ok(())
    } else {
        Err(unknown_variable_message(key))
    }
}

/// Checks `key = value` against the built-in table, and describes a refusal:
/// an empty key or value, a key with no rule, or a value that the key's rule
/// does not allow.
pub fn is_env_variable_value_valid(key: &str, value: &str) -> (r: Result<(), String>)
    ensures
        r is Ok <==> validation_outcome(default_table(), key@, value@) is None,
        key@.len() == 0 || value@.len() == 0 ==> (r matches Err(m) && m@ == empty_input_text()),
        key@.len() > 0 && value@.len() > 0 && !default_table().contains_key(key@) ==> (r matches Err(
            m,
        ) && m@ == unknown_variable_text(key@)),
        key@.len() > 0 && value@.len() > 0 && default_table().contains_key(key@) ==> (r matches Err(
            m,
        ) ==> m@ == invalid_value_text(key@, value@, debug_list_text(default_table()[key@]))),
{
    let rules = EnvRuleValidator::new();
    match rules.validate(key, value) {
        Ok(()) => Ok(()),
        Err(ValidationError::EmptyInput) => Err("Key or value cannot be empty".to_owned()),
        Err(ValidationError::UnknownKey(_)) => Err(unknown_variable_message(key)),
        Err(ValidationError::InvalidValue { allowed, .. }) => {
            let allowed_text = debug_list(&allowed);
            Err(invalid_value_message(key, value, allowed_text.as_str()))
        },
    }
}

} // verus!
