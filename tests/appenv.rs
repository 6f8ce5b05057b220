use envcheck::appenv::{
    invalid_value_message, is_env_variable_value_valid, is_valid_env_variable, EnvRuleValidator,
    ValidEnvKey, ValidationError,
};

#[test]
fn test_env_valid_variable() {
    assert_eq!(true, is_valid_env_variable(ValidEnvKey::FOO.as_str()).is_ok());
}

#[test]
fn test_env_variable_value_empty_value() {
    assert_eq!(
        is_env_variable_value_valid(ValidEnvKey::FOO.as_str(), ""),
        Err("Key or value cannot be empty".to_string())
    );
}

#[test]
fn test_env_variable_value_empty_key() {
    assert_eq!(
        is_env_variable_value_valid("", "bar"),
        Err("Key or value cannot be empty".to_string())
    );
}

#[test]
fn test_env_variable_value_valid_key_and_value() {
    assert!(is_env_variable_value_valid(ValidEnvKey::FOO.as_str(), "bar").is_ok());
}

#[test]
fn test_env_variable_value_invalid_value_for_key() {
    assert_eq!(
        is_env_variable_value_valid(ValidEnvKey::FOO.as_str(), "baz"),
        Err("Invalid value for environment variable: FOO, Found value: baz, expected on of value: [\"bar\"]".to_string())
    );
}

#[test]
fn unknown_key_value_check_reports_unknown_variable() {
    assert_eq!(
        is_env_variable_value_valid("UNKNOWN", "x"),
        Err("Invalid environment variable: UNKNOWN".to_string())
    );
    assert_eq!(
        is_env_variable_value_valid("foo", "bar"),
        Err("Invalid environment variable: foo".to_string())
    );
}

#[test]
fn unknown_variable_is_reported_by_name() {
    assert_eq!(
        is_valid_env_variable("NOPE"),
        Err("Invalid environment variable: NOPE".to_string())
    );
    assert!(is_valid_env_variable(ValidEnvKey::PINK.as_str()).is_ok());
    assert!(is_valid_env_variable("").is_err());
    assert!(is_valid_env_variable("foo").is_err());
}

#[test]
fn key_names_and_list() {
    assert_eq!(ValidEnvKey::FOO.as_str(), "FOO");
    assert_eq!(ValidEnvKey::PINK.as_str(), "PINK");
    assert_eq!(ValidEnvKey::all(), &[ValidEnvKey::FOO, ValidEnvKey::PINK]);
}

#[test]
fn message_is_assembled_from_its_parts() {
    assert_eq!(
        invalid_value_message("K", "v", "[\"a\", \"b\"]"),
        "Invalid value for environment variable: K, Found value: v, expected on of value: [\"a\", \"b\"]"
    );
}

#[test]
fn validate_accepts_allowed_value() {
    let rules = EnvRuleValidator::new();
    assert_eq!(rules.validate("FOO", "bar"), Ok(()));
    assert_eq!(rules.validate("PINK", "elephant"), Ok(()));
}

#[test]
fn validate_refuses_disallowed_value_with_allowed_set() {
    let rules = EnvRuleValidator::new();
    assert_eq!(
        rules.validate("FOO", "baz"),
        Err(ValidationError::InvalidValue {
            key: "FOO".to_string(),
            value: "baz".to_string(),
            allowed: vec!["bar".to_string()],
        })
    );
    assert_eq!(
        rules.validate("PINK", "bar"),
        Err(ValidationError::InvalidValue {
            key: "PINK".to_string(),
            value: "bar".to_string(),
            allowed: vec!["elephant".to_string()],
        })
    );
}

#[test]
fn validate_refuses_empty_input() {
    let rules = EnvRuleValidator::new();
    assert_eq!(rules.validate("FOO", ""), Err(ValidationError::EmptyInput));
    assert_eq!(rules.validate("", "bar"), Err(ValidationError::EmptyInput));
    assert_eq!(rules.validate("", ""), Err(ValidationError::EmptyInput));
    assert_eq!(rules.validate("UNKNOWN", ""), Err(ValidationError::EmptyInput));
}

#[test]
fn validate_refuses_unknown_key() {
    let rules = EnvRuleValidator::new();
    assert_eq!(
        rules.validate("UNKNOWN", "x"),
        Err(ValidationError::UnknownKey("UNKNOWN".to_string()))
    );
    assert_eq!(
        rules.validate("foo", "bar"),
        Err(ValidationError::UnknownKey("foo".to_string()))
    );
}

#[test]
fn validate_twice_gives_the_same_outcome() {
    let rules = EnvRuleValidator::new();
    for (k, v) in [("FOO", "bar"), ("FOO", "baz"), ("", "bar"), ("UNKNOWN", "x")] {
        assert_eq!(rules.validate(k, v), rules.validate(k, v));
    }
}

#[test]
fn known_keys() {
    let rules = EnvRuleValidator::new();
    assert!(rules.is_known_key("FOO"));
    assert!(rules.is_known_key("PINK"));
    assert!(!rules.is_known_key("UNKNOWN"));
    assert!(!rules.is_known_key(""));
}
