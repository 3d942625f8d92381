use fraud_guard::config::Variables;
use fraud_guard::{Config, ConfigError};

fn variables(interval: Option<&str>) -> Variables {
    Variables {
        database_url: Ok("postgres://db".to_string()),
        amqp_url: Ok("amqp://broker".to_string()),
        log_level: Ok("info".to_string()),
        rules_refresh_interval_secs: interval.map(|s| s.to_string()),
    }
}

fn message(variables: Variables) -> String {
    match Config::from_variables(variables) {
        Err(ConfigError::Generic(message)) => message,
        Ok(config) => panic!("Expected an error, got {:?}", config),
    }
}

#[test]
fn config_from_variables() {
    let config = Config::from_variables(variables(Some("15"))).unwrap();
    assert_eq!(config.database_url, "postgres://db");
    assert_eq!(config.amqp_url, "amqp://broker");
    assert_eq!(config.log_level, "info");
    assert_eq!(config.rules_refresh_interval_secs, 15);
}

#[test]
fn interval_defaults_to_a_minute() {
    let config = Config::from_variables(variables(None)).unwrap();
    assert_eq!(config.rules_refresh_interval_secs, 60);
}

#[test]
fn intervals_that_are_numbers() {
    for (text, secs) in [("0", 0), ("+7", 7), ("0000000000000000000000042", 42), ("18446744073709551615", u64::MAX)] {
        let config = Config::from_variables(variables(Some(text))).unwrap();
        assert_eq!(config.rules_refresh_interval_secs, secs);
    }
}

#[test]
fn intervals_that_are_no_numbers() {
    for text in ["", "+", "-1", "-0", " 1", "1 ", "1.0", "1_000", "18446744073709551616", "++1", "a"] {
        let expected = text.parse::<u64>().unwrap_err().to_string();
        assert_eq!(
            message(variables(Some(text))),
            format!("RULES_REFRESH_INTERVAL_SECS: {}", expected)
        );
    }
}

#[test]
fn the_first_missing_variable_is_told() {
    let mut v = variables(Some("x"));
    v.log_level = Err("not set".to_string());
    assert_eq!(message(v), "RUST_LOG: not set");
    let mut v = variables(Some("x"));
    v.log_level = Err("not set".to_string());
    v.amqp_url = Err("not found".to_string());
    assert_eq!(message(v), "AMQP_URL: not found");
    let mut v = variables(None);
    v.amqp_url = Err("not found".to_string());
    v.database_url = Err("missing".to_string());
    assert_eq!(message(v), "DATABASE_URL: missing");
}

#[test]
fn config_errors_tell_their_text() {
    let err = ConfigError::Generic("AMQP_URL: not set".to_string());
    assert_eq!(err.to_string(), "Configuration error: AMQP_URL: not set");
}
