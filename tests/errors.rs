use rusty_pet::errors::{
    config_error_with_source, is_retryable_auth_error, CliError, IoFailureKind, RemoteFailure,
};

#[test]
fn test_network_error_creation() {
    let error = CliError::network_error("Connection failed", true);
    assert!(matches!(error, CliError::Network { retry_possible: true, .. }));

    let user_msg = error.user_message();
    assert!(user_msg.contains("You can try again"));
}

#[test]
fn test_auth_error_creation() {
    let error = CliError::auth_error("Token expired", true);
    assert!(matches!(error, CliError::Authentication { can_reauth: true, .. }));

    let user_msg = error.user_message();
    assert!(user_msg.contains("Please login again"));
}

#[test]
fn test_validation_error_with_examples() {
    let examples = vec!["example1".to_string(), "example2".to_string()];
    let error =
        CliError::validation_error("Invalid format", examples.clone(), Some("field1".to_string()));

    let user_msg = error.user_message();
    assert!(user_msg.contains("field: field1"));
    assert!(user_msg.contains("example1, example2"));
}

#[test]
fn test_recovery_suggestions() {
    let error = CliError::network_error("Connection failed", true);
    let suggestions = error.recovery_suggestions();

    assert!(!suggestions.is_empty());
    assert!(suggestions.iter().any(|s| s.contains("internet connection")));
    assert!(suggestions.iter().any(|s| s.contains("Try the operation again")));
}

#[test]
fn test_reqwest_error_conversion() {
    let failure = RemoteFailure {
        timeout: true,
        connect: false,
        request: false,
        status: None,
        message: "deadline".to_string(),
    };
    let error = CliError::from_remote_failure(failure);
    assert!(matches!(error, CliError::Network { retry_possible: true, .. }));
    assert_eq!(error.display_text(), "Network error: Request timed out");
}

#[test]
fn test_io_error_conversion() {
    let io_error = std::io::Error::new(std::io::ErrorKind::NotFound, "File not found");
    let cli_error: CliError = io_error.into();

    assert!(matches!(cli_error, CliError::System { .. }));

    let suggestions = cli_error.recovery_suggestions();
    assert!(suggestions.iter().any(|s| s.contains("permission")));
}

#[test]
fn io_conversion_keeps_the_kind_and_text() {
    let e: CliError = std::io::Error::new(std::io::ErrorKind::TimedOut, "slow disk").into();
    assert!(matches!(e, CliError::Network { retry_possible: true, .. }));
    assert_eq!(e.log_details(), "Error: Network error: Operation timed out\nCaused by: slow disk\nRetry possible: true");
    let e = CliError::from_io_failure(IoFailureKind::Other, "odd".to_string());
    assert_eq!(e.user_message(), "System error: System I/O error");
}

#[test]
fn remote_failures_map_by_status() {
    let f = |status: Option<u16>| RemoteFailure {
        timeout: false,
        connect: false,
        request: false,
        status,
        message: "m".to_string(),
    };
    let e = CliError::from_remote_failure(f(Some(401)));
    assert!(matches!(e, CliError::Authentication { can_reauth: true, .. }));
    let e = CliError::from_remote_failure(f(Some(403)));
    assert!(matches!(e, CliError::Authentication { can_reauth: false, .. }));
    let e = CliError::from_remote_failure(f(Some(429)));
    assert!(matches!(e, CliError::Api { status_code: Some(429), retry_after: None, .. }));
    let e = CliError::from_remote_failure(f(Some(503)));
    assert!(matches!(e, CliError::Api { status_code: Some(503), retry_after: Some(60), .. }));
    assert_eq!(e.user_message(), "API error: Server error (HTTP 503)\nPlease wait 60 seconds before retrying.");
    let e = CliError::from_remote_failure(f(Some(418)));
    assert_eq!(e.display_text(), "API error: API request failed");
    let e = CliError::from_remote_failure(f(None));
    assert_eq!(e.display_text(), "Network error: Network request failed");
}

#[test]
fn user_messages_per_kind() {
    assert_eq!(
        CliError::network_error("down", false).user_message(),
        "Network error: down. Please check your internet connection."
    );
    assert_eq!(
        CliError::auth_error("bad", false).user_message(),
        "Authentication failed: bad. Please check your credentials."
    );
    let d = CliError::data_error_with_source("broken", "pets", "eof".to_string());
    assert_eq!(d.user_message(), "Data error: broken (context: pets)");
    assert_eq!(
        CliError::system_error("disk", Some("free space".to_string())).user_message(),
        "System error: disk\nSuggestion: free space"
    );
    let c = config_error_with_source("bad toml", Some("/etc/x.toml".to_string()), "line 3".to_string());
    assert_eq!(c.user_message(), "Configuration error: bad toml (config: /etc/x.toml)");
    assert_eq!(
        c.recovery_suggestions(),
        vec![
            "Check the configuration file format".to_string(),
            "Verify the config file exists: /etc/x.toml".to_string(),
            "Reset configuration to defaults if needed".to_string(),
        ]
    );
}

#[test]
fn api_suggestions_follow_the_status() {
    let e = CliError::api_error("slow down", Some(429), Some(30));
    assert_eq!(
        e.recovery_suggestions(),
        vec!["You're being rate limited".to_string(), "Wait 30 seconds before retrying".to_string()]
    );
    let e = CliError::api_error("gone", Some(404), None);
    assert_eq!(e.recovery_suggestions()[0], "The requested resource was not found");
    let e = CliError::api_error("?", None, None);
    assert_eq!(e.recovery_suggestions()[0], "Check the API documentation");
}

#[test]
fn log_details_lists_fields() {
    let e = CliError::validation_error(
        "bad",
        vec!["a".to_string(), "b".to_string()],
        Some("when".to_string()),
    );
    assert_eq!(
        e.log_details(),
        "Error: Invalid input: bad\nField: when\nValid examples: [\"a\", \"b\"]"
    );
    let e = CliError::api_error_with_source("busy", Some(500), Some(60), "upstream".to_string());
    assert_eq!(
        e.log_details(),
        "Error: API error: busy\nCaused by: upstream\nHTTP Status: 500\nRetry after: 60 seconds"
    );
}

#[test]
fn with_suggestion_only_changes_system_errors() {
    let e = CliError::system_error_with_source("io", None, "x".to_string()).with_suggestion("retry");
    assert!(matches!(&e, CliError::System { suggestion: Some(s), .. } if s == "retry"));
    let n = CliError::network_error_with_source("n", true, "y".to_string()).with_suggestion("retry");
    assert!(matches!(n, CliError::Network { .. }));
    let a = CliError::auth_error_with_source("a", false, "z".to_string());
    assert_eq!(a.recovery_suggestions()[0], "Verify your username and password");
}

#[test]
fn test_is_retryable_auth_error() {
    let retryable_auth = CliError::auth_error("Token expired", true);
    assert!(is_retryable_auth_error(&retryable_auth));

    let retryable_network = CliError::network_error("Connection failed", true);
    assert!(is_retryable_auth_error(&retryable_network));

    let retryable_api = CliError::api_error("Unauthorized", Some(401), None);
    assert!(is_retryable_auth_error(&retryable_api));

    let non_retryable_auth = CliError::auth_error("Invalid credentials", false);
    assert!(!is_retryable_auth_error(&non_retryable_auth));

    let rate_limit = CliError::api_error("Rate limited", Some(429), Some(300));
    assert!(!is_retryable_auth_error(&rate_limit));

    let forbidden = CliError::api_error("Forbidden", Some(403), None);
    assert!(!is_retryable_auth_error(&forbidden));

    let server = CliError::api_error("Busy", Some(502), None);
    assert!(is_retryable_auth_error(&server));
    assert!(!is_retryable_auth_error(&CliError::system_error("disk", None)));
}
