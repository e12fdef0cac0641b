//! The error taxonomy of the client, with the texts shown to users and
//! written to logs.

use vstd::prelude::*;
use crate::text::{decimal, decimal_digits, join, joined, push_text, views};

verus! {

/// Errors of the client. `source` holds the text of the underlying error,
/// where there is one.
#[derive(Debug)]
pub enum CliError {
    /// Connection timeouts, DNS failures, an unavailable service.
    Network { message: String, retry_possible: bool, source: Option<String> },
    /// Expired tokens, invalid credentials, refused authorisation.
    Authentication { message: String, can_reauth: bool, source: Option<String> },
    /// Malformed or missing input.
    Validation { message: String, examples: Vec<String>, field: Option<String> },
    /// Malformed responses, missing fields.
    Data { message: String, context: String, source: Option<String> },
    /// File system and resource problems.
    System { message: String, suggestion: Option<String>, source: Option<String> },
    /// Invalid or missing configuration.
    Configuration { message: String, config_path: Option<String>, source: Option<String> },
    /// Errors the service reports: rate limits, server faults.
    Api { message: String, status_code: Option<u16>, retry_after: Option<u64>, source: Option<String> },
}

/// `text` when `o` holds one, else nothing.
pub open spec fn opt_text(o: Option<String>, before: Seq<char>, after: Seq<char>) -> Seq<char> {
    match o {
        Some(s) => before + s@ + after,
        None => Seq::empty(),
    }
}

pub open spec fn bool_text(b: bool) -> Seq<char> {
    if b {
        "true"@
    } else {
        "false"@
    }
}

/// A list of strings as a bracketed, comma-separated list of quoted items.
pub open spec fn quoted_list(items: Seq<Seq<char>>) -> Seq<char> {
    "["@ + joined(items.map_values(|s: Seq<char>| "\""@ + s + "\""@), ", "@) + "]"@
}

impl CliError {
    /// The one-line description of the error.
    pub open spec fn spec_display(&self) -> Seq<char> {
        match self {
            CliError::Network { message, .. } => "Network error: "@ + message@,
            CliError::Authentication { message, .. } => "Authentication failed: "@ + message@,
            CliError::Validation { message, .. } => "Invalid input: "@ + message@,
            CliError::Data { message, .. } => "Data processing error: "@ + message@,
            CliError::System { message, .. } => "System error: "@ + message@,
            CliError::Configuration { message, .. } => "Configuration error: "@ + message@,
            CliError::Api { message, .. } => "API error: "@ + message@,
        }
    }

    pub open spec fn spec_source(&self) -> Option<String> {
        match self {
            CliError::Network { source, .. } => *source,
            CliError::Authentication { source, .. } => *source,
            CliError::Validation { .. } => None,
            CliError::Data { source, .. } => *source,
            CliError::System { source, .. } => *source,
            CliError::Configuration { source, .. } => *source,
            CliError::Api { source, .. } => *source,
        }
    }

    pub open spec fn spec_user_message(&self) -> Seq<char> {
        match self {
            CliError::Network { message, retry_possible, .. } => if *retry_possible {
                "Network connection issue: "@ + message@ + ". You can try again."@
            } else {
                "Network error: "@ + message@ + ". Please check your internet connection."@
            },
            CliError::Authentication { message, can_reauth, .. } => if *can_reauth {
                "Authentication expired: "@ + message@ + ". Please login again."@
            } else {
                "Authentication failed: "@ + message@ + ". Please check your credentials."@
            },
            CliError::Validation { message, examples, field } => "Invalid input: "@ + message@
                + opt_text(*field, " (field: "@, ")"@) + (if examples@.len() == 0 {
                Seq::empty()
            } else {
                "\nValid examples: "@ + joined(views(examples@), ", "@)
            }),
            CliError::Data { message, context, .. } => "Data error: "@ + message@ + " (context: "@
                + context@ + ")"@,
            CliError::System { message, suggestion, .. } => "System error: "@ + message@ + opt_text(
                *suggestion,
                "\nSuggestion: "@,
                Seq::empty(),
            ),
            CliError::Configuration { message, config_path, .. } => "Configuration error: "@
                + message@ + opt_text(*config_path, " (config: "@, ")"@),
            CliError::Api { message, status_code, retry_after, .. } => "API error: "@ + message@
                + (match status_code {
                Some(c) => " (HTTP "@ + decimal_digits(*c as nat) + ")"@,
                None => Seq::empty(),
            }) + (match retry_after {
                Some(s) => "\nPlease wait "@ + decimal_digits(*s as nat)
                    + " seconds before retrying."@,
                None => Seq::empty(),
            }),
        }
    }

    pub open spec fn spec_log_details(&self) -> Seq<char> {
        "Error: "@ + self.spec_display() + opt_text(self.spec_source(), "\nCaused by: "@, Seq::empty())
            + (match self {
            CliError::Network { retry_possible, .. } => "\nRetry possible: "@ + bool_text(
                *retry_possible,
            ),
            CliError::Authentication { can_reauth, .. } => "\nCan re-authenticate: "@ + bool_text(
                *can_reauth,
            ),
            CliError::Validation { examples, field, .. } => opt_text(*field, "\nField: "@, Seq::empty())
                + (if examples@.len() == 0 {
                Seq::empty()
            } else {
                "\nValid examples: "@ + quoted_list(views(examples@))
            }),
            CliError::Api { status_code, retry_after, .. } => (match status_code {
                Some(c) => "\nHTTP Status: "@ + decimal_digits(*c as nat),
                None => Seq::empty(),
            }) + (match retry_after {
                Some(s) => "\nRetry after: "@ + decimal_digits(*s as nat) + " seconds"@,
                None => Seq::empty(),
            }),
            _ => Seq::empty(),
        })
    }

    pub open spec fn spec_recovery_suggestions(&self) -> Seq<Seq<char>> {
        match self {
            CliError::Network { retry_possible, .. } => seq![
                "Check your internet connection"@,
                "Verify that the SurePet API is accessible"@,
            ] + (if *retry_possible {
                seq!["Try the operation again"@]
            } else {
                Seq::empty()
            }),
            CliError::Authentication { can_reauth, .. } => if *can_reauth {
                seq![
                    "Run the command again to re-authenticate"@,
                    "Check if your credentials are still valid"@,
                ]
            } else {
                seq!["Verify your username and password"@, "Check if your account is active"@]
            },
            CliError::Validation { examples, .. } => seq!["Check the input format"@] + (if examples@.len()
                == 0 {
                Seq::empty()
            } else {
                seq!["Use one of these formats: "@ + joined(views(examples@), ", "@)]
            }) + seq!["Use --help to see usage information"@],
            CliError::Data { .. } => seq![
                "Try refreshing the data"@,
                "Check if the API response format has changed"@,
                "Contact support if the issue persists"@,
            ],
            CliError::System { suggestion, .. } => (match suggestion {
                Some(s) => seq![s@],
                None => Seq::empty(),
            }) + seq!["Check file permissions"@, "Ensure sufficient disk space"@],
            CliError::Configuration { config_path, .. } => seq![
                "Check the configuration file format"@,
            ] + (match config_path {
                Some(p) => seq!["Verify the config file exists: "@ + p@],
                None => Seq::empty(),
            }) + seq!["Reset configuration to defaults if needed"@],
            CliError::Api { status_code, retry_after, .. } => match status_code {
                Some(c) => if *c == 429 {
                    seq![
                        "You're being rate limited"@,
                        match retry_after {
                            Some(s) => "Wait "@ + decimal_digits(*s as nat) + " seconds before retrying"@,
                            None => "Wait a few minutes before retrying"@,
                        },
                    ]
                } else if 500 <= *c <= 599 {
                    seq!["The API service is experiencing issues"@, "Try again later"@]
                } else if *c == 401 {
                    seq!["Your authentication token may have expired"@, "Try logging in again"@]
                } else if *c == 403 {
                    seq![
                        "You don't have permission for this operation"@,
                        "Check your account permissions"@,
                    ]
                } else if *c == 404 {
                    seq![
                        "The requested resource was not found"@,
                        "Check if the pet/device ID is correct"@,
                    ]
                } else {
                    seq!["Check the API documentation"@, "Contact support if the issue persists"@]
                },
                None => seq!["Check the API documentation"@, "Contact support if the issue persists"@],
            },
        }
    }
}

fn append_opt(s: &mut String, o: &Option<String>, before: &str, after: &str)
    ensures
        final(s)@ == old(s)@ + opt_text(*o, before@, after@),
{
    match o {
        Some(t) => {
            s.append(before);
            s.append(t.as_str());
            s.append(after);
        },
        None => {
            assert(s@ =~= s@ + Seq::<char>::empty());
        },
    }
}

fn append_bool(s: &mut String, b: bool)
    ensures
        final(s)@ == old(s)@ + bool_text(b),
{
    if b {
        s.append("true");
    } else {
        s.append("false");
    }
}

fn quoted(parts: &Vec<String>) -> (r: String)
    ensures
        r@ == quoted_list(views(parts@)),
{
    let mut q: Vec<String> = Vec::new();
    let n = parts.len();
    let mut i: usize = 0;
    while i < n
        invariant
            0 <= i <= n == parts@.len(),
            views(q@) == views(parts@.take(i as int)).map_values(|s: Seq<char>| "\""@ + s + "\""@),
        decreases n - i,
    {
        let mut item = String::from_str("\"");
        item.append(parts[i].as_str());
        item.append("\"");
        push_text(&mut q, item);
        proof {
            assert(views(parts@.take(i + 1)).map_values(|s: Seq<char>| "\""@ + s + "\""@) =~= views(
                parts@.take(i as int),
            ).map_values(|s: Seq<char>| "\""@ + s + "\""@).push("\""@ + parts@[i as int]@ + "\""@));
        }
        i = i + 1;
    }
    proof {
        assert(parts@.take(n as int) =~= parts@);
    }
    let mut r = String::from_str("[");
    let body = join(&q, ", ");
    r.append(body.as_str());
    r.append("]");
    r
}

fn text_list(items: &[&str]) -> (r: Vec<String>)
    ensures
        views(r@) == items@.map_values(|s: &str| s@),
{
    let mut r: Vec<String> = Vec::new();
    let n = items.len();
    let mut i: usize = 0;
    while i < n
        invariant
            0 <= i <= n == items@.len(),
            views(r@) == items@.take(i as int).map_values(|s: &str| s@),
        decreases n - i,
    {
        push_text(&mut r, String::from_str(items[i]));
        proof {
            assert(items@.take(i + 1).map_values(|s: &str| s@) =~= items@.take(i as int).map_values(
                |s: &str| s@,
            ).push(items@[i as int]@));
        }
        i = i + 1;
    }
    proof {
        assert(items@.take(n as int) =~= items@);
    }
    r
}

impl CliError {
    /// A network error without an underlying error.
    pub fn network_error(message: &str, retry_possible: bool) -> (r: CliError)
        ensures
            r matches CliError::Network { message: m, retry_possible: rp, source: None }
                && m@ == message@ && rp == retry_possible,
    {
        CliError::Network { message: String::from_str(message), retry_possible, source: None }
    }

    pub fn network_error_with_source(message: &str, retry_possible: bool, source: String) -> (r: CliError)
        ensures
            r matches CliError::Network { message: m, retry_possible: rp, source: Some(s) }
                && m@ == message@ && rp == retry_possible && s == source,
    {
        CliError::Network { message: String::from_str(message), retry_possible, source: Some(source) }
    }

    pub fn auth_error(message: &str, can_reauth: bool) -> (r: CliError)
        ensures
            r matches CliError::Authentication { message: m, can_reauth: c, source: None }
                && m@ == message@ && c == can_reauth,
    {
        CliError::Authentication { message: String::from_str(message), can_reauth, source: None }
    }

    pub fn auth_error_with_source(message: &str, can_reauth: bool, source: String) -> (r: CliError)
        ensures
            r matches CliError::Authentication { message: m, can_reauth: c, source: Some(s) }
                && m@ == message@ && c == can_reauth && s == source,
    {
        CliError::Authentication { message: String::from_str(message), can_reauth, source: Some(source) }
    }

    pub fn validation_error(message: &str, examples: Vec<String>, field: Option<String>) -> (r: CliError)
        ensures
            r matches CliError::Validation { message: m, examples: e, field: f }
                && m@ == message@ && e == examples && f == field,
    {
        CliError::Validation { message: String::from_str(message), examples, field }
    }

    pub fn data_error_with_source(message: &str, context: &str, source: String) -> (r: CliError)
        ensures
            r matches CliError::Data { message: m, context: c, source: Some(s) }
                && m@ == message@ && c@ == context@ && s == source,
    {
        CliError::Data {
            message: String::from_str(message),
            context: String::from_str(context),
            source: Some(source),
        }
    }

    pub fn system_error(message: &str, suggestion: Option<String>) -> (r: CliError)
        ensures
            r matches CliError::System { message: m, suggestion: g, source: None }
                && m@ == message@ && g == suggestion,
    {
        CliError::System { message: String::from_str(message), suggestion, source: None }
    }

    pub fn system_error_with_source(message: &str, suggestion: Option<String>, source: String) -> (r:
        CliError)
        ensures
            r matches CliError::System { message: m, suggestion: g, source: Some(s) }
                && m@ == message@ && g == suggestion && s == source,
    {
        CliError::System { message: String::from_str(message), suggestion, source: Some(source) }
    }

    pub fn api_error(message: &str, status_code: Option<u16>, retry_after: Option<u64>) -> (r: CliError)
        ensures
            r matches CliError::Api { message: m, status_code: c, retry_after: a, source: None }
                && m@ == message@ && c == status_code && a == retry_after,
    {
        CliError::Api { message: String::from_str(message), status_code, retry_after, source: None }
    }

    pub fn api_error_with_source(
        message: &str,
        status_code: Option<u16>,
        retry_after: Option<u64>,
        source: String,
    ) -> (r: CliError)
        ensures
            r matches CliError::Api { message: m, status_code: c, retry_after: a, source: Some(s) }
                && m@ == message@ && c == status_code && a == retry_after && s == source,
    {
        CliError::Api {
            message: String::from_str(message),
            status_code,
            retry_after,
            source: Some(source),
        }
    }

    /// Sets the suggestion of a system error; other errors are returned as
    /// they are.
    pub fn with_suggestion(self, suggestion: &str) -> (r: CliError)
        ensures
            match self {
                CliError::System { message, source, .. } => r matches CliError::System {
                    message: m,
                    suggestion: Some(g),
                    source: s,
                } && m == message && s == source && g@ == suggestion@,
                _ => r == self,
            },
    {
        match self {
            CliError::System { message, source, .. } => CliError::System {
                message,
                suggestion: Some(String::from_str(suggestion)),
                source,
            },
            other => other,
        }
    }

    /// The one-line description of the error.
    pub fn display_text(&self) -> (r: String)
        ensures
            r@ == self.spec_display(),
    {
        let (prefix, message) = match self {
            CliError::Network { message, .. } => ("Network error: ", message),
            CliError::Authentication { message, .. } => ("Authentication failed: ", message),
            CliError::Validation { message, .. } => ("Invalid input: ", message),
            CliError::Data { message, .. } => ("Data processing error: ", message),
            CliError::System { message, .. } => ("System error: ", message),
            CliError::Configuration { message, .. } => ("Configuration error: ", message),
            CliError::Api { message, .. } => ("API error: ", message),
        };
        let mut r = String::from_str(prefix);
        r.append(message.as_str());
        r
    }

    /// A message for display to the user.
    pub fn user_message(&self) -> (r: String)
        ensures
            r@ == self.spec_user_message(),
    {
        match self {
            CliError::Network { message, retry_possible, .. } => {
                if *retry_possible {
                    let mut r = String::from_str("Network connection issue: ");
                    r.append(message.as_str());
                    r.append(". You can try again.");
                    r
                } else {
                    let mut r = String::from_str("Network error: ");
                    r.append(message.as_str());
                    r.append(". Please check your internet connection.");
                    r
                }
            },
            CliError::Authentication { message, can_reauth, .. } => {
                if *can_reauth {
                    let mut r = String::from_str("Authentication expired: ");
                    r.append(message.as_str());
                    r.append(". Please login again.");
                    r
                } else {
                    let mut r = String::from_str("Authentication failed: ");
                    r.append(message.as_str());
                    r.append(". Please check your credentials.");
                    r
                }
            },
            CliError::Validation { message, examples, field } => {
                let mut r = String::from_str("Invalid input: ");
                r.append(message.as_str());
                append_opt(&mut r, field, " (field: ", ")");
                if examples.len() > 0 {
                    r.append("\nValid examples: ");
                    let j = join(examples, ", ");
                    r.append(j.as_str());
                }
                r
            },
            CliError::Data { message, context, .. } => {
                let mut r = String::from_str("Data error: ");
                r.append(message.as_str());
                r.append(" (context: ");
                r.append(context.as_str());
                r.append(")");
                r
            },
            CliError::System { message, suggestion, .. } => {
                let mut r = String::from_str("System error: ");
                r.append(message.as_str());
                append_opt(&mut r, suggestion, "\nSuggestion: ", "");
                proof {
                    reveal_strlit("");
                }
                r
            },
            CliError::Configuration { message, config_path, .. } => {
                let mut r = String::from_str("Configuration error: ");
                r.append(message.as_str());
                append_opt(&mut r, config_path, " (config: ", ")");
                r
            },
            CliError::Api { message, status_code, retry_after, .. } => {
                let mut r = String::from_str("API error: ");
                r.append(message.as_str());
                match status_code {
                    Some(c) => {
                        r.append(" (HTTP ");
                        let d = decimal(*c as u64);
                        r.append(d.as_str());
                        r.append(")");
                    },
                    None => {},
                }
                match retry_after {
                    Some(s) => {
                        r.append("\nPlease wait ");
                        let d = decimal(*s);
                        r.append(d.as_str());
                        r.append(" seconds before retrying.");
                    },
                    None => {},
                }
                r
            },
        }
    }

    /// The underlying error's text, if any.
    pub fn source_text(&self) -> (r: &Option<String>)
        ensures
            *r == self.spec_source(),
    {
        match self {
            CliError::Network { source, .. } => source,
            CliError::Authentication { source, .. } => source,
            CliError::Validation { .. } => &None,
            CliError::Data { source, .. } => source,
            CliError::System { source, .. } => source,
            CliError::Configuration { source, .. } => source,
            CliError::Api { source, .. } => source,
        }
    }

    /// A detailed description for logs: the error, its cause, and the fields
    /// that matter for its kind.
    pub fn log_details(&self) -> (r: String)
        ensures
            r@ == self.spec_log_details(),
    {
        let mut r = String::from_str("Error: ");
        let d = self.display_text();
        r.append(d.as_str());
        append_opt(&mut r, self.source_text(), "\nCaused by: ", "");
        proof {
            reveal_strlit("");
        }
        let ghost head = r@;
        match self {
            CliError::Network { retry_possible, .. } => {
                r.append("\nRetry possible: ");
                append_bool(&mut r, *retry_possible);
            },
            CliError::Authentication { can_reauth, .. } => {
                r.append("\nCan re-authenticate: ");
                append_bool(&mut r, *can_reauth);
            },
            CliError::Validation { examples, field, .. } => {
                append_opt(&mut r, field, "\nField: ", "");
                if examples.len() > 0 {
                    r.append("\nValid examples: ");
                    let q = quoted(examples);
                    r.append(q.as_str());
                }
            },
            CliError::Api { status_code, retry_after, .. } => {
                match status_code {
                    Some(c) => {
                        r.append("\nHTTP Status: ");
                        let t = decimal(*c as u64);
                        r.append(t.as_str());
                    },
                    None => {},
                }
                match retry_after {
                    Some(s) => {
                        r.append("\nRetry after: ");
                        let t = decimal(*s);
                        r.append(t.as_str());
                        r.append(" seconds");
                    },
                    None => {},
                }
            },
            _ => {},
        }
        r
    }

    /// What the user can do about the error.
    pub fn recovery_suggestions(&self) -> (r: Vec<String>)
        ensures
            views(r@) == self.spec_recovery_suggestions(),
    {
        match self {
            CliError::Network { retry_possible, .. } => {
                let mut r = text_list(
                    &["Check your internet connection", "Verify that the SurePet API is accessible"],
                );
                if *retry_possible {
                    push_text(&mut r, String::from_str("Try the operation again"));
                }
                r
            },
            CliError::Authentication { can_reauth, .. } => {
                if *can_reauth {
                    text_list(
                        &[
                            "Run the command again to re-authenticate",
                            "Check if your credentials are still valid",
                        ],
                    )
                } else {
                    text_list(&["Verify your username and password", "Check if your account is active"])
                }
            },
            CliError::Validation { examples, .. } => {
                let mut r = text_list(&["Check the input format"]);
                if examples.len() > 0 {
                    let mut s = String::from_str("Use one of these formats: ");
                    let j = join(examples, ", ");
                    s.append(j.as_str());
                    push_text(&mut r, s);
                }
                push_text(&mut r, String::from_str("Use --help to see usage information"));
                r
            },
            CliError::Data { .. } => text_list(
                &[
                    "Try refreshing the data",
                    "Check if the API response format has changed",
                    "Contact support if the issue persists",
                ],
            ),
            CliError::System { suggestion, .. } => {
                let mut r: Vec<String> = Vec::new();
                match suggestion {
                    Some(s) => push_text(&mut r, s.clone()),
                    None => {},
                }
                push_text(&mut r, String::from_str("Check file permissions"));
                push_text(&mut r, String::from_str("Ensure sufficient disk space"));
                r
            },
            CliError::Configuration { config_path, .. } => {
                let mut r = text_list(&["Check the configuration file format"]);
                match config_path {
                    Some(p) => {
                        let mut s = String::from_str("Verify the config file exists: ");
                        s.append(p.as_str());
                        push_text(&mut r, s);
                    },
                    None => {},
                }
                push_text(&mut r, String::from_str("Reset configuration to defaults if needed"));
                r
            },
            CliError::Api { status_code, retry_after, .. } => {
                match status_code {
                    Some(c) => {
                        let c = *c;
                        if c == 429 {
                            let mut r = text_list(&["You're being rate limited"]);
                            match retry_after {
                                Some(s) => {
                                    let mut t = String::from_str("Wait ");
                                    let d = decimal(*s);
                                    t.append(d.as_str());
                                    t.append(" seconds before retrying");
                                    push_text(&mut r, t);
                                },
                                None => push_text(
                                    &mut r,
                                    String::from_str("Wait a few minutes before retrying"),
                                ),
                            }
                            r
                        } else if 500 <= c && c <= 599 {
                            text_list(&["The API service is experiencing issues", "Try again later"])
                        } else if c == 401 {
                            text_list(
                                &["Your authentication token may have expired", "Try logging in again"],
                            )
                        } else if c == 403 {
                            text_list(
                                &[
                                    "You don't have permission for this operation",
                                    "Check your account permissions",
                                ],
                            )
                        } else if c == 404 {
                            text_list(
                                &[
                                    "The requested resource was not found",
                                    "Check if the pet/device ID is correct",
                                ],
                            )
                        } else {
                            text_list(
                                &["Check the API documentation", "Contact support if the issue persists"],
                            )
                        }
                    },
                    None => text_list(
                        &["Check the API documentation", "Contact support if the issue persists"],
                    ),
                }
            },
        }
    }
}

/// A configuration error with the text of its underlying error.
pub fn config_error_with_source(message: &str, config_path: Option<String>, source: String) -> (r: CliError)
    ensures
        r matches CliError::Configuration { message: m, config_path: p, source: Some(s) }
            && m@ == message@ && p == config_path && s == source,
{
    CliError::Configuration { message: String::from_str(message), config_path, source: Some(source) }
}

/// The kinds of local I/O failure that the client tells apart.
#[derive(Debug, Clone, Copy, PartialEq, Eq, Structural)]
pub enum IoFailureKind {
    NotFound,
    PermissionDenied,
    ConnectionRefused,
    TimedOut,
    Other,
}

/// A failed call to the remote service, as the HTTP layer reports it.
#[derive(Debug, Clone)]
pub struct RemoteFailure {
    /// The request timed out.
    pub timeout: bool,
    /// No connection could be made.
    pub connect: bool,
    /// The request could not be built or sent.
    pub request: bool,
    /// The HTTP status of the response, when there was one.
    pub status: Option<u16>,
    /// The error's text.
    pub message: String,
}

impl CliError {
    /// The error for a local I/O failure of the given kind; `detail` is the
    /// failure's own text.
    pub fn from_io_failure(kind: IoFailureKind, detail: String) -> (r: CliError)
        ensures
            match kind {
                IoFailureKind::NotFound => r matches CliError::System {
                    message: m,
                    suggestion: Some(g),
                    source: Some(s),
                } && m@ == "File or directory not found"@ && g@
                    == "Check if the path exists and you have permission to access it"@ && s == detail,
                IoFailureKind::PermissionDenied => r matches CliError::System {
                    message: m,
                    suggestion: Some(g),
                    source: Some(s),
                } && m@ == "Permission denied"@ && g@
                    == "Check file permissions or run with appropriate privileges"@ && s == detail,
                IoFailureKind::ConnectionRefused => r matches CliError::Network {
                    message: m,
                    retry_possible: true,
                    source: Some(s),
                } && m@ == "Connection refused"@ && s == detail,
                IoFailureKind::TimedOut => r matches CliError::Network {
                    message: m,
                    retry_possible: true,
                    source: Some(s),
                } && m@ == "Operation timed out"@ && s == detail,
                IoFailureKind::Other => r matches CliError::System {
                    message: m,
                    suggestion: None,
                    source: Some(s),
                } && m@ == "System I/O error"@ && s == detail,
            },
    {
        match kind {
            IoFailureKind::NotFound => CliError::system_error_with_source(
                "File or directory not found",
                Some(String::from_str("Check if the path exists and you have permission to access it")),
                detail,
            ),
            IoFailureKind::PermissionDenied => CliError::system_error_with_source(
                "Permission denied",
                Some(String::from_str("Check file permissions or run with appropriate privileges")),
                detail,
            ),
            IoFailureKind::ConnectionRefused => CliError::network_error_with_source(
                "Connection refused",
                true,
                detail,
            ),
            IoFailureKind::TimedOut => CliError::network_error_with_source(
                "Operation timed out",
                true,
                detail,
            ),
            IoFailureKind::Other => CliError::system_error_with_source("System I/O error", None, detail),
        }
    }

    /// The error for a failed call to the remote service.
    pub fn from_remote_failure(f: RemoteFailure) -> (r: CliError)
        ensures
            f.timeout ==> (r matches CliError::Network { message: m, retry_possible: true, source: Some(s) }
                && m@ == "Request timed out"@ && s == f.message),
            !f.timeout && f.connect ==> (r matches CliError::Network {
                message: m,
                retry_possible: true,
                source: Some(s),
            } && m@ == "Failed to connect to server"@ && s == f.message),
            !f.timeout && !f.connect && f.status is None ==> (r matches CliError::Network {
                message: m,
                retry_possible: true,
                source: Some(s),
            } && m@ == "Network request failed"@ && s == f.message),
            !f.timeout && !f.connect && f.status == Some(401u16) ==> (r matches CliError::Authentication {
                message: m,
                can_reauth: true,
                source: Some(s),
            } && m@ == "Authentication failed"@ && s == f.message),
            !f.timeout && !f.connect && f.status == Some(403u16) ==> (r matches CliError::Authentication {
                message: m,
                can_reauth: false,
                source: Some(s),
            } && m@ == "Access forbidden"@ && s == f.message),
            !f.timeout && !f.connect && f.status == Some(429u16) ==> (r matches CliError::Api {
                message: m,
                status_code: Some(429u16),
                retry_after: None,
                source: Some(s),
            } && m@ == "Rate limit exceeded"@ && s == f.message),
            !f.timeout && !f.connect && (f.status matches Some(c) && 500 <= c <= 599) ==> (r matches CliError::Api {
                message: m,
                status_code: Some(c2),
                retry_after: Some(60u64),
                source: Some(s),
            } && m@ == "Server error"@ && Some(c2) == f.status && s == f.message),
            !f.timeout && !f.connect && (f.status matches Some(c) && c != 401 && c != 403 && c != 429 && !(
            500 <= c <= 599)) ==> (r matches CliError::Api {
                message: m,
                status_code: Some(c2),
                retry_after: None,
                source: Some(s),
            } && m@ == "API request failed"@ && Some(c2) == f.status && s == f.message),
    {
        if f.timeout {
            CliError::network_error_with_source("Request timed out", true, f.message)
        } else if f.connect {
            CliError::network_error_with_source("Failed to connect to server", true, f.message)
        } else {
            match f.status {
                Some(status) => {
                    if status == 401 {
                        CliError::auth_error_with_source("Authentication failed", true, f.message)
                    } else if status == 403 {
                        CliError::auth_error_with_source("Access forbidden", false, f.message)
                    } else if status == 429 {
                        CliError::api_error_with_source("Rate limit exceeded", Some(status), None, f.message)
                    } else if 500 <= status && status <= 599 {
                        CliError::api_error_with_source("Server error", Some(status), Some(60), f.message)
                    } else {
                        CliError::api_error_with_source("API request failed", Some(status), None, f.message)
                    }
                },
                None => CliError::network_error_with_source("Network request failed", true, f.message),
            }
        }
    }
}

/// Whether an authenticated operation that failed with `error` is worth
/// another attempt: re-authentication is possible, the network may recover,
/// or the service answered with an unauthorised or server-fault status.
pub open spec fn spec_retryable_auth_error(error: CliError) -> bool {
    match error {
        CliError::Authentication { can_reauth, .. } => can_reauth,
        CliError::Network { retry_possible, .. } => retry_possible,
        CliError::Api { status_code, .. } => match status_code {
            Some(c) => c == 401 || (500 <= c <= 599),
            None => false,
        },
        _ => false,
    }
}

pub fn is_retryable_auth_error(error: &CliError) -> (r: bool)
    ensures
        r == spec_retryable_auth_error(*error),
{
    match error {
        CliError::Authentication { can_reauth, .. } => *can_reauth,
        CliError::Network { retry_possible, .. } => *retry_possible,
        CliError::Api { status_code, .. } => match status_code {
            Some(c) => *c == 401 || (500 <= *c && *c <= 599),
            None => false,
        },
        _ => false,
    }
}

#[verifier::external_type_specification]
#[verifier::external_body]
pub struct ExIoError(std::io::Error);

/// Relies on `std::io::Error::kind`: tells apart the kinds of failure that the
/// conversion distinguishes, all others falling under `Other`.
#[verifier::external_body]
fn io_failure_kind(e: &std::io::Error) -> (r: IoFailureKind) {
    match e.kind() {
        std::io::ErrorKind::NotFound => IoFailureKind::NotFound,
        std::io::ErrorKind::PermissionDenied => IoFailureKind::PermissionDenied,
        std::io::ErrorKind::ConnectionRefused => IoFailureKind::ConnectionRefused,
        std::io::ErrorKind::TimedOut => IoFailureKind::TimedOut,
        _ => IoFailureKind::Other,
    }
}

impl From<std::io::Error> for CliError {
    fn from(error: std::io::Error) -> (r: CliError) {
        let kind = io_failure_kind(&error);
        let detail = error.to_string();
        CliError::from_io_failure(kind, detail)
    }
}

impl vstd::std_specs::convert::FromSpecImpl<std::io::Error> for CliError {
    /// What the conversion returns depends on the error's kind, which only the
    /// call itself reads: `from_io_failure` states it for each kind.
    open spec fn obeys_from_spec() -> bool {
        false
    }

    open spec fn from_spec(v: std::io::Error) -> CliError {
        arbitrary()
    }
}

} // verus!
