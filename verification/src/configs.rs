//! The application configuration and its startup validation.
//!
//! Loading the values (a config file, a secret store) is the host's business;
//! the rules they must meet — and the full, per-field report when they do not
//! — are decided here, once, at startup. The dispatch path trusts a validated
//! configuration.

use vstd::prelude::*;
use vstd::string::StringExecFns;

use crate::models::FieldError;
use crate::models::errors_match;

verus! {

/// The configuration the backend runs with, as loaded; `validate` decides
/// whether it is acceptable.
#[derive(Clone, Debug)]
pub struct AppConfigs {
    pub allow_cors_origins: Vec<String>,
    pub message_from_email: String,
    pub message_to_email: String,
    pub retry_count: usize,
    pub retry_timeout: u64,
    pub sentry_dsn: String,
    pub sentry_environment: String,
    pub smtp_addr: String,
    pub smtp_auth: String,
    pub smtp_connection_timeout: u64,
}

/// Whether a string parses as a URL; the outcome of the url crate's parser,
/// a function of the characters alone.
pub uninterp spec fn url_parses(s: Seq<char>) -> bool;

/// Relies on url::Url::parse: whether the string is a valid URL.
#[verifier::external_body]
fn url_is_valid(s: &str) -> (r: bool)
    ensures
        r == url_parses(s@),
{
    url::Url::parse(s).is_ok()
}

/// Whether a string parses as an error-tracking DSN; the outcome of the
/// sentry crate's parser, a function of the characters alone.
pub uninterp spec fn dsn_parses(s: Seq<char>) -> bool;

/// Relies on sentry::types::Dsn's FromStr: whether the string is a valid DSN.
#[verifier::external_body]
fn dsn_is_valid(s: &str) -> (r: bool)
    ensures
        r == dsn_parses(s@),
{
    s.parse::<sentry::types::Dsn>().is_ok()
}

/// Whether a pattern is a valid regular expression; the outcome of the regex
/// crate's compiler, a function of the pattern alone.
pub uninterp spec fn regex_compiles(pattern: Seq<char>) -> bool;

/// Whether a regular expression matches somewhere in a text; the outcome of
/// the regex crate's matcher, a function of pattern and text alone.
pub uninterp spec fn regex_matches(pattern: Seq<char>, text: Seq<char>) -> bool;

/// Relies on regex::Regex::new and regex::Regex::is_match: `None` exactly
/// when the pattern does not compile, and otherwise whether the compiled
/// expression matches somewhere in the text.
#[verifier::external_body]
fn regex_is_match(pattern: &str, text: &str) -> (r: Option<bool>)
    ensures
        r is Some <==> regex_compiles(pattern@),
        r matches Some(b) ==> b == regex_matches(pattern@, text@),
{
    match regex::Regex::new(pattern) {
        Ok(re) => Some(re.is_match(text)),
        Err(_) => None,
    }
}

/// The shape an SMTP credential must have: a user part, `@`, a dotted host
/// part, `:`, and a secret.
pub open spec fn spec_smtp_auth_pattern() -> Seq<char> {
    "^[^@]+@[^@]+\\.[^@]+:.+$"@
}

fn smtp_auth_pattern() -> (r: &'static str)
    ensures
        r@ == spec_smtp_auth_pattern(),
{
    "^[^@]+@[^@]+\\.[^@]+:.+$"
}

pub open spec fn smtp_auth_ok(s: Seq<char>) -> bool {
    &&& regex_compiles(spec_smtp_auth_pattern())
    &&& regex_matches(spec_smtp_auth_pattern(), s)
}

pub open spec fn origins_nonempty(origins: Seq<String>) -> bool {
    origins.len() >= 1
}

pub open spec fn origins_all_urls(origins: Seq<String>) -> bool {
    forall|i: int| 0 <= i < origins.len() ==> url_parses((#[trigger] origins[i])@)
}

pub open spec fn retry_count_ok(n: usize) -> bool {
    1 <= n <= 10
}

pub open spec fn retry_timeout_ok(n: u64) -> bool {
    10 <= n <= 100
}

pub open spec fn connection_timeout_ok(n: u64) -> bool {
    n >= 1000
}

/// Every configuration rule at once.
pub open spec fn config_valid(c: &AppConfigs) -> bool {
    &&& origins_nonempty(c.allow_cors_origins@)
    &&& origins_all_urls(c.allow_cors_origins@)
    &&& retry_count_ok(c.retry_count)
    &&& retry_timeout_ok(c.retry_timeout)
    &&& dsn_parses(c.sentry_dsn@)
    &&& url_parses(c.smtp_addr@)
    &&& smtp_auth_ok(c.smtp_auth@)
    &&& connection_timeout_ok(c.smtp_connection_timeout)
}

/// The error list a configuration earns, one entry per failing rule, in
/// declaration order. The two rules on the origin list cannot fail together:
/// an empty list has every member a URL vacuously.
pub open spec fn spec_config_errors(c: &AppConfigs) -> Seq<(Seq<char>, Seq<char>)> {
    (if origins_nonempty(c.allow_cors_origins@) {
        seq![]
    } else {
        seq![("allow_cors_origins"@, "must be at least one of the allowed origins"@)]
    }) + (if origins_all_urls(c.allow_cors_origins@) {
        seq![]
    } else {
        seq![("allow_cors_origins"@, "must be a valid URLs"@)]
    }) + (if retry_count_ok(c.retry_count) {
        seq![]
    } else {
        seq![("retry_count"@, "must be between 1 and 10 times"@)]
    }) + (if retry_timeout_ok(c.retry_timeout) {
        seq![]
    } else {
        seq![("retry_timeout"@, "must be between 10 and 100 msec"@)]
    }) + (if dsn_parses(c.sentry_dsn@) {
        seq![]
    } else {
        seq![("sentry_dsn"@, "must be a valid Sentry DSN"@)]
    }) + (if url_parses(c.smtp_addr@) {
        seq![]
    } else {
        seq![("smtp_addr"@, "must be a valid SMTP addr (e.g., smtp.gmail.com:587)"@)]
    }) + (if smtp_auth_ok(c.smtp_auth@) {
        seq![]
    } else {
        seq![("smtp_auth"@, "must be a valid auth string (e.g., email:password)"@)]
    }) + (if connection_timeout_ok(c.smtp_connection_timeout) {
        seq![]
    } else {
        seq![("smtp_connection_timeout"@, "must be at least 1000 msec"@)]
    })
}

impl AppConfigs {
    /// Runs every configuration rule, never stopping at the first failure,
    /// and returns every violation, one `FieldError` per failing rule, in
    /// declaration order.
    #[verifier::rlimit(100)]
    pub fn validate(&self) -> (r: Result<(), Vec<FieldError>>)
        ensures
            r is Ok <==> config_valid(self),
            r matches Err(errs) ==> errors_match(errs@, spec_config_errors(self)) && errs@.len()
                >= 1,
    {
        let mut errors: Vec<FieldError> = Vec::new();
        if self.allow_cors_origins.len() < 1 {
            errors.push(
                FieldError::new(
                    String::from_str("allow_cors_origins"),
                    vec![String::from_str("must be at least one of the allowed origins")],
                ),
            );
        }
        let mut all_urls = true;
        let mut i: usize = 0;
        while i < self.allow_cors_origins.len()
            invariant
                i <= self.allow_cors_origins@.len(),
                all_urls <==> (forall|j: int|
                    0 <= j < i ==> url_parses((#[trigger] self.allow_cors_origins@[j])@)),
            decreases self.allow_cors_origins@.len() - i,
        {
            if !url_is_valid(self.allow_cors_origins[i].as_str()) {
                all_urls = false;
            }
            i = i + 1;
        }
        if !all_urls {
            errors.push(
                FieldError::new(
                    String::from_str("allow_cors_origins"),
                    vec![String::from_str("must be a valid URLs")],
                ),
            );
        }
        if !(1 <= self.retry_count && self.retry_count <= 10) {
            errors.push(
                FieldError::new(
                    String::from_str("retry_count"),
                    vec![String::from_str("must be between 1 and 10 times")],
                ),
            );
        }
        if !(10 <= self.retry_timeout && self.retry_timeout <= 100) {
            errors.push(
                FieldError::new(
                    String::from_str("retry_timeout"),
                    vec![String::from_str("must be between 10 and 100 msec")],
                ),
            );
        }
        if !dsn_is_valid(self.sentry_dsn.as_str()) {
            errors.push(
                FieldError::new(
                    String::from_str("sentry_dsn"),
                    vec![String::from_str("must be a valid Sentry DSN")],
                ),
            );
        }
        if !url_is_valid(self.smtp_addr.as_str()) {
            errors.push(
                FieldError::new(
                    String::from_str("smtp_addr"),
                    vec![String::from_str("must be a valid SMTP addr (e.g., smtp.gmail.com:587)")],
                ),
            );
        }
        let auth_matches = match regex_is_match(smtp_auth_pattern(), self.smtp_auth.as_str()) {
            Some(b) => b,
            None => false,
        };
        if !auth_matches {
            errors.push(
                FieldError::new(
                    String::from_str("smtp_auth"),
                    vec![String::from_str("must be a valid auth string (e.g., email:password)")],
                ),
            );
        }
        if !(self.smtp_connection_timeout >= 1000) {
            errors.push(
                FieldError::new(
                    String::from_str("smtp_connection_timeout"),
                    vec![String::from_str("must be at least 1000 msec")],
                ),
            );
        }
        if errors.len() == 0 {
            assert(spec_config_errors(self).len() == 0);
            Ok(())
        } else {
            Err(errors)
        }
    }
}

} // verus!
