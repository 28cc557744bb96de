//! How a builder's settings resolve into a client's: which value wins, and which problems
//! stop the build, in which order.

use vstd::prelude::*;

use super::address::{is_loopback_address, parsed_ip, parsed_url};
use super::backend::Backend;
use super::builder::{BuilderView, TLS_BACKEND};
use super::{spec_max_permits, Client, ClientView};
use crate::credentials::{bearer_problem, Credentials, CredentialsView};
use crate::error::{Error, ErrorView};
use crate::retry::{DEFAULT_TIMEOUT_SECS, DEFAULT_TOTAL_TIMEOUT_SECS};
use crate::text::{
    decimal, eq_ignore_ascii_case, has_prefix, is_char, skip_leading, skip_trailing, trimmed,
};

verus! {

// Messages of the configuration errors.
/// Error message when no credentials were set in code nor in the environment.
pub open spec fn no_credentials_message(env_key: Seq<char>) -> Seq<char> {
    "No credentials were provided. Call `ClientBuilder::api_key` or `ClientBuilder::credential_provider`, or set the "@
        + env_key + " environment variable."@
}

/// Error message for an API key that cannot be sent, with the reason.
pub open spec fn api_key_message(problem: Seq<char>) -> Seq<char> {
    "The API key "@ + problem + "."@
}

/// Error message for a `base_url` that is not an https URL.
pub open spec fn not_https_message(url: Seq<char>) -> Seq<char> {
    "`base_url` must be an https URL, got \""@ + url + "\"."@
}

/// Error message for a plain-http `base_url` on a host that is not loopback.
pub open spec fn plain_http_message(url: Seq<char>) -> Seq<char> {
    "`base_url` \""@ + url
        + "\" uses plain http, which would send credentials unencrypted. Use https, a loopback host, or `ClientBuilder::allow_insecure_http(true)`."@
}

/// Error message for a zero timeout per attempt.
pub open spec fn timeout_message() -> Seq<char> {
    "`timeout` must be a positive duration, got 0."@
}

/// Error message for a zero bound on a whole call.
pub open spec fn total_timeout_message() -> Seq<char> {
    "`total_timeout` must be a positive duration, got 0."@
}

/// Error message for a concurrency limit out of range.
pub open spec fn concurrency_message(max: usize) -> Seq<char> {
    "`max_concurrent_requests` must be between 1 and "@ + decimal(spec_max_permits() as nat)
        + ", got "@ + decimal(max as nat) + "."@
}

/// Error message for an https `base_url` with no TLS backend to reach it.
pub open spec fn no_tls_message() -> Seq<char> {
    "kunobi-jev was built without a TLS backend, so it cannot reach an https `base_url`. Enable the `rustls` or `native-tls` feature, or pass a client through `ClientBuilder::http_client`."@
}

// How settings are resolved.
/// Whether a host may receive credentials over plain http: `localhost` in any ASCII case, or
/// an address (brackets around it removed) that parses as a loopback IP address.
pub open spec fn host_is_loopback(host: Seq<char>) -> bool {
    ||| eq_ignore_ascii_case(host, "localhost"@)
    ||| match parsed_ip(skip_trailing(skip_leading(host, is_char('[')), is_char(']'))) {
        Some(ip) => is_loopback_address(ip),
        None => false,
    }
}

/// What is wrong with a `base_url`, given what the URL parser made of it, if anything:
/// https is accepted; plain http only for loopback hosts or when allowed; all else is refused.
pub open spec fn base_url_verdict(
    url: Seq<char>,
    parts: Option<(Seq<char>, Option<Seq<char>>)>,
    allow_insecure_http: bool,
) -> Option<ErrorView> {
    match parts {
        None => Some(ErrorView::Config(not_https_message(url))),
        Some((scheme, host)) => if scheme == "https"@ {
            None
        } else if scheme == "http"@ {
            let host = match host {
                Some(h) => h,
                None => Seq::empty(),
            };
            if allow_insecure_http || host_is_loopback(host) {
                None
            } else {
                Some(ErrorView::Config(plain_http_message(url)))
            }
        } else {
            Some(ErrorView::Config(not_https_message(url)))
        },
    }
}

/// What is wrong with a `base_url`, if anything.
pub open spec fn base_url_problem(url: Seq<char>, allow_insecure_http: bool) -> Option<ErrorView> {
    base_url_verdict(url, parsed_url(url), allow_insecure_http)
}

/// The backend a builder uses.
pub open spec fn chosen_backend(b: BuilderView) -> Backend {
    match b.backend {
        Some(x) => x,
        None => Backend::TypeSafe,
    }
}

/// The credentials a builder uses: those set in code, else the environment's key.
pub open spec fn chosen_credentials(b: BuilderView, env_api_key: Option<Seq<char>>) -> Option<
    CredentialsView,
> {
    match b.credentials {
        Some(c) => Some(c),
        None => match env_api_key {
            Some(k) => Some(CredentialsView::ApiKey(k)),
            None => None,
        },
    }
}

/// The API root a builder takes: from code, else the environment, else the backend's default.
pub open spec fn raw_base_url(b: BuilderView, env_base_url: Option<Seq<char>>) -> Seq<char> {
    match b.base_url {
        Some(u) => u,
        None => match env_base_url {
            Some(u) => u,
            None => chosen_backend(b).spec_default_base_url(),
        },
    }
}

/// The API root a builder uses: the root it takes, without surrounding whitespace and
/// trailing slashes.
pub open spec fn chosen_base_url(b: BuilderView, env_base_url: Option<Seq<char>>) -> Seq<char> {
    skip_trailing(trimmed(raw_base_url(b, env_base_url)), is_char('/'))
}

/// The default model a builder uses: from code, else the environment, else the backend's default.
pub open spec fn chosen_model(b: BuilderView, env_default_model: Option<Seq<char>>) -> Seq<char> {
    match b.default_model {
        Some(m) => m,
        None => match env_default_model {
            Some(m) => m,
            None => chosen_backend(b).spec_default_model(),
        },
    }
}

/// The timeout per attempt a builder uses, in nanoseconds.
pub open spec fn chosen_timeout(b: BuilderView) -> nat {
    match b.timeout {
        Some(t) => t,
        None => (DEFAULT_TIMEOUT_SECS * 1_000_000_000) as nat,
    }
}

/// The bound on a whole call a builder uses, in nanoseconds.
pub open spec fn chosen_total_timeout(b: BuilderView) -> Option<nat> {
    match b.total_timeout {
        Some(t) => t,
        None => Some((DEFAULT_TOTAL_TIMEOUT_SECS * 1_000_000_000) as nat),
    }
}

/// What is wrong with the credentials, if anything.
pub open spec fn credentials_problem(b: BuilderView, env_api_key: Option<Seq<char>>) -> Option<
    ErrorView,
> {
    match chosen_credentials(b, env_api_key) {
        None => Some(
            ErrorView::Config(no_credentials_message(chosen_backend(b).spec_env_api_key())),
        ),
        Some(CredentialsView::ApiKey(k)) => match bearer_problem(k) {
            Some(m) => Some(ErrorView::Config(api_key_message(m))),
            None => None,
        },
        Some(CredentialsView::Provider) => None,
    }
}

/// What is wrong with the limits and the transport, if anything, checked in this order: the
/// timeout, the bound on a whole call, the concurrency limit, and TLS for an https root.
pub open spec fn limits_problem(b: BuilderView, url: Seq<char>, has_http_client: bool) -> Option<
    ErrorView,
> {
    if chosen_timeout(b) == 0 {
        Some(ErrorView::Config(timeout_message()))
    } else if chosen_total_timeout(b) == Some(0nat) {
        Some(ErrorView::Config(total_timeout_message()))
    } else if b.max_concurrent_requests matches Some(m) && (m == 0 || m > spec_max_permits()) {
        Some(ErrorView::Config(concurrency_message(b.max_concurrent_requests->Some_0)))
    } else if !has_http_client && !TLS_BACKEND && has_prefix(url, "https:"@) {
        Some(ErrorView::Config(no_tls_message()))
    } else {
        None
    }
}

/// The outcome of building: the first problem found, or the client's settings.
///
/// Problems are looked for in this order: credentials, the API root, the retry policy (whose
/// check is done outside this library and passed in), and then the limits.
pub open spec fn resolve(
    b: BuilderView,
    env_api_key: Option<Seq<char>>,
    env_base_url: Option<Seq<char>>,
    env_default_model: Option<Seq<char>>,
    retry: Result<(), ErrorView>,
    has_http_client: bool,
) -> Result<ClientView, ErrorView> {
    let url = chosen_base_url(b, env_base_url);
    if let Some(e) = credentials_problem(b, env_api_key) {
        Err(e)
    } else if let Some(e) = base_url_problem(url, b.allow_insecure_http) {
        Err(e)
    } else if let Err(e) = retry {
        Err(e)
    } else if let Some(e) = limits_problem(b, url, has_http_client) {
        Err(e)
    } else {
        Ok(
            ClientView {
                backend: chosen_backend(b),
                credentials: chosen_credentials(b, env_api_key)->Some_0,
                base_url: url,
                log_bodies: b.log_bodies,
                default_model: chosen_model(b, env_default_model),
                timeout: chosen_timeout(b),
                total_timeout: chosen_total_timeout(b),
                max_concurrent_requests: b.max_concurrent_requests,
                default_headers: b.default_headers,
            },
        )
    }
}

/// A result's error as contracts speak of it.
pub open spec fn outcome_view(r: Result<(), Error>) -> Result<(), ErrorView> {
    match r {
        Ok(_) => Ok(()),
        Err(e) => Err(e@),
    }
}


/// Whether `value` is what the environment gave for `name`, when the builder asked for it;
/// when it did not ask, `value` is `None`.
pub open spec fn env_answer<F: Fn(&str) -> Option<String>>(
    env: F,
    asked: bool,
    name: Seq<char>,
    value: Option<String>,
) -> bool {
    if asked {
        exists|k: &str| k@ == name && #[trigger] env.ensures((k,), value)
    } else {
        value is None
    }
}

/// Whether a build outcome is the resolved one: the same error, or a client with these settings.
pub open spec fn outcome_matches(
    res: Result<ClientView, ErrorView>,
    r: Result<Client, Error>,
) -> bool {
    match res {
        Ok(v) => r matches Ok(c) && c@ == v,
        Err(e) => r matches Err(f) && f@ == e,
    }
}

/// Credentials as contracts speak of them, when there are any.
pub open spec fn credentials_opt_view(c: Option<Credentials>) -> Option<CredentialsView> {
    match c {
        Some(c) => Some(c@),
        None => None,
    }
}

} // verus!
