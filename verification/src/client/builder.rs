//! Client construction.

use core::time::Duration;

use reqwest::header::{HeaderMap, HeaderName, HeaderValue};
use vstd::prelude::*;
use vstd::string::*;

use super::address::{parse_ip, parse_url, url_parts_view, UrlParts};
use super::backend::Backend;
use super::env::opt_text;
use super::settings::{
    base_url_problem, base_url_verdict, chosen_backend, chosen_base_url, chosen_credentials,
    chosen_model, chosen_timeout, chosen_total_timeout, concurrency_message,
    credentials_opt_view, credentials_problem, env_answer, host_is_loopback, not_https_message,
    outcome_matches, outcome_view, resolve, timeout_message,
};
use super::headers::{
    empty_headers, extend_headers, header_entries, header_name_text, header_names_len,
    header_names_limit, insert_header,
};
use super::{max_permits, spec_max_permits, Client};
use crate::credentials::{bearer_header, header_value_bytes, ApiKey, Credentials, CredentialsView};
use crate::error::{Error, ErrorView};
use crate::retry::{default_timeout, default_total_timeout, duration_nanos, nanos};
use crate::text::{
    decimal_text, equal_ignoring_ascii_case, same_text, starts_with, trim, trim_end_matches,
    trim_start_matches,
};

verus! {

/// Whether the default HTTP client can speak TLS. This build of `reqwest` has no TLS
/// backend, so an https `base_url` needs a preconfigured HTTP client.
pub const TLS_BACKEND: bool = false;

/// Builder for [`Client`].
///
/// Values set here take precedence over environment variables, then defaults.
/// Blank environment values are ignored.
pub struct ClientBuilder {
    backend: Option<Backend>,
    credentials: Option<Credentials>,
    base_url: Option<String>,
    allow_insecure_http: bool,
    log_bodies: bool,
    default_model: Option<String>,
    timeout: Option<Duration>,
    /// Outer `None` means "not set, use the default"; inner `None` means the
    /// caller removed the bound.
    total_timeout: Option<Option<Duration>>,
    max_concurrent_requests: Option<usize>,
    default_headers: HeaderMap,
}

/// A builder's settings as contracts speak of them; durations by their nanoseconds.
pub struct BuilderView {
    /// The backend chosen in code, if any.
    pub backend: Option<Backend>,
    /// Credentials set in code, if any.
    pub credentials: Option<CredentialsView>,
    /// API root set in code, if any.
    pub base_url: Option<Seq<char>>,
    /// Whether plain http is accepted on any host.
    pub allow_insecure_http: bool,
    /// Whether bodies are logged.
    pub log_bodies: bool,
    /// Default model set in code, if any.
    pub default_model: Option<Seq<char>>,
    /// Timeout per attempt set in code, if any.
    pub timeout: Option<nat>,
    /// Bound for a whole call set in code, if any; `Some(None)` removes the bound.
    pub total_timeout: Option<Option<nat>>,
    /// Concurrency limit set in code, if any.
    pub max_concurrent_requests: Option<usize>,
    /// Headers sent with every request.
    pub default_headers: Map<Seq<char>, Seq<Seq<u8>>>,
}

/// The nanoseconds of an optional duration.
pub open spec fn opt_nanos(d: Option<Duration>) -> Option<nat> {
    match d {
        Some(d) => Some(duration_nanos(d)),
        None => None,
    }
}

impl View for ClientBuilder {
    type V = BuilderView;

    closed spec fn view(&self) -> BuilderView {
        BuilderView {
            backend: self.backend,
            credentials: match self.credentials {
                Some(c) => Some(c@),
                None => None,
            },
            base_url: opt_text(self.base_url),
            allow_insecure_http: self.allow_insecure_http,
            log_bodies: self.log_bodies,
            default_model: opt_text(self.default_model),
            timeout: opt_nanos(self.timeout),
            total_timeout: match self.total_timeout {
                Some(t) => Some(opt_nanos(t)),
                None => None,
            },
            max_concurrent_requests: self.max_concurrent_requests,
            default_headers: header_entries(self.default_headers),
        }
    }
}

/// A builder switched to OpenRouter, with all else as it was.
pub open spec fn with_openrouter(b: BuilderView) -> BuilderView {
    BuilderView { backend: Some(Backend::OpenRouter), ..b }
}

/// A builder with nothing set.
pub open spec fn spec_default_builder() -> BuilderView {
    BuilderView {
        backend: None,
        credentials: None,
        base_url: None,
        allow_insecure_http: false,
        log_bodies: false,
        default_model: None,
        timeout: None,
        total_timeout: None,
        max_concurrent_requests: None,
        default_headers: Map::empty(),
    }
}

impl Default for ClientBuilder {
    /// A builder with nothing set.
    fn default() -> (r: Self)
        ensures
            r@ == spec_default_builder(),
    {
        let default_headers = empty_headers();
        let r = ClientBuilder {
            backend: None,
            credentials: None,
            base_url: None,
            allow_insecure_http: false,
            log_bodies: false,
            default_model: None,
            timeout: None,
            total_timeout: None,
            max_concurrent_requests: None,
            default_headers,
        };
        assert(header_entries(r.default_headers) =~= Map::empty());
        r
    }
}

impl ClientBuilder {
    /// Opt in to OpenRouter's Decisions API for Jev.
    ///
    /// The default backend is TypeSafe until this is called. The base URL then defaults to
    /// `OPENROUTER_DEFAULT_BASE_URL`, the default model to `OPENROUTER_DEFAULT_MODEL`, and
    /// `OPENROUTER_API_KEY` is read when no key is set in code.
    pub fn openrouter(self) -> (r: Self)
        ensures
            r@ == with_openrouter(self@),
    {
        let mut b = self;
        b.backend = Some(Backend::OpenRouter);
        b
    }

    /// Authenticate with an API key; falls back to the backend's API key variable.
    ///
    /// The key is held as a `secrecy::SecretString` and wiped from memory when the client
    /// is dropped. Replaces any credentials set earlier on the builder.
    pub fn api_key(self, api_key: &str) -> (r: Self)
        ensures
            r@ == (BuilderView { credentials: Some(CredentialsView::ApiKey(api_key@)), ..self@ }),
    {
        let mut b = self;
        b.credentials = Some(Credentials::ApiKey(ApiKey::new(api_key.to_owned())));
        b
    }

    /// Authenticate with bearer tokens from a provider, asked before every attempt.
    ///
    /// Replaces any API key set on the builder, and the environment key is not read. The
    /// provider itself is held by the caller that sends the requests.
    pub fn credential_provider(self) -> (r: Self)
        ensures
            r@ == (BuilderView { credentials: Some(CredentialsView::Provider), ..self@ }),
    {
        let mut b = self;
        b.credentials = Some(Credentials::Provider);
        b
    }

    /// API root; falls back to the backend's base URL variable, then its default root.
    ///
    /// Must be https. Plain http is accepted only for loopback hosts, unless
    /// `allow_insecure_http` is set.
    pub fn base_url(self, base_url: &str) -> (r: Self)
        ensures
            r@ == (BuilderView { base_url: Some(base_url@), ..self@ }),
    {
        let mut b = self;
        b.base_url = Some(base_url.to_owned());
        b
    }

    /// Accept a plain-http `base_url` on any host. Credentials then travel unencrypted.
    pub fn allow_insecure_http(self, allow: bool) -> (r: Self)
        ensures
            r@ == (BuilderView { allow_insecure_http: allow, ..self@ }),
    {
        let mut b = self;
        b.allow_insecure_http = allow;
        b
    }

    /// Include request and response bodies in `debug` logs. Default: off.
    pub fn log_bodies(self, log_bodies: bool) -> (r: Self)
        ensures
            r@ == (BuilderView { log_bodies, ..self@ }),
    {
        let mut b = self;
        b.log_bodies = log_bodies;
        b
    }

    /// Default model; falls back to the backend's model variable, then its default model.
    pub fn default_model(self, model: &str) -> (r: Self)
        ensures
            r@ == (BuilderView { default_model: Some(model@), ..self@ }),
    {
        let mut b = self;
        b.default_model = Some(model.to_owned());
        b
    }

    /// Timeout per attempt, including the response body. Default: 5 s.
    pub fn timeout(self, timeout: Duration) -> (r: Self)
        ensures
            r@ == (BuilderView { timeout: Some(duration_nanos(timeout)), ..self@ }),
    {
        let mut b = self;
        b.timeout = Some(timeout);
        b
    }

    /// Upper bound for a whole call, including credentials, retries and backoff. Default: 10 s.
    ///
    /// Pass `None` to remove the bound and let the retry policy run to its end.
    pub fn total_timeout(self, total_timeout: Option<Duration>) -> (r: Self)
        ensures
            r@ == (BuilderView { total_timeout: Some(opt_nanos(total_timeout)), ..self@ }),
    {
        let mut b = self;
        b.total_timeout = Some(total_timeout);
        b
    }

    /// Limit how many attempts this client and its clones send at once. Default: no limit.
    pub fn max_concurrent_requests(self, max: usize) -> (r: Self)
        ensures
            r@ == (BuilderView { max_concurrent_requests: Some(max), ..self@ }),
    {
        let mut b = self;
        b.max_concurrent_requests = Some(max);
        b
    }

    /// The backend chosen in code, if any.
    pub fn backend_setting(&self) -> (r: Option<Backend>)
        ensures
            r == self@.backend,
    {
        self.backend
    }

    /// The credentials set in code, if any.
    pub fn credentials_setting(&self) -> (r: &Option<Credentials>)
        ensures
            credentials_opt_view(*r) == self@.credentials,
    {
        &self.credentials
    }

    /// The API root set in code, if any.
    pub fn base_url_setting(&self) -> (r: &Option<String>)
        ensures
            opt_text(*r) == self@.base_url,
    {
        &self.base_url
    }

    /// Whether plain http is accepted on any host.
    pub fn allow_insecure_http_setting(&self) -> (r: bool)
        ensures
            r == self@.allow_insecure_http,
    {
        self.allow_insecure_http
    }

    /// Whether bodies are logged.
    pub fn log_bodies_setting(&self) -> (r: bool)
        ensures
            r == self@.log_bodies,
    {
        self.log_bodies
    }

    /// The default model set in code, if any.
    pub fn default_model_setting(&self) -> (r: &Option<String>)
        ensures
            opt_text(*r) == self@.default_model,
    {
        &self.default_model
    }

    /// The timeout per attempt set in code, if any.
    pub fn timeout_setting(&self) -> (r: Option<Duration>)
        ensures
            opt_nanos(r) == self@.timeout,
    {
        self.timeout
    }

    /// The bound on a whole call set in code, if any; `Some(None)` removes the bound.
    pub fn total_timeout_setting(&self) -> (r: Option<Option<Duration>>)
        ensures
            match r {
                Some(t) => self@.total_timeout == Some(opt_nanos(t)),
                None => self@.total_timeout is None,
            },
    {
        self.total_timeout
    }

    /// The concurrency limit set in code, if any.
    pub fn max_concurrent_requests_setting(&self) -> (r: Option<usize>)
        ensures
            r == self@.max_concurrent_requests,
    {
        self.max_concurrent_requests
    }

    /// The headers sent with every request.
    pub fn default_headers_setting(&self) -> (r: &HeaderMap)
        ensures
            header_entries(*r) == self@.default_headers,
    {
        &self.default_headers
    }

    /// The number of distinct header names set so far.
    pub fn default_header_names(&self) -> (r: usize)
        ensures
            r == self@.default_headers.dom().len(),
    {
        header_names_len(&self.default_headers)
    }

    /// Add a header sent with every request, replacing earlier values for that name.
    /// Per-call headers take precedence.
    pub fn default_header(self, name: HeaderName, value: HeaderValue) -> (r: Self)
        requires
            self@.default_headers.dom().len() <= header_names_limit(),
        ensures
            r@ == (BuilderView {
                default_headers: self@.default_headers.insert(
                    header_name_text(name),
                    seq![header_value_bytes(value)],
                ),
                ..self@
            }),
    {
        let mut b = self;
        insert_header(&mut b.default_headers, name, value);
        b
    }

    /// Add headers sent with every request, replacing earlier values for the same names.
    pub fn default_headers(self, headers: HeaderMap) -> (r: Self)
        requires
            self@.default_headers.dom().union(header_entries(headers).dom()).len()
                <= header_names_limit(),
        ensures
            r@ == (BuilderView {
                default_headers: self@.default_headers.union_prefer_right(header_entries(headers)),
                ..self@
            }),
    {
        let mut b = self;
        extend_headers(&mut b.default_headers, headers);
        b
    }
}


/// Settles the credentials: those set in code, else an API key from the environment; an API
/// key must be one that can be sent.
fn settle_credentials(
    code: Option<Credentials>,
    backend: Backend,
    env_api_key: Option<String>,
    Ghost(b): Ghost<BuilderView>,
) -> (r: Result<Credentials, Error>)
    requires
        backend == chosen_backend(b),
        b.credentials == credentials_opt_view(code),
    ensures
        match credentials_problem(b, opt_text(env_api_key)) {
            Some(e) => r matches Err(f) && f@ == e,
            None => r matches Ok(c) && chosen_credentials(b, opt_text(env_api_key)) == Some(c@),
        },
{
    proof {
        reveal_strlit(
            "No credentials were provided. Call `ClientBuilder::api_key` or `ClientBuilder::credential_provider`, or set the ",
        );
        reveal_strlit(" environment variable.");
        reveal_strlit("The API key ");
        reveal_strlit(".");
    }
    let credentials = match code {
        Some(c) => c,
        None => match env_api_key {
            Some(k) => Credentials::ApiKey(ApiKey::new(k)),
            None => {
                let mut m = String::from_str(
                    "No credentials were provided. Call `ClientBuilder::api_key` or `ClientBuilder::credential_provider`, or set the ",
                );
                m.append(backend.env_api_key());
                m.append(" environment variable.");
                return Err(Error::Config(m));
            },
        },
    };
    if let Credentials::ApiKey(key) = &credentials {
        match bearer_header(key) {
            Ok(_) => {},
            Err(problem) => {
                let mut m = String::from_str("The API key ");
                m.append(problem);
                m.append(".");
                return Err(Error::Config(m));
            },
        }
    }
    Ok(credentials)
}

/// Settles the API root: from code, else the environment, else the backend's default, without
/// surrounding whitespace and trailing slashes; it must be one that may carry credentials.
fn settle_base_url(
    code: Option<String>,
    env_base_url: Option<String>,
    backend: Backend,
    allow_insecure_http: bool,
    Ghost(b): Ghost<BuilderView>,
) -> (r: Result<String, Error>)
    requires
        backend == chosen_backend(b),
        b.base_url == opt_text(code),
        b.allow_insecure_http == allow_insecure_http,
    ensures
        match base_url_problem(chosen_base_url(b, opt_text(env_base_url)), allow_insecure_http) {
            Some(e) => r matches Err(f) && f@ == e,
            None => r matches Ok(u) && u@ == chosen_base_url(b, opt_text(env_base_url)),
        },
{
    let raw: String = match code {
        Some(u) => u,
        None => match env_base_url {
            Some(u) => u,
            None => backend.default_base_url().to_owned(),
        },
    };
    let base_url = trim_end_matches(trim(raw.as_str()), '/').to_owned();
    match validate_base_url(base_url.as_str(), allow_insecure_http) {
        Ok(()) => Ok(base_url),
        Err(e) => Err(e),
    }
}

/// Settles the default model: from code, else the environment, else the backend's default.
fn settle_model(
    code: Option<String>,
    env_default_model: Option<String>,
    backend: Backend,
    Ghost(b): Ghost<BuilderView>,
) -> (r: String)
    requires
        backend == chosen_backend(b),
        b.default_model == opt_text(code),
    ensures
        r@ == chosen_model(b, opt_text(env_default_model)),
{
    match code {
        Some(m) => m,
        None => match env_default_model {
            Some(m) => m,
            None => backend.default_model().to_owned(),
        },
    }
}

impl ClientBuilder {
    /// Checks the retry outcome and the limits, then puts the client together from the
    /// settled credentials, API root and model.
    fn finish_settled(
        self,
        backend: Backend,
        credentials: Credentials,
        base_url: String,
        default_model: String,
        retry: Result<(), Error>,
        has_http_client: bool,
        Ghost(b): Ghost<BuilderView>,
        Ghost(ek): Ghost<Option<Seq<char>>>,
        Ghost(eu): Ghost<Option<Seq<char>>>,
        Ghost(em): Ghost<Option<Seq<char>>>,
    ) -> (r: Result<Client, Error>)
        requires
            self@ == (BuilderView { credentials: None, base_url: None, default_model: None, ..b }),
            backend == chosen_backend(b),
            credentials_problem(b, ek) is None,
            chosen_credentials(b, ek) == Some(credentials@),
            base_url@ == chosen_base_url(b, eu),
            base_url_problem(base_url@, b.allow_insecure_http) is None,
            default_model@ == chosen_model(b, em),
        ensures
            outcome_matches(resolve(b, ek, eu, em, outcome_view(retry), has_http_client), r),
    {
        match retry {
            Ok(()) => {},
            Err(e) => return Err(e),
        }
        let timeout = match self.timeout {
            Some(t) => t,
            None => default_timeout(),
        };
        assert(duration_nanos(timeout) == chosen_timeout(b));
        let timeout = match validate_timeout(timeout) {
            Ok(t) => t,
            Err(e) => return Err(e),
        };
        let total_timeout = match self.total_timeout {
            Some(t) => t,
            None => Some(default_total_timeout()),
        };
        assert(opt_nanos(total_timeout) == chosen_total_timeout(b));
        if let Some(total) = total_timeout {
            if nanos(total) == 0 {
                return Err(
                    Error::Config(
                        String::from_str("`total_timeout` must be a positive duration, got 0."),
                    ),
                );
            }
        }
        if let Some(max) = self.max_concurrent_requests {
            let limit = max_permits();
            if max == 0 || max > limit {
                return Err(Error::Config(concurrency_error(limit, max)));
            }
        }
        if !has_http_client && !TLS_BACKEND && starts_with(base_url.as_str(), "https:") {
            return Err(
                Error::Config(
                    String::from_str(
                        "kunobi-jev was built without a TLS backend, so it cannot reach an https `base_url`. Enable the `rustls` or `native-tls` feature, or pass a client through `ClientBuilder::http_client`.",
                    ),
                ),
            );
        }
        Ok(
            Client::assemble(
                backend,
                credentials,
                base_url,
                self.log_bodies,
                default_model,
                timeout,
                total_timeout,
                self.max_concurrent_requests,
                self.default_headers,
            ),
        )
    }

    /// Build the client from the values the environment gave for the backend's variables
    /// (`None` for unset or blank ones), the outcome of checking the retry policy, and whether a
    /// preconfigured HTTP client will be used.
    ///
    /// Fails when credentials are missing or configuration is invalid.
    pub fn build_from(
        self,
        env_api_key: Option<String>,
        env_base_url: Option<String>,
        env_default_model: Option<String>,
        retry: Result<(), Error>,
        has_http_client: bool,
    ) -> (r: Result<Client, Error>)
        ensures
            outcome_matches(
                resolve(
                    self@,
                    opt_text(env_api_key),
                    opt_text(env_base_url),
                    opt_text(env_default_model),
                    outcome_view(retry),
                    has_http_client,
                ),
                r,
            ),
    {
        let ghost b = self@;
        let ghost ek = opt_text(env_api_key);
        let ghost eu = opt_text(env_base_url);
        let ghost em = opt_text(env_default_model);
        let backend = match self.backend {
            Some(x) => x,
            None => Backend::TypeSafe,
        };
        let mut rest = self;
        let credentials = match settle_credentials(
            rest.credentials.take(),
            backend,
            env_api_key,
            Ghost(b),
        ) {
            Ok(c) => c,
            Err(e) => return Err(e),
        };
        let base_url = match settle_base_url(
            rest.base_url.take(),
            env_base_url,
            backend,
            rest.allow_insecure_http,
            Ghost(b),
        ) {
            Ok(u) => u,
            Err(e) => return Err(e),
        };
        let default_model = settle_model(
            rest.default_model.take(),
            env_default_model,
            backend,
            Ghost(b),
        );
        proof {
            assert(rest@ == (BuilderView {
                credentials: None,
                base_url: None,
                default_model: None,
                ..b
            }));
        }
        rest.finish_settled(
            backend,
            credentials,
            base_url,
            default_model,
            retry,
            has_http_client,
            Ghost(b),
            Ghost(ek),
            Ghost(eu),
            Ghost(em),
        )
    }
}

impl ClientBuilder {
    /// Build the client, reading the backend's variables through `env` only where they
    /// matter: the API key when no credentials were set in code; the API root when none was
    /// set and the credentials are in order; the default model when none was set and the
    /// credentials and the API root are in order.
    pub fn build_with_env<F: Fn(&str) -> Option<String>>(
        self,
        env: F,
        retry: Result<(), Error>,
        has_http_client: bool,
    ) -> (r: Result<Client, Error>)
        requires
            forall|k: &str| #[trigger] env.requires((k,)),
        ensures
            exists|ek: Option<String>, eu: Option<String>, em: Option<String>|
                #![trigger resolve(
                    self@,
                    opt_text(ek),
                    opt_text(eu),
                    opt_text(em),
                    outcome_view(retry),
                    has_http_client,
                )]
                {
                    &&& env_answer(
                        env,
                        self@.credentials is None,
                        chosen_backend(self@).spec_env_api_key(),
                        ek,
                    )
                    &&& env_answer(
                        env,
                        self@.base_url is None && credentials_problem(self@, opt_text(ek)) is None,
                        chosen_backend(self@).spec_env_base_url(),
                        eu,
                    )
                    &&& env_answer(
                        env,
                        self@.default_model is None
                            && credentials_problem(self@, opt_text(ek)) is None
                            && base_url_problem(
                            chosen_base_url(self@, opt_text(eu)),
                            self@.allow_insecure_http,
                        ) is None,
                        chosen_backend(self@).spec_env_default_model(),
                        em,
                    )
                    &&& outcome_matches(
                        resolve(
                            self@,
                            opt_text(ek),
                            opt_text(eu),
                            opt_text(em),
                            outcome_view(retry),
                            has_http_client,
                        ),
                        r,
                    )
                },
    {
        let ghost b = self@;
        let ghost rv = outcome_view(retry);
        let backend = match self.backend {
            Some(x) => x,
            None => Backend::TypeSafe,
        };
        let mut rest = self;
        let ek = if rest.credentials.is_none() {
            let v = env(backend.env_api_key());
            v
        } else {
            None
        };
        let ghost gk = ek;
        let credentials = match settle_credentials(rest.credentials.take(), backend, ek, Ghost(b)) {
            Ok(c) => c,
            Err(e) => {
                assert(outcome_matches(
                    resolve(b, opt_text(gk), None, None, rv, has_http_client),
                    Err::<Client, Error>(e),
                ));
                return Err(e);
            },
        };
        let eu = if rest.base_url.is_none() {
            env(backend.env_base_url())
        } else {
            None
        };
        let ghost gu = eu;
        let base_url = match settle_base_url(
            rest.base_url.take(),
            eu,
            backend,
            rest.allow_insecure_http,
            Ghost(b),
        ) {
            Ok(u) => u,
            Err(e) => {
                assert(outcome_matches(
                    resolve(b, opt_text(gk), opt_text(gu), None, rv, has_http_client),
                    Err::<Client, Error>(e),
                ));
                return Err(e);
            },
        };
        let em = if rest.default_model.is_none() {
            env(backend.env_default_model())
        } else {
            None
        };
        let ghost gm = em;
        let default_model = settle_model(rest.default_model.take(), em, backend, Ghost(b));
        let r = rest.finish_settled(
            backend,
            credentials,
            base_url,
            default_model,
            retry,
            has_http_client,
            Ghost(b),
            Ghost(opt_text(gk)),
            Ghost(opt_text(gu)),
            Ghost(opt_text(gm)),
        );
        assert(outcome_matches(
            resolve(b, opt_text(gk), opt_text(gu), opt_text(gm), rv, has_http_client),
            r,
        ));
        r
    }
}

/// The message for a concurrency limit out of range.
fn concurrency_error(limit: usize, max: usize) -> (r: String)
    requires
        limit == spec_max_permits(),
    ensures
        r@ == concurrency_message(max),
{
    let mut m = String::from_str("`max_concurrent_requests` must be between 1 and ");
    m.append(decimal_text(limit).as_str());
    m.append(", got ");
    m.append(decimal_text(max).as_str());
    m.append(".");
    m
}

/// Whether a host may receive credentials over plain http: `localhost` in any ASCII case, or
/// a loopback IP address, with or without brackets.
pub fn is_loopback(host: &str) -> (r: bool)
    ensures
        r == host_is_loopback(host@),
{
    proof {
        reveal_strlit("localhost");
    }
    if equal_ignoring_ascii_case(host, "localhost") {
        return true;
    }
    let inner = trim_end_matches(trim_start_matches(host, '['), ']');
    match parse_ip(inner) {
        Some(ip) => ip.is_loopback(),
        None => false,
    }
}

/// Judges a `base_url` from what the URL parser made of it: https is accepted; plain http only
/// for loopback hosts or when explicitly allowed.
pub fn check_base_url(base_url: &str, parts: Option<UrlParts>, allow_insecure_http: bool) -> (r:
    Result<(), Error>)
    ensures
        match base_url_verdict(
            base_url@,
            match parts {
                Some(p) => Some(url_parts_view(p)),
                None => None,
            },
            allow_insecure_http,
        ) {
            None => r is Ok,
            Some(e) => r matches Err(f) && f@ == e,
        },
{
    proof {
        reveal_strlit("https");
        reveal_strlit("http");
        reveal_strlit("");
    }
    match parts {
        None => {
            let m = not_https(base_url);
            Err(Error::Config(m))
        },
        Some(p) => {
            if same_text(p.scheme.as_str(), "https") {
                Ok(())
            } else if same_text(p.scheme.as_str(), "http") {
                if allow_insecure_http {
                    return Ok(());
                }
                let host: &str = match &p.host {
                    Some(h) => h.as_str(),
                    None => "",
                };
                assert(""@ =~= Seq::<char>::empty());
                if is_loopback(host) {
                    Ok(())
                } else {
                    let mut m = String::from_str("`base_url` \"");
                    m.append(base_url);
                    m.append(
                        "\" uses plain http, which would send credentials unencrypted. Use https, a loopback host, or `ClientBuilder::allow_insecure_http(true)`.",
                    );
                    Err(Error::Config(m))
                }
            } else {
                Err(Error::Config(not_https(base_url)))
            }
        },
    }
}

/// The message for a `base_url` that is not an https URL.
fn not_https(base_url: &str) -> (r: String)
    ensures
        r@ == not_https_message(base_url@),
{
    let mut m = String::from_str("`base_url` must be an https URL, got \"");
    m.append(base_url);
    m.append("\".");
    m
}

/// Require https, allowing plain http only for loopback hosts or when explicitly allowed.
pub fn validate_base_url(base_url: &str, allow_insecure_http: bool) -> (r: Result<(), Error>)
    ensures
        match base_url_problem(base_url@, allow_insecure_http) {
            None => r is Ok,
            Some(e) => r matches Err(f) && f@ == e,
        },
{
    let parts = parse_url(base_url);
    check_base_url(base_url, parts, allow_insecure_http)
}

/// A timeout, unless it is zero.
pub fn validate_timeout(timeout: Duration) -> (r: Result<Duration, Error>)
    ensures
        duration_nanos(timeout) == 0 ==> (r matches Err(e) && e@ == ErrorView::Config(
            timeout_message(),
        )),
        duration_nanos(timeout) != 0 ==> r == Ok::<Duration, Error>(timeout),
{
    if nanos(timeout) == 0 {
        return Err(
            Error::Config(String::from_str("`timeout` must be a positive duration, got 0.")),
        );
    }
    Ok(timeout)
}

} // verus!
