//! The API client.

pub mod address;
pub mod backend;
pub mod builder;
pub mod call;
pub mod env;
pub mod headers;
pub mod laws;
pub mod models;
pub mod settings;

pub use backend::Backend;
pub use builder::ClientBuilder;
pub use call::{Call, Decoder, Method};
pub use env::{
    ENV_API_KEY, ENV_BASE_URL, ENV_DEFAULT_MODEL, ENV_OPENROUTER_API_KEY, ENV_OPENROUTER_BASE_URL,
    ENV_OPENROUTER_DEFAULT_MODEL,
};
pub use models::Models;

use core::sync::atomic::AtomicU64;
use core::time::Duration;
use std::sync::Arc;

use reqwest::header::HeaderMap;
use tokio::sync::Semaphore;
use vstd::prelude::*;

use crate::credentials::{Credentials, CredentialsView};
use crate::error::Error;
use crate::retry::duration_nanos;
use headers::header_entries;

verus! {

/// Default API root.
pub const DEFAULT_BASE_URL: &'static str = "https://api.typesafe.ai";

/// Default model.
pub const DEFAULT_MODEL: &'static str = "jev-latest";

/// Default OpenRouter API root (without a trailing path segment for decisions).
pub const OPENROUTER_DEFAULT_BASE_URL: &'static str = "https://openrouter.ai/api";

/// Default OpenRouter model alias for the latest Jev release.
pub const OPENROUTER_DEFAULT_MODEL: &'static str = "~typesafe/jev-latest";

#[verifier::external_type_specification]
#[verifier::external_body]
pub struct ExSemaphore(Semaphore);

/// The number of permits a semaphore was created with.
pub uninterp spec fn initial_permits(s: Semaphore) -> nat;

/// Calls `tokio::sync::Semaphore::new`, which creates a semaphore with the given number of
/// permits and panics above `Semaphore::MAX_PERMITS` permits.
#[verifier::external_body]
pub fn new_semaphore(permits: usize) -> (r: Semaphore)
    requires
        permits <= spec_max_permits(),
    ensures
        initial_permits(r) == permits,
{
    Semaphore::new(permits)
}

/// `tokio::sync::Semaphore::MAX_PERMITS`, which tokio's source sets to `usize::MAX >> 3`.
pub open spec fn spec_max_permits() -> usize {
    (usize::MAX >> 3) as usize
}

/// Reads `tokio::sync::Semaphore::MAX_PERMITS`.
#[verifier::external_body]
pub fn max_permits() -> (r: usize)
    ensures
        r == spec_max_permits(),
{
    Semaphore::MAX_PERMITS
}

/// Client for the TypeSafe API.
///
/// Cloning is cheap and clones share one connection pool.
pub struct Client {
    inner: Arc<Inner>,
}

struct Inner {
    backend: Backend,
    credentials: Credentials,
    base_url: String,
    log_bodies: bool,
    default_model: String,
    timeout: Duration,
    total_timeout: Option<Duration>,
    /// Concurrency slots and the configured limit.
    limiter: Option<(Semaphore, usize)>,
    default_headers: HeaderMap,
    /// Numbers requests so concurrent calls, and the attempts within one, can be told apart in
    /// logs.
    request_count: AtomicU64,
}

impl Inner {
    /// The concurrency slots hold as many permits as the configured limit.
    #[verifier::type_invariant]
    spec fn slots_match_limit(self) -> bool {
        self.limiter matches Some((slots, max)) ==> initial_permits(slots) == max
    }
}

/// A client's settings as contracts speak of them; durations by their nanoseconds.
pub struct ClientView {
    /// Which API the client calls.
    pub backend: Backend,
    /// How the client authenticates.
    pub credentials: CredentialsView,
    /// API root without surrounding whitespace and trailing slashes.
    pub base_url: Seq<char>,
    /// Whether bodies are logged.
    pub log_bodies: bool,
    /// Model used when a request does not set one.
    pub default_model: Seq<char>,
    /// Timeout per attempt.
    pub timeout: nat,
    /// Upper bound for a whole call, if any.
    pub total_timeout: Option<nat>,
    /// The concurrency limit, if any.
    pub max_concurrent_requests: Option<usize>,
    /// Headers sent with every request.
    pub default_headers: Map<Seq<char>, Seq<Seq<u8>>>,
}

/// Calls `Arc::clone`, which gives another pointer to the same allocation.
#[verifier::external_body]
fn share(inner: &Arc<Inner>) -> (r: Arc<Inner>)
    ensures
        r == *inner,
{
    Arc::clone(inner)
}

impl View for Client {
    type V = ClientView;

    closed spec fn view(&self) -> ClientView {
        ClientView {
            backend: self.inner.backend,
            credentials: self.inner.credentials@,
            base_url: self.inner.base_url@,
            log_bodies: self.inner.log_bodies,
            default_model: self.inner.default_model@,
            timeout: duration_nanos(self.inner.timeout),
            total_timeout: match self.inner.total_timeout {
                Some(d) => Some(duration_nanos(d)),
                None => None,
            },
            max_concurrent_requests: match self.inner.limiter {
                Some((_, max)) => Some(max),
                None => None,
            },
            default_headers: header_entries(self.inner.default_headers),
        }
    }
}

impl Clone for Client {
    /// Another handle on the same client.
    fn clone(&self) -> (r: Self)
        ensures
            r@ == self@,
    {
        Client { inner: share(&self.inner) }
    }
}

impl Client {
    /// Puts a client together from settings that were checked.
    pub(crate) fn assemble(
        backend: Backend,
        credentials: Credentials,
        base_url: String,
        log_bodies: bool,
        default_model: String,
        timeout: Duration,
        total_timeout: Option<Duration>,
        max_concurrent_requests: Option<usize>,
        default_headers: HeaderMap,
    ) -> (r: Client)
        requires
            max_concurrent_requests matches Some(m) ==> m <= spec_max_permits(),
        ensures
            r@ == (ClientView {
                backend,
                credentials: credentials@,
                base_url: base_url@,
                log_bodies,
                default_model: default_model@,
                timeout: duration_nanos(timeout),
                total_timeout: match total_timeout {
                    Some(d) => Some(duration_nanos(d)),
                    None => None,
                },
                max_concurrent_requests,
                default_headers: header_entries(default_headers),
            }),
    {
        let limiter = match max_concurrent_requests {
            Some(max) => Some((new_semaphore(max), max)),
            None => None,
        };
        Client {
            inner: Arc::new(
                Inner {
                    backend,
                    credentials,
                    base_url,
                    log_bodies,
                    default_model,
                    timeout,
                    total_timeout,
                    limiter,
                    default_headers,
                    request_count: AtomicU64::new(0),
                },
            ),
        }
    }

    /// Which API this client calls.
    pub fn backend(&self) -> (r: Backend)
        ensures
            r == self@.backend,
    {
        self.inner.backend
    }

    /// A builder for a client. Values set in code take precedence over the environment.
    pub fn builder() -> (r: ClientBuilder)
        ensures
            r@ == builder::spec_default_builder(),
    {
        ClientBuilder::default()
    }

    /// API root without trailing slashes.
    pub fn base_url(&self) -> (r: &str)
        ensures
            r@ == self@.base_url,
    {
        self.inner.base_url.as_str()
    }

    /// Model used when a request does not set one.
    pub fn default_model(&self) -> (r: &str)
        ensures
            r@ == self@.default_model,
    {
        self.inner.default_model.as_str()
    }

    /// Whether request and response bodies are included in `debug` logs.
    pub fn log_bodies(&self) -> (r: bool)
        ensures
            r == self@.log_bodies,
    {
        self.inner.log_bodies
    }

    /// How this client authenticates.
    pub fn credentials(&self) -> (r: &Credentials)
        ensures
            r@ == self@.credentials,
    {
        &self.inner.credentials
    }

    /// Timeout per attempt for calls that do not override it.
    pub fn timeout(&self) -> (r: Duration)
        ensures
            duration_nanos(r) == self@.timeout,
    {
        self.inner.timeout
    }

    /// Upper bound for a whole call, for calls that do not override it.
    pub fn total_timeout(&self) -> (r: Option<Duration>)
        ensures
            match r {
                Some(d) => self@.total_timeout == Some(duration_nanos(d)),
                None => self@.total_timeout is None,
            },
    {
        self.inner.total_timeout
    }

    /// The concurrency limit shared by this client and its clones, if any.
    pub fn max_concurrent_requests(&self) -> (r: Option<usize>)
        ensures
            r == self@.max_concurrent_requests,
    {
        match &self.inner.limiter {
            Some((_, max)) => Some(*max),
            None => None,
        }
    }

    /// Headers sent with every request.
    pub fn default_headers(&self) -> (r: &HeaderMap)
        ensures
            header_entries(*r) == self@.default_headers,
    {
        &self.inner.default_headers
    }

    /// The model a request uses: the one it names, else this client's default model.
    pub fn request_model(&self, requested: Option<&str>) -> (r: String)
        ensures
            r@ == match requested {
                Some(m) => m@,
                None => self@.default_model,
            },
    {
        match requested {
            Some(m) => m.to_owned(),
            None => self.inner.default_model.clone(),
        }
    }

    /// Answer named questions about text or structured state: a `POST` of the serialized
    /// request to this backend's System One path, whose response is decoded as JSON whole.
    ///
    /// A request that could not be serialized keeps its error, which the call returns when it
    /// is awaited, before any request is sent.
    pub fn system_one(&self, body: Result<Vec<u8>, Error>) -> (r: Call)
        ensures
            r.client()@ == self@,
            r.method() == Method::Post,
            r.path()@ == self@.backend.spec_system_one_path(),
            r.decoder() == Decoder::Json,
            match body {
                Ok(b) => r.body() matches Ok(Some(c)) && c@ == b@,
                Err(e) => r.body() matches Err(f) && f@ == e@,
            },
    {
        let body = match body {
            Ok(b) => Ok(Some(b)),
            Err(e) => Err(e),
        };
        Call::new(self.clone(), Method::Post, self.inner.backend.system_one_path(), body, Decoder::Json)
    }

    /// The Models API resource.
    pub fn models(&self) -> (r: Models)
        ensures
            r.client()@ == self@,
    {
        Models::new(self.clone())
    }
}

} // verus!
