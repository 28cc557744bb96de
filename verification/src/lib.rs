//! Client configuration for the TypeSafe System One API and for Jev on OpenRouter.
//!
//! A client is built from settings given in code, then the environment, then defaults.
//! Building refuses what would be unsafe or invalid: missing or unsendable credentials, an
//! API root that is not https (plain http only for loopback hosts, or when explicitly
//! allowed), zero timeouts and out-of-range concurrency limits. The built client answers
//! with the calls to send: System One requests and the Models API.

pub mod client;
pub mod credentials;
pub mod error;
pub mod retry;
pub mod text;

pub use client::{
    Backend, Call, Client, ClientBuilder, Decoder, Method, Models, DEFAULT_BASE_URL, DEFAULT_MODEL,
    ENV_API_KEY, ENV_BASE_URL, ENV_DEFAULT_MODEL, ENV_OPENROUTER_API_KEY, ENV_OPENROUTER_BASE_URL,
    ENV_OPENROUTER_DEFAULT_MODEL, OPENROUTER_DEFAULT_BASE_URL, OPENROUTER_DEFAULT_MODEL,
};
pub use credentials::{bearer_header, bearer_value, ApiKey, Credentials};
pub use error::Error;
pub use retry::{DEFAULT_TIMEOUT_SECS, DEFAULT_TOTAL_TIMEOUT_SECS};
