//! Which API hosts Jev for this client.

use vstd::prelude::*;

use super::env::{
    ENV_API_KEY, ENV_BASE_URL, ENV_DEFAULT_MODEL, ENV_OPENROUTER_API_KEY, ENV_OPENROUTER_BASE_URL,
    ENV_OPENROUTER_DEFAULT_MODEL,
};
use super::{DEFAULT_BASE_URL, DEFAULT_MODEL, OPENROUTER_DEFAULT_BASE_URL, OPENROUTER_DEFAULT_MODEL};

verus! {

/// Where `Client::system_one` sends requests.
#[derive(Debug, Clone, Copy, PartialEq, Eq, Structural)]
#[non_exhaustive]
pub enum Backend {
    /// The TypeSafe System One API.
    TypeSafe,
    /// OpenRouter Decisions API for Jev.
    OpenRouter,
}

impl Backend {
    /// Name of the environment variable that holds this backend's API key.
    pub open spec fn spec_env_api_key(self) -> Seq<char> {
        match self {
            Backend::TypeSafe => ENV_API_KEY@,
            Backend::OpenRouter => ENV_OPENROUTER_API_KEY@,
        }
    }

    /// Name of the environment variable that holds this backend's API root.
    pub open spec fn spec_env_base_url(self) -> Seq<char> {
        match self {
            Backend::TypeSafe => ENV_BASE_URL@,
            Backend::OpenRouter => ENV_OPENROUTER_BASE_URL@,
        }
    }

    /// Name of the environment variable that holds this backend's default model.
    pub open spec fn spec_env_default_model(self) -> Seq<char> {
        match self {
            Backend::TypeSafe => ENV_DEFAULT_MODEL@,
            Backend::OpenRouter => ENV_OPENROUTER_DEFAULT_MODEL@,
        }
    }

    /// API root used when neither code nor the environment sets one.
    pub open spec fn spec_default_base_url(self) -> Seq<char> {
        match self {
            Backend::TypeSafe => DEFAULT_BASE_URL@,
            Backend::OpenRouter => OPENROUTER_DEFAULT_BASE_URL@,
        }
    }

    /// Model used when neither code nor the environment sets one.
    pub open spec fn spec_default_model(self) -> Seq<char> {
        match self {
            Backend::TypeSafe => DEFAULT_MODEL@,
            Backend::OpenRouter => OPENROUTER_DEFAULT_MODEL@,
        }
    }

    /// Path of the endpoint that answers System One requests.
    pub open spec fn spec_system_one_path(self) -> Seq<char> {
        match self {
            Backend::TypeSafe => "/v1/systemone"@,
            Backend::OpenRouter => "/alpha/decisions"@,
        }
    }

    /// Name of the environment variable that holds this backend's API key.
    pub fn env_api_key(self) -> (r: &'static str)
        ensures
            r@ == self.spec_env_api_key(),
    {
        match self {
            Backend::TypeSafe => ENV_API_KEY,
            Backend::OpenRouter => ENV_OPENROUTER_API_KEY,
        }
    }

    /// Name of the environment variable that holds this backend's API root.
    pub fn env_base_url(self) -> (r: &'static str)
        ensures
            r@ == self.spec_env_base_url(),
    {
        match self {
            Backend::TypeSafe => ENV_BASE_URL,
            Backend::OpenRouter => ENV_OPENROUTER_BASE_URL,
        }
    }

    /// Name of the environment variable that holds this backend's default model.
    pub fn env_default_model(self) -> (r: &'static str)
        ensures
            r@ == self.spec_env_default_model(),
    {
        match self {
            Backend::TypeSafe => ENV_DEFAULT_MODEL,
            Backend::OpenRouter => ENV_OPENROUTER_DEFAULT_MODEL,
        }
    }

    /// API root used when neither code nor the environment sets one.
    pub fn default_base_url(self) -> (r: &'static str)
        ensures
            r@ == self.spec_default_base_url(),
    {
        match self {
            Backend::TypeSafe => DEFAULT_BASE_URL,
            Backend::OpenRouter => OPENROUTER_DEFAULT_BASE_URL,
        }
    }

    /// Model used when neither code nor the environment sets one.
    pub fn default_model(self) -> (r: &'static str)
        ensures
            r@ == self.spec_default_model(),
    {
        match self {
            Backend::TypeSafe => DEFAULT_MODEL,
            Backend::OpenRouter => OPENROUTER_DEFAULT_MODEL,
        }
    }

    /// Path of the endpoint that answers System One requests.
    pub fn system_one_path(self) -> (r: &'static str)
        ensures
            r@ == self.spec_system_one_path(),
    {
        match self {
            Backend::TypeSafe => "/v1/systemone",
            Backend::OpenRouter => "/alpha/decisions",
        }
    }

    /// Whether the Models API can be listed on this backend: only TypeSafe offers it.
    pub fn models_list_supported(self) -> (r: bool)
        ensures
            r == (self == Backend::TypeSafe),
    {
        matches!(self, Backend::TypeSafe)
    }
}

/// The backend a builder uses when `openrouter` was not called.
pub open spec fn spec_default_backend() -> Backend {
    Backend::TypeSafe
}

impl Default for Backend {
    /// TypeSafe is the default backend.
    fn default() -> (r: Backend)
        ensures
            r == spec_default_backend(),
    {
        Backend::TypeSafe
    }
}

} // verus!
