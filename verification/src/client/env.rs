//! Names of the environment variables a client reads, and how their values are taken.

use vstd::prelude::*;

use crate::text::{blank, is_blank};

verus! {

/// Environment variable holding the TypeSafe API key.
pub const ENV_API_KEY: &'static str = "TYPESAFE_API_KEY";

/// Environment variable holding the TypeSafe API root.
pub const ENV_BASE_URL: &'static str = "TYPESAFE_BASE_URL";

/// Environment variable holding the TypeSafe default model.
pub const ENV_DEFAULT_MODEL: &'static str = "TYPESAFE_DEFAULT_MODEL";

/// Environment variable holding the OpenRouter API key.
pub const ENV_OPENROUTER_API_KEY: &'static str = "OPENROUTER_API_KEY";

/// Environment variable holding the OpenRouter API root.
pub const ENV_OPENROUTER_BASE_URL: &'static str = "OPENROUTER_BASE_URL";

/// Environment variable holding the OpenRouter default model.
pub const ENV_OPENROUTER_DEFAULT_MODEL: &'static str = "OPENROUTER_DEFAULT_MODEL";

/// An environment value as a client takes it: blank values count as unset.
pub open spec fn spec_non_blank(value: Option<Seq<char>>) -> Option<Seq<char>> {
    match value {
        Some(v) => if is_blank(v) {
            None
        } else {
            Some(v)
        },
        None => None,
    }
}

/// Drops a blank environment value: one that is empty or holds only whitespace.
pub fn non_blank(value: Option<String>) -> (r: Option<String>)
    ensures
        r matches Some(v) ==> value matches Some(w) && v@ == w@,
        opt_text(r) == spec_non_blank(opt_text(value)),
{
    match value {
        Some(v) => if blank(v.as_str()) {
            None
        } else {
            Some(v)
        },
        None => None,
    }
}

/// The text of an optional string.
pub open spec fn opt_text(value: Option<String>) -> Option<Seq<char>> {
    match value {
        Some(v) => Some(v@),
        None => None,
    }
}

} // verus!
