//! The Models API resource.

use vstd::prelude::*;
use vstd::string::*;

use super::call::{Call, Decoder, Method};
use super::Client;
use crate::error::{Error, ErrorView};

verus! {

/// Access to the Models API resource.
pub struct Models {
    client: Client,
}

/// Why listing models is refused on OpenRouter.
pub open spec fn models_unsupported_message() -> Seq<char> {
    "The Models API is only available with the TypeSafe backend; OpenRouter Jev uses the Decisions API and does not expose GET /v1/models."@
}

impl Models {
    /// The resource for this client.
    pub(crate) fn new(client: Client) -> (r: Self)
        ensures
            r.client() == client,
    {
        Self { client }
    }

    /// The client the resource calls with.
    pub closed spec fn client(&self) -> Client {
        self.client
    }

    /// List the models available to the account: a `GET` of `/v1/models` without a body,
    /// whose response is decoded as the list under `models`.
    ///
    /// Only supported on the TypeSafe backend. OpenRouter clients get a call that holds
    /// `Error::InvalidRequest`, returned when the call is awaited.
    pub fn list(&self) -> (r: Call)
        ensures
            r.client()@ == self.client()@,
            r.method() == Method::Get,
            r.path()@ == "/v1/models"@,
            r.decoder() == Decoder::ModelList,
            self.client()@.backend == super::Backend::TypeSafe ==> r.body() matches Ok(None),
            self.client()@.backend != super::Backend::TypeSafe ==> (r.body() matches Err(e)
                && e@ == ErrorView::InvalidRequest(models_unsupported_message())),
    {
        proof {
            reveal_strlit(
                "The Models API is only available with the TypeSafe backend; OpenRouter Jev uses the Decisions API and does not expose GET /v1/models.",
            );
        }
        let body = if self.client.backend().models_list_supported() {
            Ok(None)
        } else {
            Err(
                Error::InvalidRequest(
                    String::from_str(
                        "The Models API is only available with the TypeSafe backend; OpenRouter Jev uses the Decisions API and does not expose GET /v1/models.",
                    ),
                ),
            )
        };
        Call::new(self.client.clone(), Method::Get, "/v1/models", body, Decoder::ModelList)
    }
}

} // verus!
