//! A prepared API call: what to send, where, and with which client.

use vstd::prelude::*;

use super::Client;
use crate::error::Error;

verus! {

/// The HTTP methods the API uses.
#[derive(Debug, Clone, Copy, PartialEq, Eq, Structural)]
pub enum Method {
    /// `GET`.
    Get,
    /// `POST`.
    Post,
}

/// How the body of a successful response becomes the call's result.
#[derive(Debug, Clone, Copy, PartialEq, Eq, Structural)]
pub enum Decoder {
    /// The whole body, parsed as JSON, is the result.
    Json,
    /// The body is an object `{ "models": [...] }`; the list it holds is the result.
    ModelList,
}

/// A call ready to be sent: the client, the method, the path below the API root, the JSON
/// body or the error that stops the call before anything is sent, and how a successful
/// response is decoded.
pub struct Call {
    client: Client,
    method: Method,
    path: &'static str,
    body: Result<Option<Vec<u8>>, Error>,
    decoder: Decoder,
}

impl Call {
    /// A call with these parts.
    pub fn new(
        client: Client,
        method: Method,
        path: &'static str,
        body: Result<Option<Vec<u8>>, Error>,
        decoder: Decoder,
    ) -> (r: Call)
        ensures
            r.client() == client,
            r.method() == method,
            r.path() == path,
            r.body() == body,
            r.decoder() == decoder,
    {
        Call { client, method, path, body, decoder }
    }

    /// The client that sends the call.
    pub closed spec fn client(&self) -> Client {
        self.client
    }

    /// The HTTP method.
    pub closed spec fn method(&self) -> Method {
        self.method
    }

    /// The path below the API root.
    pub closed spec fn path(&self) -> &'static str {
        self.path
    }

    /// The body, or the error that stops the call.
    pub closed spec fn body(&self) -> Result<Option<Vec<u8>>, Error> {
        self.body
    }

    /// How a successful response is decoded.
    pub closed spec fn decoder(&self) -> Decoder {
        self.decoder
    }

    /// The client that sends the call.
    pub fn client_ref(&self) -> (r: &Client)
        ensures
            *r == self.client(),
    {
        &self.client
    }

    /// The HTTP method.
    pub fn method_of(&self) -> (r: Method)
        ensures
            r == self.method(),
    {
        self.method
    }

    /// The path below the API root.
    pub fn path_of(&self) -> (r: &'static str)
        ensures
            r == self.path(),
    {
        self.path
    }

    /// The body, or the error that stops the call.
    pub fn body_ref(&self) -> (r: &Result<Option<Vec<u8>>, Error>)
        ensures
            *r == self.body(),
    {
        &self.body
    }

    /// How a successful response is decoded.
    pub fn decoder_of(&self) -> (r: Decoder)
        ensures
            r == self.decoder(),
    {
        self.decoder
    }

    /// Takes the call apart, for the transport that sends it.
    pub fn into_parts(self) -> (r: (Client, Method, &'static str, Result<Option<Vec<u8>>, Error>, Decoder))
        ensures
            r == (self.client(), self.method(), self.path(), self.body(), self.decoder()),
    {
        (self.client, self.method, self.path, self.body, self.decoder)
    }
}

} // verus!
