//! The HTTP side of the sink: the request it sends, and the one call into
//! reqwest that sends it.

use vstd::prelude::*;

verus! {

/// The media type attached to every document that the sink sends.
pub const CONTENT_TYPE: &'static str = "application/json";

#[verifier::external_type_specification]
#[verifier::external_body]
pub struct ExClient(reqwest::blocking::Client);

#[verifier::external_type_specification]
#[verifier::external_body]
pub struct ExError(reqwest::Error);

/// Relies on `reqwest::blocking::Client::new` for one reusable HTTP client.
/// reqwest panics there only where its TLS backend or the system's resolver
/// configuration cannot be loaded, or when called inside an async runtime.
pub assume_specification[ reqwest::blocking::Client::new ]() -> reqwest::blocking::Client;

/// One POST as the sink hands it to the transport, in plain values.
pub struct Delivery {
    pub url: Seq<char>,
    pub user: Seq<char>,
    pub password: Seq<char>,
    pub content_type: Seq<char>,
    pub body: Seq<char>,
}

/// A POST that is ready to be sent: target, basic-auth credentials, media
/// type and the document itself.
pub struct PostRequest {
    pub url: String,
    pub user: String,
    pub password: String,
    pub content_type: &'static str,
    pub body: String,
}

impl View for PostRequest {
    type V = Delivery;

    open spec fn view(&self) -> Delivery {
        Delivery {
            url: self.url@,
            user: self.user@,
            password: self.password@,
            content_type: self.content_type@,
            body: self.body@,
        }
    }
}

/// One reusable HTTP client, with the record of every POST handed to it,
/// oldest first. Only `send_post` extends that record.
pub struct Transport {
    client: reqwest::blocking::Client,
    sent: Ghost<Seq<Delivery>>,
}

impl Transport {
    /// Every POST this transport has been asked to send, oldest first.
    pub closed spec fn sent(&self) -> Seq<Delivery> {
        self.sent@
    }

    /// A transport with a fresh client that has sent nothing.
    pub fn new() -> (t: Transport)
        ensures
            t.sent() == Seq::<Delivery>::empty(),
    {
        Transport { client: reqwest::blocking::Client::new(), sent: Ghost(Seq::empty()) }
    }

    /// Relies on reqwest's blocking `RequestBuilder`: `post(url)` with
    /// `basic_auth(user, Some(password))`, the `Content-Type` header and the
    /// body, then `send`, which issues that one request and fails only where
    /// the transport does (connection, timeout, redirect limit). Any HTTP
    /// status is a response, and the response is dropped unread. Nothing is
    /// promised of the outcome. The media type goes through
    /// `HeaderValue::from_static`, which panics on bytes that are not visible
    /// ASCII or tab, so only `CONTENT_TYPE` is taken.
    #[verifier::external_body]
    pub fn send_post(&mut self, req: PostRequest) -> (r: Result<(), reqwest::Error>)
        requires
            req@.content_type == CONTENT_TYPE@,
        ensures
            final(self).sent() == old(self).sent().push(req@),
    {
        self.client.post(req.url).basic_auth(req.user, Some(req.password)).header(
            reqwest::header::CONTENT_TYPE,
            reqwest::header::HeaderValue::from_static(req.content_type),
        ).body(req.body).send().map(|_response| ())
    }
}

} // verus!
