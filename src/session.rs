//! Resolving the caller's session from the provider, once per request.
use crate::client::{
    built_request, OryClient, PreparedRequest, RequestView, WhoAmIRequest,
};
use vstd::prelude::*;

verus! {

/// The identity behind a session.
#[derive(Debug)]
pub struct Identity {
    pub id: String,
    pub traits: serde_json::Map<String, serde_json::Value>,
}

/// A session as the provider reports it.
#[derive(Debug)]
pub struct Session {
    pub active: Option<bool>,
    pub authenticated_at: Option<String>,
    pub authenticator_assurance_level: Option<String>,
    pub expires_at: String,
    pub id: String,
    pub identity: Option<Identity>,
}

/// The status of a successful lookup.
pub const OK: u16 = 200;

/// How a request's session was resolved.
#[derive(Debug)]
pub enum SessionResolution<E> {
    /// No credential, or the provider did not accept it.
    NoSession,
    /// The session the provider returned.
    Active(Session),
    /// The call or the decoding of its reply failed.
    Failed(E),
    /// The provider answered with a server error status.
    ProviderFailed(u16),
}

/// The first step of the guard.
pub enum SessionStart {
    /// No credential: resolved without a call.
    NoSession,
    /// Ask the provider who the credential belongs to.
    Fetch(PreparedRequest<WhoAmIRequest>),
}

/// The step after the provider's reply status is known.
pub enum SessionStep<E> {
    /// Decode the reply's body as the session.
    DecodeBody,
    /// Resolved.
    Done(SessionResolution<E>),
}

/// A server error status.
pub open spec fn is_server_error(status: u16) -> bool {
    500 <= status && status <= 599
}

/// Starts resolving a session from the request's `Cookie` header, if any.
pub fn start_session_lookup(client: &OryClient, cookie_header: Option<Vec<u8>>) -> (r: SessionStart)
    ensures
        cookie_header is None ==> r is NoSession,
        cookie_header matches Some(c) ==> (r matches SessionStart::Fetch(p) && p@ == (RequestView {
            cookie: Some(c@),
            ..built_request(client, WhoAmIRequest)
        })),
{
    match cookie_header {
        None => SessionStart::NoSession,
        Some(c) => SessionStart::Fetch(client.new_request(WhoAmIRequest).cookie(c).prepare()),
    }
}

/// Goes on from the reply to the lookup: on success decode the body, on a
/// server error fail, on any other status there is no session.
pub fn on_whoami_reply<E>(reply: Result<u16, E>) -> (r: SessionStep<E>)
    ensures
        reply matches Err(e) ==> (r matches SessionStep::Done(SessionResolution::Failed(f)) && f
            == e),
        reply matches Ok(s) ==> (s == OK ==> r is DecodeBody),
        reply matches Ok(s) ==> (is_server_error(s) ==> (r matches SessionStep::Done(
            SessionResolution::ProviderFailed(t),
        ) && t == s)),
        reply matches Ok(s) ==> (s != OK && !is_server_error(s) ==> (r matches SessionStep::Done(
            SessionResolution::NoSession,
        ))),
{
    match reply {
        Err(e) => SessionStep::Done(SessionResolution::Failed(e)),
        Ok(s) => {
            if s == OK {
                SessionStep::DecodeBody
            } else if 500 <= s && s <= 599 {
                SessionStep::Done(SessionResolution::ProviderFailed(s))
            } else {
                SessionStep::Done(SessionResolution::NoSession)
            }
        },
    }
}

/// Resolves the session from the decoded body of a successful reply.
pub fn on_whoami_body<E>(decoded: Result<Session, E>) -> (r: SessionResolution<E>)
    ensures
        decoded matches Ok(s) ==> (r matches SessionResolution::Active(t) && t == s),
        decoded matches Err(e) ==> (r matches SessionResolution::Failed(f) && f == e),
{
    match decoded {
        Ok(s) => SessionResolution::Active(s),
        Err(e) => SessionResolution::Failed(e),
    }
}

} // verus!
