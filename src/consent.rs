//! OAuth2 consent: the provider's consent request, the accept and reject
//! calls, and what the consent pages decide.
use crate::client::{
    built_request, one_param, GetOAuth2ConsentRequest, Hydra, Method, No, OryClient,
    OryRequestType, PreparedRequest, RequestView,
};
use crate::csrf::{Csrf, CsrfToken, HasCsrfToken};
use crate::json::{
    json_entries, object_entries, object_get, object_insert, object_new, object_value, JsonObject,
};
use crate::session::Session;
use vstd::prelude::*;

verus! {

/// Query of the consent page.
#[derive(Debug)]
pub struct GetConsentQuery {
    pub consent_challenge: Option<String>,
}

/// The consent form as submitted.
#[derive(Debug)]
pub struct ConsentSubmittedBody {
    pub csrf_token: CsrfToken,
    pub consent: bool,
}

impl HasCsrfToken for ConsentSubmittedBody {
    open spec fn csrf_token_view(&self) -> Seq<char> {
        self.csrf_token@
    }

    fn get_csrf_token(&self) -> (r: &CsrfToken) {
        &self.csrf_token
    }
}

/// Query of the consent form's submission.
#[derive(Debug)]
pub struct ConsentSubmittedQuery {
    pub consent_challenge: String,
}

/// The OAuth2 client asking for consent.
#[derive(Debug)]
pub struct OAuth2Client {
    pub client_id: Option<String>,
    pub client_name: Option<String>,
    pub client_uri: Option<String>,
    pub logo_uri: Option<String>,
    pub policy_uri: Option<String>,
    pub skip_consent: Option<bool>,
    pub skip_logout_consent: Option<bool>,
}

/// A consent request as the provider reports it.
#[derive(Debug)]
pub struct OAuth2ConsentRequest {
    pub acr: Option<String>,
    pub amr: Option<Vec<String>>,
    pub challenge: String,
    pub client: Option<OAuth2Client>,
    pub context: Option<serde_json::Value>,
    pub login_challenge: Option<String>,
    pub session_id: Option<String>,
    pub oidc_context: Option<serde_json::Value>,
    pub request_url: Option<String>,
    pub requested_access_token_audience: Option<Vec<String>>,
    pub requested_scope: Option<Vec<String>>,
    pub skip: Option<bool>,
    pub subject: Option<String>,
}

/// Where the provider sends the user next.
#[derive(Debug)]
pub struct OAuth2RedirectTo {
    pub redirect_to: String,
}

/// The body of an accept call.
#[derive(Debug)]
pub struct AcceptOAuth2ConsentRequestBody {
    pub context: Option<JsonObject>,
    pub grant_access_token_audience: Option<Vec<String>>,
    pub grant_scope: Option<Vec<String>>,
    pub handled_at: Option<String>,
    pub remember: Option<bool>,
    pub remember_for: Option<i64>,
    pub session: Option<JsonObject>,
}

/// Accepts a consent request.
#[derive(Debug)]
pub struct AcceptOAuth2ConsentRequest {
    pub consent_challenge: String,
    pub body: AcceptOAuth2ConsentRequestBody,
}

/// Builds an accept call.
#[derive(Debug)]
pub struct AcceptOAuth2ConsentRequestBuilder {
    consent_challenge: String,
    context: Option<JsonObject>,
    grant_access_token_audience: Option<Vec<String>>,
    grant_scope: Option<Vec<String>>,
    handled_at: Option<String>,
    remember: Option<bool>,
    remember_for: Option<i64>,
    session: Option<JsonObject>,
}

impl AcceptOAuth2ConsentRequest {
    /// A builder for accepting the request with this challenge, granting nothing yet.
    pub fn new(consent_challenge: String) -> (r: AcceptOAuth2ConsentRequestBuilder)
        ensures
            r@ == (AcceptOAuth2ConsentRequest {
                consent_challenge,
                body: empty_accept_body(),
            }),
    {
        AcceptOAuth2ConsentRequestBuilder {
            consent_challenge,
            context: None,
            grant_access_token_audience: None,
            grant_scope: None,
            handled_at: None,
            remember: None,
            remember_for: None,
            session: None,
        }
    }
}

/// An accept body with every field unset.
pub open spec fn empty_accept_body() -> AcceptOAuth2ConsentRequestBody {
    AcceptOAuth2ConsentRequestBody {
        context: None,
        grant_access_token_audience: None,
        grant_scope: None,
        handled_at: None,
        remember: None,
        remember_for: None,
        session: None,
    }
}

impl View for AcceptOAuth2ConsentRequestBuilder {
    type V = AcceptOAuth2ConsentRequest;

    /// The request the builder would build now.
    closed spec fn view(&self) -> AcceptOAuth2ConsentRequest {
        AcceptOAuth2ConsentRequest {
            consent_challenge: self.consent_challenge,
            body: AcceptOAuth2ConsentRequestBody {
                context: self.context,
                grant_access_token_audience: self.grant_access_token_audience,
                grant_scope: self.grant_scope,
                handled_at: self.handled_at,
                remember: self.remember,
                remember_for: self.remember_for,
                session: self.session,
            },
        }
    }
}

impl AcceptOAuth2ConsentRequestBuilder {
    pub fn consent_challenge(self, val: String) -> (r: Self)
        ensures
            r@ == (AcceptOAuth2ConsentRequest { consent_challenge: val, ..self@ }),
    {
        let mut s = self;
        s.consent_challenge = val;
        s
    }

    pub fn context(self, val: JsonObject) -> (r: Self)
        ensures
            r@ == (AcceptOAuth2ConsentRequest {
                body: AcceptOAuth2ConsentRequestBody { context: Some(val), ..self@.body },
                ..self@
            }),
    {
        let mut s = self;
        s.context = Some(val);
        s
    }

    pub fn grant_access_token_audience(self, val: Vec<String>) -> (r: Self)
        ensures
            r@ == (AcceptOAuth2ConsentRequest {
                body: AcceptOAuth2ConsentRequestBody { grant_access_token_audience: Some(val), ..self@.body },
                ..self@
            }),
    {
        let mut s = self;
        s.grant_access_token_audience = Some(val);
        s
    }

    pub fn grant_scope(self, val: Vec<String>) -> (r: Self)
        ensures
            r@ == (AcceptOAuth2ConsentRequest {
                body: AcceptOAuth2ConsentRequestBody { grant_scope: Some(val), ..self@.body },
                ..self@
            }),
    {
        let mut s = self;
        s.grant_scope = Some(val);
        s
    }

    pub fn handled_at(self, val: String) -> (r: Self)
        ensures
            r@ == (AcceptOAuth2ConsentRequest {
                body: AcceptOAuth2ConsentRequestBody { handled_at: Some(val), ..self@.body },
                ..self@
            }),
    {
        let mut s = self;
        s.handled_at = Some(val);
        s
    }

    pub fn remember(self, val: bool) -> (r: Self)
        ensures
            r@ == (AcceptOAuth2ConsentRequest {
                body: AcceptOAuth2ConsentRequestBody { remember: Some(val), ..self@.body },
                ..self@
            }),
    {
        let mut s = self;
        s.remember = Some(val);
        s
    }

    pub fn remember_for(self, val: i64) -> (r: Self)
        ensures
            r@ == (AcceptOAuth2ConsentRequest {
                body: AcceptOAuth2ConsentRequestBody { remember_for: Some(val), ..self@.body },
                ..self@
            }),
    {
        let mut s = self;
        s.remember_for = Some(val);
        s
    }

    pub fn session(self, val: JsonObject) -> (r: Self)
        ensures
            r@ == (AcceptOAuth2ConsentRequest {
                body: AcceptOAuth2ConsentRequestBody { session: Some(val), ..self@.body },
                ..self@
            }),
    {
        let mut s = self;
        s.session = Some(val);
        s
    }

    pub fn build(self) -> (r: AcceptOAuth2ConsentRequest)
        ensures
            r == self@,
    {
        AcceptOAuth2ConsentRequest {
            consent_challenge: self.consent_challenge,
            body: AcceptOAuth2ConsentRequestBody {
                context: self.context,
                grant_access_token_audience: self.grant_access_token_audience,
                grant_scope: self.grant_scope,
                handled_at: self.handled_at,
                remember: self.remember,
                remember_for: self.remember_for,
                session: self.session,
            },
        }
    }
}

/// The body of a reject call.
#[derive(Debug)]
pub struct RejectOAuth2ConsentRequestBody {
    pub error: Option<String>,
    pub error_debug: Option<String>,
    pub error_description: Option<String>,
    pub status_code: Option<u64>,
}

/// Rejects a consent request.
#[derive(Debug)]
pub struct RejectOAuth2ConsentRequest {
    pub consent_challenge: String,
    pub body: RejectOAuth2ConsentRequestBody,
}

/// Builds a reject call.
#[derive(Debug)]
pub struct RejectOAuth2ConsentRequestBuilder {
    consent_challenge: String,
    body: RejectOAuth2ConsentRequestBody,
}

/// A reject body with every field unset.
pub open spec fn empty_reject_body() -> RejectOAuth2ConsentRequestBody {
    RejectOAuth2ConsentRequestBody {
        error: None,
        error_debug: None,
        error_description: None,
        status_code: None,
    }
}

impl RejectOAuth2ConsentRequest {
    /// A builder for rejecting the request with this challenge, with no reason yet.
    pub fn new(consent_challenge: String) -> (r: RejectOAuth2ConsentRequestBuilder)
        ensures
            r@ == (RejectOAuth2ConsentRequest { consent_challenge, body: empty_reject_body() }),
    {
        RejectOAuth2ConsentRequestBuilder {
            consent_challenge,
            body: RejectOAuth2ConsentRequestBody::new(),
        }
    }
}

impl View for RejectOAuth2ConsentRequestBuilder {
    type V = RejectOAuth2ConsentRequest;

    closed spec fn view(&self) -> RejectOAuth2ConsentRequest {
        RejectOAuth2ConsentRequest { consent_challenge: self.consent_challenge, body: self.body }
    }
}

impl RejectOAuth2ConsentRequestBuilder {
    pub fn build(self) -> (r: RejectOAuth2ConsentRequest)
        ensures
            r == self@,
    {
        RejectOAuth2ConsentRequest { consent_challenge: self.consent_challenge, body: self.body }
    }

    pub fn error(self, error: String) -> (r: Self)
        ensures
            r@ == (RejectOAuth2ConsentRequest {
                body: RejectOAuth2ConsentRequestBody { error: Some(error), ..self@.body },
                ..self@
            }),
    {
        let mut s = self;
        s.body = s.body.error(error);
        s
    }

    pub fn error_debug(self, error_debug: String) -> (r: Self)
        ensures
            r@ == (RejectOAuth2ConsentRequest {
                body: RejectOAuth2ConsentRequestBody { error_debug: Some(error_debug), ..self@.body },
                ..self@
            }),
    {
        let mut s = self;
        s.body = s.body.error_debug(error_debug);
        s
    }

    pub fn error_description(self, error_description: String) -> (r: Self)
        ensures
            r@ == (RejectOAuth2ConsentRequest {
                body: RejectOAuth2ConsentRequestBody { error_description: Some(error_description), ..self@.body },
                ..self@
            }),
    {
        let mut s = self;
        s.body = s.body.error_description(error_description);
        s
    }

    pub fn status_code(self, status_code: u64) -> (r: Self)
        ensures
            r@ == (RejectOAuth2ConsentRequest {
                body: RejectOAuth2ConsentRequestBody { status_code: Some(status_code), ..self@.body },
                ..self@
            }),
    {
        let mut s = self;
        s.body = s.body.status_code(status_code);
        s
    }
}

impl RejectOAuth2ConsentRequestBody {
    pub fn new() -> (r: Self)
        ensures
            r == empty_reject_body(),
    {
        RejectOAuth2ConsentRequestBody {
            error: None,
            error_debug: None,
            error_description: None,
            status_code: None,
        }
    }

    pub fn error(self, error: String) -> (r: Self)
        ensures
            r == (RejectOAuth2ConsentRequestBody { error: Some(error), ..self }),
    {
        let mut s = self;
        s.error = Some(error);
        s
    }

    pub fn error_debug(self, error_debug: String) -> (r: Self)
        ensures
            r == (RejectOAuth2ConsentRequestBody { error_debug: Some(error_debug), ..self }),
    {
        let mut s = self;
        s.error_debug = Some(error_debug);
        s
    }

    pub fn error_description(self, error_description: String) -> (r: Self)
        ensures
            r == (RejectOAuth2ConsentRequestBody { error_description: Some(error_description), ..self }),
    {
        let mut s = self;
        s.error_description = Some(error_description);
        s
    }

    pub fn status_code(self, status_code: u64) -> (r: Self)
        ensures
            r == (RejectOAuth2ConsentRequestBody { status_code: Some(status_code), ..self }),
    {
        let mut s = self;
        s.status_code = Some(status_code);
        s
    }
}

impl OryRequestType for AcceptOAuth2ConsentRequest {
    type NeedsCookie = No;

    type Service = Hydra;

    open spec fn spec_path() -> Seq<char> {
        "/oauth2/auth/requests/consent/accept"@
    }

    open spec fn spec_method() -> Method {
        Method::Put
    }

    open spec fn spec_query(&self) -> Seq<(Seq<char>, Seq<char>)> {
        seq![("consent_challenge"@, self.consent_challenge@)]
    }

    open spec fn spec_gone_is_error() -> bool {
        false
    }

    fn path() -> (r: &'static str) {
        "/oauth2/auth/requests/consent/accept"
    }

    fn method() -> (r: Method) {
        Method::Put
    }

    fn query(&self) -> (r: Vec<(String, String)>) {
        one_param("consent_challenge", &self.consent_challenge)
    }

    fn gone_is_error() -> (r: bool) {
        false
    }
}

impl OryRequestType for RejectOAuth2ConsentRequest {
    type NeedsCookie = No;

    type Service = Hydra;

    open spec fn spec_path() -> Seq<char> {
        "/oauth2/auth/requests/consent/reject"@
    }

    open spec fn spec_method() -> Method {
        Method::Put
    }

    open spec fn spec_query(&self) -> Seq<(Seq<char>, Seq<char>)> {
        seq![("consent_challenge"@, self.consent_challenge@)]
    }

    open spec fn spec_gone_is_error() -> bool {
        false
    }

    fn path() -> (r: &'static str) {
        "/oauth2/auth/requests/consent/reject"
    }

    fn method() -> (r: Method) {
        Method::Put
    }

    fn query(&self) -> (r: Vec<(String, String)>) {
        one_param("consent_challenge", &self.consent_challenge)
    }

    fn gone_is_error() -> (r: bool) {
        false
    }
}

/// The texts of a list of strings.
pub open spec fn texts(v: Seq<String>) -> Seq<Seq<char>> {
    v.map_values(|s: String| s@)
}

/// A list, or the empty list when there is none.
pub open spec fn or_empty(v: Option<Vec<String>>) -> Seq<String> {
    match v {
        Some(l) => l@,
        None => Seq::empty(),
    }
}

/// The ID token gets the user's email when the request has a subject and the
/// `email` scope is granted.
pub open spec fn wants_email(grant_scopes: Seq<String>, consent_request: OAuth2ConsentRequest) -> bool {
    consent_request.subject is Some && texts(grant_scopes).contains("email"@)
}

/// The `email` trait of the session's identity, if there is one.
pub open spec fn session_email(session: Session) -> Option<serde_json::Value> {
    match session.identity {
        Some(id) => if json_entries(id.traits).contains_key("email"@) {
            Some(json_entries(id.traits)["email"@])
        } else {
            None
        },
        None => None,
    }
}

/// `m` is the token session of a consent: an empty access token object, and
/// an ID token object that holds the email exactly when it is wanted.
pub open spec fn is_consent_session(m: JsonObject, email: Option<serde_json::Value>) -> bool {
    &&& json_entries(m).dom() =~= set!["access_token"@, "id_token"@]
    &&& object_entries(json_entries(m)["access_token"@]) matches Some(a) && a.dom().is_empty()
    &&& object_entries(json_entries(m)["id_token"@]) matches Some(b) && match email {
        Some(e) => b =~= map!["email"@ => e],
        None => b.dom().is_empty(),
    }
}

/// Whether the list holds the text `wanted`.
fn contains_text(v: &Vec<String>, wanted: &str) -> (r: bool)
    ensures
        r == texts(v@).contains(wanted@),
{
    let w = String::from_str(wanted);
    let mut i: usize = 0;
    while i < v.len()
        invariant
            i <= v.len(),
            w@ == wanted@,
            forall|j: int| 0 <= j < i ==> v@[j]@ != wanted@,
        decreases v.len() - i,
    {
        if v[i] == w {
            assert(texts(v@)[i as int] == wanted@);
            return true;
        }
        i = i + 1;
    }
    proof {
        assert forall|j: int| 0 <= j < texts(v@).len() implies texts(v@)[j] != wanted@ by {
            assert(texts(v@)[j] == v@[j]@);
        }
    }
    false
}

/// A copy of a list of strings.
fn copy_strings(v: &Vec<String>) -> (r: Vec<String>)
    ensures
        r@ == v@,
{
    let mut out: Vec<String> = Vec::new();
    let mut i: usize = 0;
    while i < v.len()
        invariant
            i <= v.len(),
            out@ == v@.take(i as int),
        decreases v.len() - i,
    {
        out.push(v[i].clone());
        assert(out@ =~= v@.take(i + 1));
        i = i + 1;
    }
    assert(out@ =~= v@);
    out
}

/// The list, or an empty list when there is none.
fn strings_or_empty(v: &Option<Vec<String>>) -> (r: Vec<String>)
    ensures
        r@ == or_empty(*v),
{
    match v {
        Some(l) => copy_strings(l),
        None => Vec::new(),
    }
}

/// Why the token session of a consent cannot be made: the email is wanted
/// but the session has no identity, or its identity has no `email` trait.
#[derive(Debug, Clone, Copy, PartialEq, Eq, Structural)]
pub enum ConsentError {
    MissingIdentity,
    MissingEmail,
}

/// The error, if any, of making the token session of a consent.
pub open spec fn consent_session_error(
    grant_scopes: Seq<String>,
    consent_request: OAuth2ConsentRequest,
    session: Session,
) -> Option<ConsentError> {
    if !wants_email(grant_scopes, consent_request) {
        None
    } else {
        match session.identity {
            None => Some(ConsentError::MissingIdentity),
            Some(id) => if json_entries(id.traits).contains_key("email"@) {
                None
            } else {
                Some(ConsentError::MissingEmail)
            },
        }
    }
}

/// The email the ID token gets: the session's when it is wanted.
pub open spec fn granted_email(
    grant_scopes: Seq<String>,
    consent_request: OAuth2ConsentRequest,
    session: Session,
) -> Option<serde_json::Value> {
    if wants_email(grant_scopes, consent_request) {
        session_email(session)
    } else {
        None
    }
}

/// The token session handed to the provider with an accepted consent: the
/// ID token carries the user's email when the request has a subject and the
/// `email` scope is granted. Fails when the email is wanted and the session
/// does not have it.
pub fn create_oauth2_consent_request_session(
    grant_scopes: &Vec<String>,
    consent_request: &OAuth2ConsentRequest,
    session: &Session,
) -> (r: Result<JsonObject, ConsentError>)
    ensures
        match consent_session_error(grant_scopes@, *consent_request, *session) {
            Some(e) => r matches Err(f) && f == e,
            None => r matches Ok(m) && is_consent_session(
                m,
                granted_email(grant_scopes@, *consent_request, *session),
            ),
        },
{
    let mut id_token = object_new();
    let access_token = object_new();
    if consent_request.subject.is_some() && contains_text(grant_scopes, "email") {
        let e = match &session.identity {
            Some(identity) => object_get(&identity.traits, "email"),
            None => return Err(ConsentError::MissingIdentity),
        };
        match e {
            Some(v) => {
                object_insert(&mut id_token, String::from_str("email"), v);
            },
            None => return Err(ConsentError::MissingEmail),
        }
    }
    let mut r = object_new();
    object_insert(&mut r, String::from_str("access_token"), object_value(access_token));
    let ghost before = json_entries(r);
    object_insert(&mut r, String::from_str("id_token"), object_value(id_token));
    proof {
        reveal_strlit("access_token");
        reveal_strlit("id_token");
        reveal_strlit("email");
        assert("access_token"@[0] != "id_token"@[0]);
        assert(before.contains_key("access_token"@));
        assert(json_entries(r)["access_token"@] == before["access_token"@]);
    }
    Ok(r)
}

/// Whether the user need not be asked: the request or its client says so.
pub open spec fn skips_consent(consent_request: OAuth2ConsentRequest) -> bool {
    consent_request.skip == Some(true) || match consent_request.client {
        Some(c) => c.skip_consent == Some(true),
        None => false,
    }
}

/// The accept call for `challenge` that grants what the request asked for,
/// with the token session of the consent.
pub open spec fn is_grant_of(
    a: AcceptOAuth2ConsentRequest,
    challenge: Seq<char>,
    consent_request: OAuth2ConsentRequest,
    session: Session,
) -> bool {
    let scopes = or_empty(consent_request.requested_scope);
    &&& a.consent_challenge@ == challenge
    &&& a.body.grant_scope matches Some(g) && g@ == scopes
    &&& a.body.grant_access_token_audience matches Some(g) && g@ == or_empty(
        consent_request.requested_access_token_audience,
    )
    &&& a.body.session matches Some(m) && is_consent_session(
        m,
        if wants_email(scopes, consent_request) {
            session_email(session)
        } else {
            None
        },
    )
    &&& a.body.context is None && a.body.handled_at is None
    &&& a.body.remember is None && a.body.remember_for is None
}

/// The accept call that grants what the consent request asked for, or why
/// its token session cannot be made.
fn grant_requested(
    client: &OryClient,
    challenge: &String,
    consent_request: &OAuth2ConsentRequest,
    session: &Session,
) -> (r: Result<PreparedRequest<AcceptOAuth2ConsentRequest>, ConsentError>)
    ensures
        match consent_session_error(
            or_empty(consent_request.requested_scope),
            *consent_request,
            *session,
        ) {
            Some(e) => r matches Err(f) && f == e,
            None => r matches Ok(p) && is_prepared_grant(p@, client, challenge@, *consent_request, *session),
        },
{
    let grant_scopes = strings_or_empty(&consent_request.requested_scope);
    let audience = strings_or_empty(&consent_request.requested_access_token_audience);
    let token_session = create_oauth2_consent_request_session(&grant_scopes, consent_request, session)?;
    let accept = AcceptOAuth2ConsentRequest::new(challenge.clone()).grant_scope(grant_scopes).grant_access_token_audience(
        audience,
    ).session(token_session).build();
    Ok(client.new_request(accept).prepare())
}

/// `p` is the prepared accept call, without a credential, that grants what
/// the consent request asked for.
pub open spec fn is_prepared_grant(
    p: RequestView<AcceptOAuth2ConsentRequest>,
    client: &OryClient,
    challenge: Seq<char>,
    consent_request: OAuth2ConsentRequest,
    session: Session,
) -> bool {
    &&& p.url == built_request(client, p.request_type).url
    &&& p.method == Method::Put
    &&& p.query == p.request_type.spec_query()
    &&& p.cookie is None
    &&& is_grant_of(p.request_type, challenge, consent_request, session)
}

/// What the consent page does first.
pub enum ConsentStart {
    /// No challenge: go to the home page.
    GoHome,
    /// Fetch the consent request.
    Fetch(PreparedRequest<GetOAuth2ConsentRequest>),
}

/// Starts the consent page: without a challenge there is nothing to consent to.
pub fn consent_start(client: &OryClient, query: &GetConsentQuery) -> (r: ConsentStart)
    ensures
        query.consent_challenge is None ==> r is GoHome,
        query.consent_challenge matches Some(c) ==> (r matches ConsentStart::Fetch(p) && p@
            == built_request(client, GetOAuth2ConsentRequest(c))),
{
    match &query.consent_challenge {
        None => ConsentStart::GoHome,
        Some(c) => ConsentStart::Fetch(client.new_request(GetOAuth2ConsentRequest(c.clone())).prepare()),
    }
}

/// What the consent page shows once the consent request is known.
pub enum ConsentPage {
    /// Consent may be skipped: accept at once, then follow the provider's redirect.
    AutoAccept(PreparedRequest<AcceptOAuth2ConsentRequest>),
    /// Ask the user, with a form protected by an anti-forgery token.
    ShowForm,
}

/// Decides the consent page: accept at once where consent may be skipped,
/// else show the form. Accepting fails where the email is wanted and the
/// session does not have it.
pub fn consent_page(
    client: &OryClient,
    challenge: &String,
    consent_request: &OAuth2ConsentRequest,
    session: &Session,
) -> (r: Result<ConsentPage, ConsentError>)
    ensures
        !skips_consent(*consent_request) ==> r matches Ok(ConsentPage::ShowForm),
        skips_consent(*consent_request) ==> match consent_session_error(
            or_empty(consent_request.requested_scope),
            *consent_request,
            *session,
        ) {
            Some(e) => r matches Err(f) && f == e,
            None => r matches Ok(ConsentPage::AutoAccept(p)) && is_prepared_grant(
                p@,
                client,
                challenge@,
                *consent_request,
                *session,
            ),
        },
{
    let client_skips = match &consent_request.client {
        Some(c) => match c.skip_consent {
            Some(b) => b,
            None => false,
        },
        None => false,
    };
    let request_skips = match consent_request.skip {
        Some(b) => b,
        None => false,
    };
    if request_skips || client_skips {
        let p = grant_requested(client, challenge, consent_request, session)?;
        Ok(ConsentPage::AutoAccept(p))
    } else {
        Ok(ConsentPage::ShowForm)
    }
}

/// The provider call that answers a submitted consent form.
pub enum ConsentReply {
    Accept(PreparedRequest<AcceptOAuth2ConsentRequest>),
    Reject(PreparedRequest<RejectOAuth2ConsentRequest>),
}

/// Answers a consent form that passed the anti-forgery check: grant what was
/// asked for when the user consented, else reject. Granting fails where the
/// email is wanted and the session does not have it.
pub fn consent_reply(
    client: &OryClient,
    query: &ConsentSubmittedQuery,
    form: &Csrf<ConsentSubmittedBody>,
    consent_request: &OAuth2ConsentRequest,
    session: &Session,
) -> (r: Result<ConsentReply, ConsentError>)
    ensures
        form.inner().consent ==> match consent_session_error(
            or_empty(consent_request.requested_scope),
            *consent_request,
            *session,
        ) {
            Some(e) => r matches Err(f) && f == e,
            None => r matches Ok(ConsentReply::Accept(p)) && is_prepared_grant(
                p@,
                client,
                query.consent_challenge@,
                *consent_request,
                *session,
            ),
        },
        !form.inner().consent ==> (r matches Ok(ConsentReply::Reject(p)) && p@ == built_request(
            client,
            RejectOAuth2ConsentRequest {
                consent_challenge: query.consent_challenge,
                body: empty_reject_body(),
            },
        )),
{
    if form.as_ref().consent {
        let p = grant_requested(client, &query.consent_challenge, consent_request, session)?;
        Ok(ConsentReply::Accept(p))
    } else {
        let reject = RejectOAuth2ConsentRequest::new(query.consent_challenge.clone()).build();
        Ok(ConsentReply::Reject(client.new_request(reject).prepare()))
    }
}

} // verus!
