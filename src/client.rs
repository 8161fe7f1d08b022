//! Typed requests to the identity provider: each request type describes its
//! endpoint, and a request that needs the caller's credential can only be
//! prepared for sending once the credential is attached.
use vstd::prelude::*;

verus! {

/// Whether a request type needs the caller's credential.
pub trait NeedsCookieType {
    spec fn needs() -> bool;
}

/// Marks a request that needs the caller's credential.
#[derive(Debug)]
pub struct Yes;

/// Marks a request that goes without the caller's credential.
#[derive(Debug)]
pub struct No;

impl NeedsCookieType for Yes {
    open spec fn needs() -> bool {
        true
    }
}

impl NeedsCookieType for No {
    open spec fn needs() -> bool {
        false
    }
}

/// The base URLs of the two provider services.
#[derive(Debug)]
pub struct OryClient {
    kratos_domain: String,
    hydra_domain: String,
}

impl OryClient {
    pub closed spec fn kratos(&self) -> Seq<char> {
        self.kratos_domain@
    }

    pub closed spec fn hydra(&self) -> Seq<char> {
        self.hydra_domain@
    }

    pub fn new(kratos_domain: String, hydra_domain: String) -> (r: OryClient)
        ensures
            r.kratos() == kratos_domain@,
            r.hydra() == hydra_domain@,
    {
        OryClient { kratos_domain, hydra_domain }
    }
}

/// Which provider service a request goes to.
pub trait OryServiceType {
    spec fn spec_domain(client: &OryClient) -> Seq<char>;

    fn get_domain(client: &OryClient) -> (r: &str)
        ensures
            r@ == Self::spec_domain(client),
    ;
}

/// The identity service.
#[derive(Debug)]
pub struct Kratos;

/// The OAuth2 service.
#[derive(Debug)]
pub struct Hydra;

impl OryServiceType for Kratos {
    open spec fn spec_domain(client: &OryClient) -> Seq<char> {
        client.kratos()
    }

    fn get_domain(client: &OryClient) -> (r: &str) {
        client.kratos_domain.as_str()
    }
}

impl OryServiceType for Hydra {
    open spec fn spec_domain(client: &OryClient) -> Seq<char> {
        client.hydra()
    }

    fn get_domain(client: &OryClient) -> (r: &str) {
        client.hydra_domain.as_str()
    }
}

/// HTTP methods the provider calls use.
#[derive(Debug, Clone, Copy, PartialEq, Eq, Structural)]
pub enum Method {
    Get,
    Put,
}

impl Method {
    pub open spec fn spec_name(self) -> Seq<char> {
        match self {
            Method::Get => "GET"@,
            Method::Put => "PUT"@,
        }
    }

    pub fn as_str(&self) -> (r: &'static str)
        ensures
            r@ == self.spec_name(),
    {
        match self {
            Method::Get => "GET",
            Method::Put => "PUT",
        }
    }
}

/// The view of query parameters as text pairs.
pub open spec fn pairs_view(v: Seq<(String, String)>) -> Seq<(Seq<char>, Seq<char>)> {
    v.map_values(|p: (String, String)| (p.0@, p.1@))
}

/// A single query parameter `key=value`, built from `key` and `value`.
pub(crate) fn one_param(key: &str, value: &String) -> (r: Vec<(String, String)>)
    ensures
        pairs_view(r@) == seq![(key@, value@)],
{
    let mut v: Vec<(String, String)> = Vec::new();
    v.push((String::from_str(key), value.clone()));
    proof {
        assert(pairs_view(v@) =~= seq![(key@, value@)]);
    }
    v
}

/// No query parameters.
pub(crate) fn no_params() -> (r: Vec<(String, String)>)
    ensures
        pairs_view(r@) == Seq::<(Seq<char>, Seq<char>)>::empty(),
{
    let v: Vec<(String, String)> = Vec::new();
    proof {
        assert(pairs_view(v@) =~= Seq::<(Seq<char>, Seq<char>)>::empty());
    }
    v
}

/// The status with which the provider reports an expired flow.
pub const GONE: u16 = 410;

/// One remote operation: its endpoint, its method, its query parameters,
/// whether it needs the credential, and whether a "gone" status carries the
/// error shape instead of the success shape.
pub trait OryRequestType {
    type NeedsCookie: NeedsCookieType;

    type Service: OryServiceType;

    spec fn spec_path() -> Seq<char>;

    spec fn spec_method() -> Method;

    spec fn spec_query(&self) -> Seq<(Seq<char>, Seq<char>)>;

    spec fn spec_gone_is_error() -> bool;

    fn path() -> (r: &'static str)
        ensures
            r@ == Self::spec_path(),
    ;

    fn method() -> (r: Method)
        ensures
            r == Self::spec_method(),
    ;

    fn query(&self) -> (r: Vec<(String, String)>)
        ensures
            pairs_view(r@) == self.spec_query(),
    ;

    fn gone_is_error() -> (r: bool)
        ensures
            r == Self::spec_gone_is_error(),
    ;
}

/// Who the credential belongs to.
#[derive(Debug)]
pub struct WhoAmIRequest;

/// The URL that ends the caller's session.
#[derive(Debug)]
pub struct LogoutBrowserRequest;

/// The details of a self-service error, by its id.
#[derive(Debug)]
pub struct ErrorsRequest(pub String);

/// A login flow, by its id.
#[derive(Debug)]
pub struct LoginFlowRequest(pub String);

/// A registration flow, by its id.
#[derive(Debug)]
pub struct RegistrationFlowRequest(pub String);

/// A recovery flow, by its id.
#[derive(Debug)]
pub struct RecoveryFlowRequest(pub String);

/// A settings flow, by its id.
#[derive(Debug)]
pub struct SettingsFlowRequest(pub String);

/// A verification flow, by its id.
#[derive(Debug)]
pub struct VerificationFlowRequest(pub String);

/// An OAuth2 consent request, by its challenge.
#[derive(Debug)]
pub struct GetOAuth2ConsentRequest(pub String);

impl OryRequestType for WhoAmIRequest {
    type NeedsCookie = Yes;

    type Service = Kratos;

    open spec fn spec_path() -> Seq<char> {
        "sessions/whoami"@
    }

    open spec fn spec_method() -> Method {
        Method::Get
    }

    open spec fn spec_query(&self) -> Seq<(Seq<char>, Seq<char>)> {
        Seq::<(Seq<char>, Seq<char>)>::empty()
    }

    open spec fn spec_gone_is_error() -> bool {
        false
    }

    fn path() -> (r: &'static str) {
        "sessions/whoami"
    }

    fn method() -> (r: Method) {
        Method::Get
    }

    fn query(&self) -> (r: Vec<(String, String)>) {
        no_params()
    }

    fn gone_is_error() -> (r: bool) {
        false
    }
}

impl OryRequestType for LogoutBrowserRequest {
    type NeedsCookie = Yes;

    type Service = Kratos;

    open spec fn spec_path() -> Seq<char> {
        "self-service/logout/browser"@
    }

    open spec fn spec_method() -> Method {
        Method::Get
    }

    open spec fn spec_query(&self) -> Seq<(Seq<char>, Seq<char>)> {
        Seq::<(Seq<char>, Seq<char>)>::empty()
    }

    open spec fn spec_gone_is_error() -> bool {
        false
    }

    fn path() -> (r: &'static str) {
        "self-service/logout/browser"
    }

    fn method() -> (r: Method) {
        Method::Get
    }

    fn query(&self) -> (r: Vec<(String, String)>) {
        no_params()
    }

    fn gone_is_error() -> (r: bool) {
        false
    }
}

impl OryRequestType for ErrorsRequest {
    type NeedsCookie = No;

    type Service = Kratos;

    open spec fn spec_path() -> Seq<char> {
        "self-service/errors"@
    }

    open spec fn spec_method() -> Method {
        Method::Get
    }

    open spec fn spec_query(&self) -> Seq<(Seq<char>, Seq<char>)> {
        seq![("id"@, self.0@)]
    }

    open spec fn spec_gone_is_error() -> bool {
        false
    }

    fn path() -> (r: &'static str) {
        "self-service/errors"
    }

    fn method() -> (r: Method) {
        Method::Get
    }

    fn query(&self) -> (r: Vec<(String, String)>) {
        one_param("id", &self.0)
    }

    fn gone_is_error() -> (r: bool) {
        false
    }
}

impl OryRequestType for LoginFlowRequest {
    type NeedsCookie = Yes;

    type Service = Kratos;

    open spec fn spec_path() -> Seq<char> {
        "self-service/login/flows"@
    }

    open spec fn spec_method() -> Method {
        Method::Get
    }

    open spec fn spec_query(&self) -> Seq<(Seq<char>, Seq<char>)> {
        seq![("id"@, self.0@)]
    }

    open spec fn spec_gone_is_error() -> bool {
        true
    }

    fn path() -> (r: &'static str) {
        "self-service/login/flows"
    }

    fn method() -> (r: Method) {
        Method::Get
    }

    fn query(&self) -> (r: Vec<(String, String)>) {
        one_param("id", &self.0)
    }

    fn gone_is_error() -> (r: bool) {
        true
    }
}

impl OryRequestType for RegistrationFlowRequest {
    type NeedsCookie = Yes;

    type Service = Kratos;

    open spec fn spec_path() -> Seq<char> {
        "self-service/registration/flows"@
    }

    open spec fn spec_method() -> Method {
        Method::Get
    }

    open spec fn spec_query(&self) -> Seq<(Seq<char>, Seq<char>)> {
        seq![("id"@, self.0@)]
    }

    open spec fn spec_gone_is_error() -> bool {
        true
    }

    fn path() -> (r: &'static str) {
        "self-service/registration/flows"
    }

    fn method() -> (r: Method) {
        Method::Get
    }

    fn query(&self) -> (r: Vec<(String, String)>) {
        one_param("id", &self.0)
    }

    fn gone_is_error() -> (r: bool) {
        true
    }
}

impl OryRequestType for RecoveryFlowRequest {
    type NeedsCookie = Yes;

    type Service = Kratos;

    open spec fn spec_path() -> Seq<char> {
        "self-service/recovery/flows"@
    }

    open spec fn spec_method() -> Method {
        Method::Get
    }

    open spec fn spec_query(&self) -> Seq<(Seq<char>, Seq<char>)> {
        seq![("id"@, self.0@)]
    }

    open spec fn spec_gone_is_error() -> bool {
        false
    }

    fn path() -> (r: &'static str) {
        "self-service/recovery/flows"
    }

    fn method() -> (r: Method) {
        Method::Get
    }

    fn query(&self) -> (r: Vec<(String, String)>) {
        one_param("id", &self.0)
    }

    fn gone_is_error() -> (r: bool) {
        false
    }
}

impl OryRequestType for SettingsFlowRequest {
    type NeedsCookie = Yes;

    type Service = Kratos;

    open spec fn spec_path() -> Seq<char> {
        "self-service/settings/flows"@
    }

    open spec fn spec_method() -> Method {
        Method::Get
    }

    open spec fn spec_query(&self) -> Seq<(Seq<char>, Seq<char>)> {
        seq![("id"@, self.0@)]
    }

    open spec fn spec_gone_is_error() -> bool {
        true
    }

    fn path() -> (r: &'static str) {
        "self-service/settings/flows"
    }

    fn method() -> (r: Method) {
        Method::Get
    }

    fn query(&self) -> (r: Vec<(String, String)>) {
        one_param("id", &self.0)
    }

    fn gone_is_error() -> (r: bool) {
        true
    }
}

impl OryRequestType for VerificationFlowRequest {
    type NeedsCookie = Yes;

    type Service = Kratos;

    open spec fn spec_path() -> Seq<char> {
        "self-service/verification/flows"@
    }

    open spec fn spec_method() -> Method {
        Method::Get
    }

    open spec fn spec_query(&self) -> Seq<(Seq<char>, Seq<char>)> {
        seq![("id"@, self.0@)]
    }

    open spec fn spec_gone_is_error() -> bool {
        false
    }

    fn path() -> (r: &'static str) {
        "self-service/verification/flows"
    }

    fn method() -> (r: Method) {
        Method::Get
    }

    fn query(&self) -> (r: Vec<(String, String)>) {
        one_param("id", &self.0)
    }

    fn gone_is_error() -> (r: bool) {
        false
    }
}

impl OryRequestType for GetOAuth2ConsentRequest {
    type NeedsCookie = No;

    type Service = Hydra;

    open spec fn spec_path() -> Seq<char> {
        "/oauth2/auth/requests/consent"@
    }

    open spec fn spec_method() -> Method {
        Method::Get
    }

    open spec fn spec_query(&self) -> Seq<(Seq<char>, Seq<char>)> {
        seq![("consent_challenge"@, self.0@)]
    }

    open spec fn spec_gone_is_error() -> bool {
        false
    }

    fn path() -> (r: &'static str) {
        "/oauth2/auth/requests/consent"
    }

    fn method() -> (r: Method) {
        Method::Get
    }

    fn query(&self) -> (r: Vec<(String, String)>) {
        one_param("consent_challenge", &self.0)
    }

    fn gone_is_error() -> (r: bool) {
        false
    }
}

} // verus!

verus! {

/// A request built but not yet given the caller's credential.
#[derive(Debug, Clone, Copy)]
pub struct NoCookie;

/// A request that carries the caller's credential (the raw `Cookie` header).
#[derive(Debug)]
pub struct WithCookie(Vec<u8>);

/// The credential a request state holds.
pub trait CookieState {
    spec fn spec_cookie(&self) -> Option<Seq<u8>>;
}

impl CookieState for NoCookie {
    open spec fn spec_cookie(&self) -> Option<Seq<u8>> {
        None
    }
}

impl CookieState for WithCookie {
    closed spec fn spec_cookie(&self) -> Option<Seq<u8>> {
        Some(self.0@)
    }
}

/// What a request will send.
pub struct RequestView<R> {
    pub request_type: R,
    pub url: Seq<char>,
    pub method: Method,
    pub query: Seq<(Seq<char>, Seq<char>)>,
    pub cookie: Option<Seq<u8>>,
}

/// The request a call of `new_request` builds for `request` on `client`.
pub open spec fn built_request<R: OryRequestType>(client: &OryClient, request: R) -> RequestView<
    R,
> {
    RequestView {
        request_type: request,
        url: R::Service::spec_domain(client) + seq!['/'] + R::spec_path(),
        method: R::spec_method(),
        query: request.spec_query(),
        cookie: None,
    }
}

/// A request of type `R` in credential state `S`.
#[derive(Debug)]
pub struct OryRequest<R, S> {
    request_type: R,
    url: String,
    method: Method,
    query: Vec<(String, String)>,
    state: S,
}

impl<R, S: CookieState> View for OryRequest<R, S> {
    type V = RequestView<R>;

    closed spec fn view(&self) -> RequestView<R> {
        RequestView {
            request_type: self.request_type,
            url: self.url@,
            method: self.method,
            query: pairs_view(self.query@),
            cookie: self.state.spec_cookie(),
        }
    }
}

impl OryClient {
    /// `<domain>/<path>` for the request type's service.
    fn get_url<R: OryRequestType>(&self) -> (r: String)
        ensures
            r@ == R::Service::spec_domain(self) + seq!['/'] + R::spec_path(),
    {
        let mut url = String::from_str(R::Service::get_domain(self));
        url.append("/");
        url.append(R::path());
        proof {
            reveal_strlit("/");
        }
        url
    }

    /// Starts a request, without the caller's credential.
    pub fn new_request<R: OryRequestType>(&self, request: R) -> (r: OryRequest<R, NoCookie>)
        ensures
            r@ == built_request(self, request),
    {
        let url = self.get_url::<R>();
        let query = request.query();
        OryRequest { request_type: request, url, method: R::method(), query, state: NoCookie }
    }
}

impl<R: OryRequestType<NeedsCookie = Yes>> OryRequest<R, NoCookie> {
    /// Attaches the caller's credential (the raw `Cookie` header).
    pub fn cookie(self, cookie: Vec<u8>) -> (r: OryRequest<R, WithCookie>)
        ensures
            r@ == (RequestView { cookie: Some(cookie@), ..self@ }),
    {
        OryRequest {
            request_type: self.request_type,
            url: self.url,
            method: self.method,
            query: self.query,
            state: WithCookie(cookie),
        }
    }
}

/// A request ready to send. One whose type needs the credential always
/// carries it: such a request is prepared only from the `WithCookie` state.
pub struct PreparedRequest<R: OryRequestType> {
    request_type: R,
    url: String,
    method: Method,
    query: Vec<(String, String)>,
    cookie: Option<Vec<u8>>,
}

/// A record of one provider call for diagnostics. It has no place for the
/// credential.
pub struct Diagnostic {
    pub url: String,
    pub method: Method,
    pub status_code: u16,
    pub body: String,
}

impl<R: OryRequestType> View for PreparedRequest<R> {
    type V = RequestView<R>;

    closed spec fn view(&self) -> RequestView<R> {
        RequestView {
            request_type: self.request_type,
            url: self.url@,
            method: self.method,
            query: pairs_view(self.query@),
            cookie: match self.cookie {
                Some(c) => Some(c@),
                None => None,
            },
        }
    }
}

impl<R: OryRequestType> PreparedRequest<R> {
    #[verifier::type_invariant]
    closed spec fn credential_attached(self) -> bool {
        <R::NeedsCookie as NeedsCookieType>::needs() ==> self.cookie is Some
    }

    pub fn request_type(&self) -> (r: &R)
        ensures
            *r == self@.request_type,
    {
        &self.request_type
    }

    pub fn url(&self) -> (r: &str)
        ensures
            r@ == self@.url,
    {
        self.url.as_str()
    }

    pub fn method(&self) -> (r: Method)
        ensures
            r == self@.method,
    {
        self.method
    }

    pub fn query(&self) -> (r: &Vec<(String, String)>)
        ensures
            pairs_view(r@) == self@.query,
    {
        &self.query
    }

    /// The credential to send; always present for a type that needs one.
    pub fn cookie_header(&self) -> (r: Option<&Vec<u8>>)
        ensures
            match r {
                Some(c) => self@.cookie == Some(c@),
                None => self@.cookie is None,
            },
            <R::NeedsCookie as NeedsCookieType>::needs() ==> r is Some,
    {
        proof {
            use_type_invariant(self);
        }
        match &self.cookie {
            Some(c) => Some(c),
            None => None,
        }
    }

    /// Whether a reply with `status` carries the error shape rather than the
    /// success shape.
    pub fn decodes_as_error(&self, status: u16) -> (r: bool)
        ensures
            r == (R::spec_gone_is_error() && status == GONE),
    {
        R::gone_is_error() && status == GONE
    }

    /// The diagnostic record of a reply: the URL, the method, the status and
    /// the raw body, and nothing of the credential.
    pub fn diagnostic(&self, status_code: u16, body: String) -> (r: Diagnostic)
        ensures
            r.url@ == self@.url,
            r.method == self@.method,
            r.status_code == status_code,
            r.body@ == body@,
    {
        Diagnostic { url: self.url.clone(), method: self.method, status_code, body }
    }
}

impl<R: OryRequestType<NeedsCookie = Yes>> OryRequest<R, WithCookie> {
    /// The request, ready to send with its credential.
    pub fn prepare(self) -> (r: PreparedRequest<R>)
        ensures
            r@ == self@,
            r@.cookie is Some,
    {
        PreparedRequest {
            request_type: self.request_type,
            url: self.url,
            method: self.method,
            query: self.query,
            cookie: Some(self.state.0),
        }
    }
}

impl<R: OryRequestType<NeedsCookie = No>> OryRequest<R, NoCookie> {
    /// The request, ready to send without a credential.
    pub fn prepare(self) -> (r: PreparedRequest<R>)
        ensures
            r@ == self@,
    {
        PreparedRequest {
            request_type: self.request_type,
            url: self.url,
            method: self.method,
            query: self.query,
            cookie: None,
        }
    }
}

} // verus!
