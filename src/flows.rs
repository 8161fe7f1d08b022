//! The self-service pages: where each sends the browser, and which flow it
//! fetches with the caller's credential.
use crate::client::{
    built_request, ErrorsRequest, LoginFlowRequest, LogoutBrowserRequest, OryClient,
    OryRequestType, PreparedRequest, RecoveryFlowRequest, RegistrationFlowRequest, RequestView,
    SettingsFlowRequest, VerificationFlowRequest,
};
use crate::session::OK;
use vstd::prelude::*;

verus! {

/// A page of the identity service that the browser is sent to.
pub trait KratosRedirectType {
    spec fn spec_url(&self) -> Seq<char>;

    fn get_url(&self) -> (r: String)
        ensures
            r@ == self.spec_url(),
    ;
}

/// The login page, optionally carrying an OAuth2 login challenge.
#[derive(Debug)]
pub struct LoginBrowser(pub Option<String>);

/// The registration page.
#[derive(Debug)]
pub struct RegistrationBrowser;

/// The recovery page.
#[derive(Debug)]
pub struct RecoveryBrowser;

/// The settings page.
#[derive(Debug)]
pub struct SettingsRedirect;

impl KratosRedirectType for LoginBrowser {
    open spec fn spec_url(&self) -> Seq<char> {
        match self.0 {
            Some(c) => "self-service/login/browser"@ + "?login_challenge="@ + c@,
            None => "self-service/login/browser"@,
        }
    }

    fn get_url(&self) -> (r: String) {
        let mut url = String::from_str("self-service/login/browser");
        match &self.0 {
            Some(c) => {
                url.append("?login_challenge=");
                url.append(c.as_str());
            },
            None => {},
        }
        url
    }
}

impl KratosRedirectType for RegistrationBrowser {
    open spec fn spec_url(&self) -> Seq<char> {
        "self-service/registration/browser"@
    }

    fn get_url(&self) -> (r: String) {
        String::from_str("self-service/registration/browser")
    }
}

impl KratosRedirectType for RecoveryBrowser {
    open spec fn spec_url(&self) -> Seq<char> {
        "self-service/recovery/browser"@
    }

    fn get_url(&self) -> (r: String) {
        String::from_str("self-service/recovery/browser")
    }
}

impl KratosRedirectType for SettingsRedirect {
    open spec fn spec_url(&self) -> Seq<char> {
        "self-service/settings/browser"@
    }

    fn get_url(&self) -> (r: String) {
        String::from_str("self-service/settings/browser")
    }
}

/// Where a redirect to `page` sends the browser: `<identity domain>/<page url>`.
pub open spec fn redirect_location(client: &OryClient, page_url: Seq<char>) -> Seq<char> {
    client.kratos() + seq!['/'] + page_url
}

impl OryClient {
    /// The location to send the browser to for `typ`.
    pub fn redirect<R: KratosRedirectType>(&self, typ: R) -> (r: String)
        ensures
            r@ == redirect_location(self, typ.spec_url()),
    {
        let mut location = String::from_str(<crate::client::Kratos as crate::client::OryServiceType>::get_domain(self));
        location.append("/");
        let page = typ.get_url();
        location.append(page.as_str());
        proof {
            reveal_strlit("/");
        }
        location
    }
}

/// The URL that ends the caller's session.
#[derive(Debug)]
pub struct LogoutUrlResponse {
    pub logout_url: String,
}

/// The provider's error shape.
#[derive(Debug)]
pub struct GenericError<T> {
    pub code: Option<u64>,
    pub debug: Option<String>,
    pub details: Option<T>,
    pub id: Option<String>,
    pub message: String,
    pub reason: Option<String>,
    pub request: Option<String>,
    pub status: Option<String>,
}

/// Details of an expired login flow.
#[derive(Debug)]
pub struct LoginFlowError {
    pub redirect_to: String,
    pub return_to: String,
}

/// Query of the login page.
#[derive(Debug)]
pub struct LoginQuery {
    pub flow: Option<String>,
    pub login_challenge: Option<String>,
}

/// Query of the registration page.
#[derive(Debug)]
pub struct RegisterQuery {
    pub flow: Option<String>,
}

/// Query of the recovery page.
#[derive(Debug)]
pub struct RecoveryQuery {
    pub flow: Option<String>,
}

/// Query of the settings page.
#[derive(Debug)]
pub struct SettingsQuery {
    pub flow: Option<String>,
}

/// Query of the verification page.
#[derive(Debug)]
pub struct VerifyQuery {
    pub flow: Option<String>,
}

/// Query of the error page.
#[derive(Debug)]
pub struct ErrorQuery {
    pub id: String,
}

/// A self-service error as the provider reports it.
#[derive(Debug)]
pub struct AuthError {
    pub error: ErrorMessage,
}

/// The message of a self-service error.
#[derive(Debug)]
pub struct ErrorMessage {
    pub message: String,
    pub reason: String,
}

/// What a flow page does first.
pub enum FlowStart<R: OryRequestType> {
    /// Send the browser to this location.
    Redirect(String),
    /// Fetch the flow with the caller's credential.
    Fetch(PreparedRequest<R>),
}

/// What a flow page does with the fetched flow.
pub enum FlowPage<F> {
    /// Render the flow.
    Render(F),
    /// Send the browser to this location.
    Redirect(String),
}

/// The prepared fetch of a flow request with the caller's credential.
pub open spec fn flow_fetch<R: OryRequestType>(client: &OryClient, request: R, cookie: Seq<u8>) -> RequestView<R> {
    RequestView { cookie: Some(cookie), ..built_request(client, request) }
}

/// Starts the login page: without a flow, to the login page (passing on the OAuth2 login challenge); without a credential, to a fresh login; else fetch the flow.
pub fn login_start(client: &OryClient, query: &LoginQuery, cookie: Option<Vec<u8>>) -> (r: FlowStart<LoginFlowRequest>)
    ensures
        query.flow is None ==> (r matches FlowStart::Redirect(l) && l@ == redirect_location(
            client,
            LoginBrowser(query.login_challenge).spec_url(),
        )),
        query.flow is Some && cookie is None ==> (r matches FlowStart::Redirect(l) && l@
            == redirect_location(client, LoginBrowser(None).spec_url())),
        query.flow matches Some(id) ==> (cookie matches Some(c) ==> (r matches FlowStart::Fetch(p)
            && p@ == flow_fetch(client, LoginFlowRequest(id), c@))),
{
    match &query.flow {
        None => FlowStart::Redirect(client.redirect(LoginBrowser(query.login_challenge.clone()))),
        Some(id) => match cookie {
            None => FlowStart::Redirect(client.redirect(LoginBrowser(None))),
            Some(c) => FlowStart::Fetch(client.new_request(LoginFlowRequest(id.clone())).cookie(c).prepare()),
        },
    }
}

/// Starts the registration page: without a flow or a credential, to a fresh registration; else fetch the flow.
pub fn registration_start(client: &OryClient, query: &RegisterQuery, cookie: Option<Vec<u8>>) -> (r: FlowStart<RegistrationFlowRequest>)
    ensures
        query.flow is None ==> (r matches FlowStart::Redirect(l) && l@ == redirect_location(
            client,
            RegistrationBrowser.spec_url(),
        )),
        query.flow is Some && cookie is None ==> (r matches FlowStart::Redirect(l) && l@
            == redirect_location(client, RegistrationBrowser.spec_url())),
        query.flow matches Some(id) ==> (cookie matches Some(c) ==> (r matches FlowStart::Fetch(p)
            && p@ == flow_fetch(client, RegistrationFlowRequest(id), c@))),
{
    match &query.flow {
        None => FlowStart::Redirect(client.redirect(RegistrationBrowser)),
        Some(id) => match cookie {
            None => FlowStart::Redirect(client.redirect(RegistrationBrowser)),
            Some(c) => FlowStart::Fetch(client.new_request(RegistrationFlowRequest(id.clone())).cookie(c).prepare()),
        },
    }
}

/// Starts the recovery page: without a flow or a credential, to a fresh recovery; else fetch the flow.
pub fn recovery_start(client: &OryClient, query: &RecoveryQuery, cookie: Option<Vec<u8>>) -> (r: FlowStart<RecoveryFlowRequest>)
    ensures
        query.flow is None ==> (r matches FlowStart::Redirect(l) && l@ == redirect_location(
            client,
            RecoveryBrowser.spec_url(),
        )),
        query.flow is Some && cookie is None ==> (r matches FlowStart::Redirect(l) && l@
            == redirect_location(client, RecoveryBrowser.spec_url())),
        query.flow matches Some(id) ==> (cookie matches Some(c) ==> (r matches FlowStart::Fetch(p)
            && p@ == flow_fetch(client, RecoveryFlowRequest(id), c@))),
{
    match &query.flow {
        None => FlowStart::Redirect(client.redirect(RecoveryBrowser)),
        Some(id) => match cookie {
            None => FlowStart::Redirect(client.redirect(RecoveryBrowser)),
            Some(c) => FlowStart::Fetch(client.new_request(RecoveryFlowRequest(id.clone())).cookie(c).prepare()),
        },
    }
}

/// Starts the settings page: without a flow or a credential, to fresh settings; else fetch the flow.
pub fn settings_start(client: &OryClient, query: &SettingsQuery, cookie: Option<Vec<u8>>) -> (r: FlowStart<SettingsFlowRequest>)
    ensures
        query.flow is None ==> (r matches FlowStart::Redirect(l) && l@ == redirect_location(
            client,
            SettingsRedirect.spec_url(),
        )),
        query.flow is Some && cookie is None ==> (r matches FlowStart::Redirect(l) && l@
            == redirect_location(client, SettingsRedirect.spec_url())),
        query.flow matches Some(id) ==> (cookie matches Some(c) ==> (r matches FlowStart::Fetch(p)
            && p@ == flow_fetch(client, SettingsFlowRequest(id), c@))),
{
    match &query.flow {
        None => FlowStart::Redirect(client.redirect(SettingsRedirect)),
        Some(id) => match cookie {
            None => FlowStart::Redirect(client.redirect(SettingsRedirect)),
            Some(c) => FlowStart::Fetch(client.new_request(SettingsFlowRequest(id.clone())).cookie(c).prepare()),
        },
    }
}

/// Starts the verification page: without a flow or a credential, to a fresh login; else fetch the flow.
pub fn verification_start(client: &OryClient, query: &VerifyQuery, cookie: Option<Vec<u8>>) -> (r: FlowStart<VerificationFlowRequest>)
    ensures
        query.flow is None ==> (r matches FlowStart::Redirect(l) && l@ == redirect_location(
            client,
            LoginBrowser(None).spec_url(),
        )),
        query.flow is Some && cookie is None ==> (r matches FlowStart::Redirect(l) && l@
            == redirect_location(client, LoginBrowser(None).spec_url())),
        query.flow matches Some(id) ==> (cookie matches Some(c) ==> (r matches FlowStart::Fetch(p)
            && p@ == flow_fetch(client, VerificationFlowRequest(id), c@))),
{
    match &query.flow {
        None => FlowStart::Redirect(client.redirect(LoginBrowser(None))),
        Some(id) => match cookie {
            None => FlowStart::Redirect(client.redirect(LoginBrowser(None))),
            Some(c) => FlowStart::Fetch(client.new_request(VerificationFlowRequest(id.clone())).cookie(c).prepare()),
        },
    }
}

/// The login page once the flow is fetched: render it, or, when it expired,
/// follow the provider's redirect, or start a fresh login when it gives none.
pub fn login_page<F>(client: &OryClient, body: Result<F, GenericError<LoginFlowError>>) -> (r: FlowPage<F>)
    ensures
        body matches Ok(f) ==> (r matches FlowPage::Render(g) && g == f),
        body matches Err(e) ==> (e.details matches Some(d) ==> (r matches FlowPage::Redirect(l) && l@
            == d.redirect_to@)),
        body matches Err(e) ==> (e.details is None ==> (r matches FlowPage::Redirect(l) && l@
            == redirect_location(client, LoginBrowser(None).spec_url()))),
{
    match body {
        Ok(f) => FlowPage::Render(f),
        Err(e) => match e.details {
            Some(d) => FlowPage::Redirect(d.redirect_to),
            None => FlowPage::Redirect(client.redirect(LoginBrowser(None))),
        },
    }
}

/// The registration page once the flow is fetched: render it, or start a
/// fresh login when it expired.
pub fn registration_page<F, D>(client: &OryClient, body: Result<F, GenericError<D>>) -> (r: FlowPage<F>)
    ensures
        body matches Ok(f) ==> (r matches FlowPage::Render(g) && g == f),
        body is Err ==> (r matches FlowPage::Redirect(l) && l@ == redirect_location(
            client,
            LoginBrowser(None).spec_url(),
        )),
{
    match body {
        Ok(f) => FlowPage::Render(f),
        Err(_) => FlowPage::Redirect(client.redirect(LoginBrowser(None))),
    }
}

/// The settings page once the flow is fetched: render it, or start fresh
/// settings when it expired.
pub fn settings_page<F, D>(client: &OryClient, body: Result<F, GenericError<D>>) -> (r: FlowPage<F>)
    ensures
        body matches Ok(f) ==> (r matches FlowPage::Render(g) && g == f),
        body is Err ==> (r matches FlowPage::Redirect(l) && l@ == redirect_location(
            client,
            SettingsRedirect.spec_url(),
        )),
{
    match body {
        Ok(f) => FlowPage::Render(f),
        Err(_) => FlowPage::Redirect(client.redirect(SettingsRedirect)),
    }
}

/// The error page fetches the error by its id.
pub fn error_start(client: &OryClient, query: &ErrorQuery) -> (r: PreparedRequest<ErrorsRequest>)
    ensures
        r@ == built_request(client, ErrorsRequest(query.id)),
{
    client.new_request(ErrorsRequest(query.id.clone())).prepare()
}

/// What the home page shows once the caller's session is known.
pub enum HomeStep {
    /// The public view.
    Public,
    /// Fetch the logout URL, then show the signed-in view.
    FetchLogoutUrl(PreparedRequest<LogoutBrowserRequest>),
}

/// The home page after the session lookup: signed in on a successful lookup,
/// else the public view.
pub fn home_after_whoami(client: &OryClient, status: u16, cookie: Vec<u8>) -> (r: HomeStep)
    ensures
        status == OK ==> (r matches HomeStep::FetchLogoutUrl(p) && p@ == flow_fetch(
            client,
            LogoutBrowserRequest,
            cookie@,
        )),
        status != OK ==> r is Public,
{
    if status == OK {
        HomeStep::FetchLogoutUrl(client.new_request(LogoutBrowserRequest).cookie(cookie).prepare())
    } else {
        HomeStep::Public
    }
}

} // verus!
