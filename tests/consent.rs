use auth::client::{Method, OryClient};
use auth::consent::{
    consent_page, consent_reply, consent_start, create_oauth2_consent_request_session,
    AcceptOAuth2ConsentRequest, ConsentError, ConsentPage, ConsentReply, ConsentStart, ConsentSubmittedBody,
    ConsentSubmittedQuery, GetConsentQuery, OAuth2Client, OAuth2ConsentRequest,
    RejectOAuth2ConsentRequest, RejectOAuth2ConsentRequestBody,
};
use auth::csrf::{Csrf, CsrfService, CsrfToken};
use auth::session::{Identity, Session};
use serde_json::Value;

fn client() -> OryClient {
    OryClient::new("http://kratos".to_string(), "http://hydra".to_string())
}

fn session_with_email(email: &str) -> Session {
    let mut traits = serde_json::Map::new();
    traits.insert("email".to_string(), Value::String(email.to_string()));
    Session {
        active: Some(true),
        authenticated_at: None,
        authenticator_assurance_level: None,
        expires_at: "2030-01-01T00:00:00Z".to_string(),
        id: "sess-1".to_string(),
        identity: Some(Identity { id: "u1".to_string(), traits }),
    }
}

fn consent_request(skip: Option<bool>, scopes: Vec<&str>) -> OAuth2ConsentRequest {
    OAuth2ConsentRequest {
        acr: None,
        amr: None,
        challenge: "abc123".to_string(),
        client: None,
        context: None,
        login_challenge: None,
        session_id: None,
        oidc_context: None,
        request_url: None,
        requested_access_token_audience: Some(vec!["api".to_string()]),
        requested_scope: Some(scopes.into_iter().map(|s| s.to_string()).collect()),
        skip,
        subject: Some("user-1".to_string()),
    }
}

fn object(v: &Value) -> &serde_json::Map<String, Value> {
    match v {
        Value::Object(m) => m,
        other => panic!("not an object: {:?}", other),
    }
}

#[test]
fn skipped_consent_is_accepted_at_once() {
    let c = client();
    let req = consent_request(Some(true), vec!["email"]);
    let session = session_with_email("a@example.com");
    match consent_page(&c, &"abc123".to_string(), &req, &session).unwrap() {
        ConsentPage::AutoAccept(p) => {
            assert_eq!(p.url(), "http://hydra//oauth2/auth/requests/consent/accept");
            assert_eq!(p.method(), Method::Put);
            assert!(p.cookie_header().is_none());
            let accept = p.request_type();
            assert_eq!(accept.consent_challenge, "abc123");
            assert_eq!(accept.body.grant_scope, Some(vec!["email".to_string()]));
            assert_eq!(accept.body.grant_access_token_audience, Some(vec!["api".to_string()]));
            let s = accept.body.session.as_ref().unwrap();
            assert_eq!(s.len(), 2);
            assert!(object(&s["access_token"]).is_empty());
            let id_token = object(&s["id_token"]);
            assert_eq!(id_token.get("email"), Some(&Value::String("a@example.com".to_string())));
        }
        ConsentPage::ShowForm => panic!("consent should be skipped"),
    }
}

#[test]
fn client_may_skip_consent() {
    let mut req = consent_request(None, vec!["openid"]);
    req.client = Some(OAuth2Client {
        client_id: None,
        client_name: None,
        client_uri: None,
        logo_uri: None,
        policy_uri: None,
        skip_consent: Some(true),
        skip_logout_consent: None,
    });
    let page = consent_page(&client(), &"abc123".to_string(), &req, &session_with_email("a@b")).unwrap();
    assert!(matches!(page, ConsentPage::AutoAccept(_)));
}

#[test]
fn consent_form_is_shown_when_not_skipped() {
    let req = consent_request(Some(false), vec!["email"]);
    let page = consent_page(&client(), &"abc123".to_string(), &req, &session_with_email("a@b")).unwrap();
    assert!(matches!(page, ConsentPage::ShowForm));
}

#[test]
fn consent_page_without_challenge_goes_home() {
    let q = GetConsentQuery { consent_challenge: None };
    assert!(matches!(consent_start(&client(), &q), ConsentStart::GoHome));
    let q = GetConsentQuery { consent_challenge: Some("abc123".to_string()) };
    match consent_start(&client(), &q) {
        ConsentStart::Fetch(p) => assert_eq!(p.request_type().0, "abc123"),
        ConsentStart::GoHome => panic!("expected a fetch"),
    }
}

#[test]
fn email_goes_into_the_id_token_only_when_granted() {
    let session = session_with_email("a@example.com");
    let req = consent_request(None, vec![]);
    let with = create_oauth2_consent_request_session(&vec!["openid".to_string(), "email".to_string()], &req, &session).unwrap();
    assert_eq!(object(&with["id_token"]).len(), 1);
    let without = create_oauth2_consent_request_session(&vec!["openid".to_string()], &req, &session).unwrap();
    assert!(object(&without["id_token"]).is_empty());
    assert!(object(&without["access_token"]).is_empty());
    let mut anonymous = consent_request(None, vec![]);
    anonymous.subject = None;
    let none = create_oauth2_consent_request_session(&vec!["email".to_string()], &anonymous, &session).unwrap();
    assert!(object(&none["id_token"]).is_empty());
}

fn validated_form(consent: bool) -> Csrf<ConsentSubmittedBody> {
    let mut svc = CsrfService::new(b"s3cr3t".to_vec(), "example.com".to_string()).unwrap();
    let t = svc.issue("sess-1").unwrap();
    let body = ConsentSubmittedBody { csrf_token: t.clone(), consent };
    Csrf::validate(&svc, Some(t.0), body).unwrap()
}

#[test]
fn submitted_consent_is_accepted() {
    let q = ConsentSubmittedQuery { consent_challenge: "abc123".to_string() };
    let req = consent_request(Some(false), vec!["email"]);
    match consent_reply(&client(), &q, &validated_form(true), &req, &session_with_email("a@b")).unwrap() {
        ConsentReply::Accept(p) => {
            assert_eq!(p.request_type().consent_challenge, "abc123");
            assert_eq!(p.request_type().body.grant_scope, Some(vec!["email".to_string()]));
        }
        ConsentReply::Reject(_) => panic!("expected accept"),
    }
}

#[test]
fn refused_consent_is_rejected() {
    let q = ConsentSubmittedQuery { consent_challenge: "abc123".to_string() };
    let req = consent_request(Some(false), vec!["email"]);
    match consent_reply(&client(), &q, &validated_form(false), &req, &session_with_email("a@b")).unwrap() {
        ConsentReply::Reject(p) => {
            assert_eq!(p.url(), "http://hydra//oauth2/auth/requests/consent/reject");
            assert_eq!(p.request_type().consent_challenge, "abc123");
            assert!(p.request_type().body.error.is_none());
        }
        ConsentReply::Accept(_) => panic!("expected reject"),
    }
}

#[test]
fn reject_builder_sets_each_field() {
    let r = RejectOAuth2ConsentRequest::new("ch".to_string())
        .error("access_denied".to_string())
        .error_debug("dbg".to_string())
        .error_description("no".to_string())
        .status_code(403)
        .build();
    assert_eq!(r.consent_challenge, "ch");
    assert_eq!(r.body.error.as_deref(), Some("access_denied"));
    assert_eq!(r.body.error_debug.as_deref(), Some("dbg"));
    assert_eq!(r.body.error_description.as_deref(), Some("no"));
    assert_eq!(r.body.status_code, Some(403));
    let b = RejectOAuth2ConsentRequestBody::new().status_code(400);
    assert_eq!(b.status_code, Some(400));
    assert!(b.error.is_none());
}

#[test]
fn accept_builder_sets_each_field() {
    let a = AcceptOAuth2ConsentRequest::new("ch".to_string())
        .consent_challenge("ch2".to_string())
        .grant_scope(vec!["openid".to_string()])
        .grant_access_token_audience(vec!["api".to_string()])
        .handled_at("now".to_string())
        .remember(true)
        .remember_for(3600)
        .context(serde_json::Map::new())
        .session(serde_json::Map::new())
        .build();
    assert_eq!(a.consent_challenge, "ch2");
    assert_eq!(a.body.grant_scope, Some(vec!["openid".to_string()]));
    assert_eq!(a.body.handled_at.as_deref(), Some("now"));
    assert_eq!(a.body.remember, Some(true));
    assert_eq!(a.body.remember_for, Some(3600));
    assert!(a.body.context.is_some() && a.body.session.is_some());
}

#[test]
fn consent_form_token_is_what_the_guard_reads() {
    let body = ConsentSubmittedBody { csrf_token: CsrfToken("t".to_string()), consent: false };
    assert_eq!(body.csrf_token.as_str(), "t");
}

#[test]
fn wanted_email_without_identity_is_an_error() {
    let mut session = session_with_email("a@b");
    session.identity = None;
    let req = consent_request(Some(true), vec!["email"]);
    let r = create_oauth2_consent_request_session(&vec!["email".to_string()], &req, &session);
    assert_eq!(r.unwrap_err(), ConsentError::MissingIdentity);
    let page = consent_page(&client(), &"abc123".to_string(), &req, &session);
    assert!(matches!(page, Err(ConsentError::MissingIdentity)));
}

#[test]
fn wanted_email_without_email_trait_is_an_error() {
    let mut session = session_with_email("a@b");
    session.identity.as_mut().unwrap().traits = serde_json::Map::new();
    let req = consent_request(Some(false), vec!["email"]);
    let q = ConsentSubmittedQuery { consent_challenge: "abc123".to_string() };
    let r = consent_reply(&client(), &q, &validated_form(true), &req, &session);
    assert!(matches!(r, Err(ConsentError::MissingEmail)));
    let shown = consent_page(&client(), &"abc123".to_string(), &req, &session);
    assert!(matches!(shown, Ok(ConsentPage::ShowForm)));
    let refused = consent_reply(&client(), &q, &validated_form(false), &req, &session);
    assert!(matches!(refused, Ok(ConsentReply::Reject(_))));
}
