use auth::client::{
    ErrorsRequest, GetOAuth2ConsentRequest, LoginFlowRequest, Method, OryClient, RecoveryFlowRequest,
    WhoAmIRequest,
};

fn client() -> OryClient {
    OryClient::new("http://kratos".to_string(), "http://hydra".to_string())
}

fn pairs(q: &[(String, String)]) -> Vec<(&str, &str)> {
    q.iter().map(|(k, v)| (k.as_str(), v.as_str())).collect()
}

#[test]
fn credentialed_request_carries_its_cookie() {
    let c = client();
    let p = c.new_request(WhoAmIRequest).cookie(b"ory_session=abc".to_vec()).prepare();
    assert_eq!(p.url(), "http://kratos/sessions/whoami");
    assert_eq!(p.method(), Method::Get);
    assert!(p.query().is_empty());
    assert_eq!(p.cookie_header().unwrap().as_slice(), b"ory_session=abc");
}

#[test]
fn anonymous_request_goes_without_cookie() {
    let c = client();
    let p = c.new_request(ErrorsRequest("e1".to_string())).prepare();
    assert_eq!(p.url(), "http://kratos/self-service/errors");
    assert_eq!(pairs(p.query()), vec![("id", "e1")]);
    assert!(p.cookie_header().is_none());
    assert_eq!(p.request_type().0, "e1");
}

#[test]
fn consent_request_goes_to_the_oauth2_service() {
    let c = client();
    let p = c.new_request(GetOAuth2ConsentRequest("abc123".to_string())).prepare();
    assert_eq!(p.url(), "http://hydra//oauth2/auth/requests/consent");
    assert_eq!(pairs(p.query()), vec![("consent_challenge", "abc123")]);
    assert_eq!(p.method().as_str(), "GET");
}

#[test]
fn gone_status_selects_the_error_shape_only_where_declared() {
    let c = client();
    let login = c.new_request(LoginFlowRequest("f".to_string())).cookie(vec![1]).prepare();
    assert!(login.decodes_as_error(410));
    assert!(!login.decodes_as_error(200));
    let recovery = c.new_request(RecoveryFlowRequest("f".to_string())).cookie(vec![1]).prepare();
    assert!(!recovery.decodes_as_error(410));
}

#[test]
fn diagnostic_record_has_no_credential() {
    let c = client();
    let p = c.new_request(WhoAmIRequest).cookie(b"secret-cookie".to_vec()).prepare();
    let d = p.diagnostic(401, "{\"error\":1}".to_string());
    assert_eq!(d.url, "http://kratos/sessions/whoami");
    assert_eq!(d.method, Method::Get);
    assert_eq!(d.status_code, 401);
    assert_eq!(d.body, "{\"error\":1}");
    assert!(!format!("{} {} {}", d.url, d.method.as_str(), d.body).contains("secret-cookie"));
}
