use auth::consent::ConsentSubmittedBody;
use auth::csrf::{split_token, Csrf, CsrfError, CsrfService, CsrfToken, CSRF_COOKIE_NAME};
use base64::Engine;
use hmac::Mac;

fn service(secret: &str) -> CsrfService {
    CsrfService::new(secret.as_bytes().to_vec(), "example.com".to_string()).unwrap()
}

fn form(token: &str) -> ConsentSubmittedBody {
    ConsentSubmittedBody { csrf_token: CsrfToken(token.to_string()), consent: true }
}

fn expected_mac(secret: &str, message: &str) -> String {
    let mut mac = hmac::Hmac::<sha2::Sha256>::new_from_slice(secret.as_bytes()).unwrap();
    mac.update(message.as_bytes());
    base64::engine::general_purpose::URL_SAFE_NO_PAD.encode(mac.finalize().into_bytes())
}

#[test]
fn issued_token_passes_the_guard() {
    let mut svc = service("s3cr3t");
    let token = svc.issue("sess-1").unwrap();
    let cookie = token.0.clone();
    let checked = Csrf::validate(&svc, Some(cookie), form(&token.0)).unwrap();
    assert_eq!(checked.as_ref().csrf_token, token);
    assert!(checked.into_inner().consent);
}

#[test]
fn tampered_form_token_does_not_match_the_cookie() {
    let mut svc = service("s3cr3t");
    let token = svc.issue("sess-1").unwrap();
    match Csrf::validate(&svc, Some(token.0.clone()), form("tampered")) {
        Err(CsrfError::TokensDoNotMatch(cookie, payload)) => {
            assert_eq!(cookie, token.0);
            assert_eq!(payload, "tampered");
        }
        other => panic!("unexpected: {:?}", other),
    }
}

#[test]
fn unsigned_token_fails_verification() {
    let svc = service("s3cr3t");
    let unsigned = "AAAA.sess-1!BBBB";
    match Csrf::validate(&svc, Some(unsigned.to_string()), form(unsigned)) {
        Err(CsrfError::CouldNotVerify(t)) => assert_eq!(t, unsigned),
        other => panic!("unexpected: {:?}", other),
    }
}

#[test]
fn missing_cookie_is_refused() {
    let svc = service("s3cr3t");
    assert!(matches!(Csrf::validate(&svc, None, form("x.y")), Err(CsrfError::TokenMissing)));
}

#[test]
fn sign_then_verify_succeeds() {
    let svc = service("s3cr3t");
    for (sid, rv) in [("sess-1", "abc"), ("", ""), ("user_42", "Zm9vYmFy-_")] {
        let t = svc.sign(sid, rv);
        assert!(svc.verify_token(&t).is_ok(), "{}", t.0);
    }
}

#[test]
fn sign_produces_the_encoded_hmac_and_the_message() {
    let svc = service("s3cr3t");
    let t = svc.sign("sess-1", "r4nd");
    let expected = format!("{}.sess-1!r4nd", expected_mac("s3cr3t", "sess-1!r4nd"));
    assert_eq!(t.0, expected);
    assert_eq!(t.0.split('.').next().unwrap().len(), 43);
}

#[test]
fn issued_token_has_the_documented_shape() {
    let mut svc = service("s3cr3t");
    let a = svc.issue("sess-1").unwrap();
    let b = svc.issue("sess-1").unwrap();
    assert_ne!(a, b);
    let (mac, msg) = split_token(&a.0).unwrap();
    assert_eq!(mac.len(), 43);
    let (sid, rv) = msg.split_once('!').unwrap();
    assert_eq!(sid, "sess-1");
    assert_eq!(rv.len(), 43);
    assert_eq!(mac, expected_mac("s3cr3t", msg));
    assert!(svc.verify_token(&a).is_ok());
}

#[test]
fn flipping_a_mac_character_fails_verification() {
    let svc = service("s3cr3t");
    let t = svc.sign("sess-1", "abc");
    let mac_len = t.0.find('.').unwrap();
    let mut mismatches = 0;
    for k in 0..mac_len {
        for c in ['A', 'z', '0', '-', '!'] {
            let mut chars: Vec<char> = t.0.chars().collect();
            if chars[k] == c {
                continue;
            }
            chars[k] = c;
            let flipped = CsrfToken(chars.into_iter().collect());
            match svc.verify_token(&flipped) {
                Err(CsrfError::CouldNotVerify(_)) => mismatches += 1,
                Err(CsrfError::TokenInvalid) => {}
                other => panic!("flip at {} to {} gave {:?}", k, c, other),
            }
        }
    }
    assert!(mismatches > 0);
}

#[test]
fn flipping_to_a_base64_character_is_a_mismatch() {
    let svc = service("s3cr3t");
    let t = svc.sign("sess-1", "abc");
    let mut chars: Vec<char> = t.0.chars().collect();
    chars[0] = if chars[0] == 'A' { 'B' } else { 'A' };
    let flipped = CsrfToken(chars.into_iter().collect());
    assert!(matches!(svc.verify_token(&flipped), Err(CsrfError::CouldNotVerify(_))));
}

#[test]
fn token_from_another_secret_fails() {
    let a = service("secret-a");
    let b = service("secret-b");
    let t = a.sign("sess-1", "abc");
    match b.verify_token(&t) {
        Err(CsrfError::CouldNotVerify(s)) => assert_eq!(s, t.0),
        other => panic!("unexpected: {:?}", other),
    }
}

#[test]
fn mismatch_is_reported_whatever_the_secret() {
    for secret in ["s3cr3t", "other"] {
        let svc = service(secret);
        let good = svc.sign("sess-1", "abc");
        match Csrf::validate(&svc, Some("X".to_string()), form(&good.0)) {
            Err(CsrfError::TokensDoNotMatch(x, y)) => {
                assert_eq!(x, "X");
                assert_eq!(y, good.0);
            }
            other => panic!("unexpected: {:?}", other),
        }
    }
}

#[test]
fn token_without_a_dot_is_invalid() {
    let svc = service("s3cr3t");
    assert!(matches!(svc.verify_token(&CsrfToken("nodot".to_string())), Err(CsrfError::TokenInvalid)));
    assert!(matches!(svc.verify_token(&CsrfToken(String::new())), Err(CsrfError::TokenInvalid)));
}

#[test]
fn mac_that_is_not_base64_is_invalid() {
    let svc = service("s3cr3t");
    assert!(matches!(svc.verify_token(&CsrfToken("@@@@.sess-1!abc".to_string())), Err(CsrfError::TokenInvalid)));
    assert!(matches!(svc.verify_token(&CsrfToken("AAAA=.sess-1!abc".to_string())), Err(CsrfError::TokenInvalid)));
}

#[test]
fn token_with_a_third_segment_is_invalid() {
    let svc = service("s3cr3t");
    let t = svc.sign("sess-1", "abc");
    let extended = CsrfToken(format!("{}.trailing", t.0));
    assert!(matches!(svc.verify_token(&extended), Err(CsrfError::TokenInvalid)));
    let dotted = svc.sign("a.b", "abc");
    assert!(matches!(svc.verify_token(&dotted), Err(CsrfError::TokenInvalid)));
    assert_eq!(split_token("m.a.b"), None);
    assert_eq!(split_token("m.a"), Some(("m", "a")));
    assert_eq!(split_token("m."), Some(("m", "")));
    assert_eq!(split_token("m"), None);
}

#[test]
fn cookie_carries_the_token_with_strict_attributes() {
    let mut svc = service("s3cr3t");
    let (token, cookie) = svc.add_token("sess-1").unwrap();
    assert_eq!(cookie.name, CSRF_COOKIE_NAME);
    assert_eq!(cookie.name, "AntiCSRFToken");
    assert_eq!(cookie.value, token.0);
    assert_eq!(cookie.domain, "example.com");
    assert!(cookie.same_site_strict && cookie.secure && cookie.http_only);
}

#[test]
fn error_status_codes() {
    assert_eq!(CsrfError::TokenMissing.status_code(), 400);
    assert_eq!(CsrfError::TokenInvalid.status_code(), 400);
    assert_eq!(CsrfError::CouldNotVerify("t".to_string()).status_code(), 422);
    assert_eq!(CsrfError::ServiceMissing.status_code(), 500);
    assert_eq!(CsrfError::TokensDoNotMatch("a".to_string(), "b".to_string()).status_code(), 422);
}

#[test]
fn dot_put_into_the_mac_makes_the_token_invalid() {
    let svc = service("s3cr3t");
    let t = svc.sign("sess-1", "abc");
    let mac_len = t.0.find('.').unwrap();
    for k in 0..mac_len {
        let mut chars: Vec<char> = t.0.chars().collect();
        chars[k] = '.';
        let flipped = CsrfToken(chars.into_iter().collect());
        assert!(matches!(svc.verify_token(&flipped), Err(CsrfError::TokenInvalid)));
    }
}
