//! Anti-forgery tokens bound to a session: issuing, verifying and the
//! double-submit check of a submitted payload against the token cookie.
use crate::codec::{
    b64url_decoded, b64url_encoded, decode_b64url, encode_b64url, hmac_sha256, hmac_tag,
    hmac_tag_matches, is_url_safe_char,
};
use rand::SeedableRng;
use vstd::prelude::*;

verus! {

/// Name of the cookie that carries the token.
pub const CSRF_COOKIE_NAME: &'static str = "AntiCSRFToken";

#[verifier::external_type_specification]
#[verifier::external_body]
pub struct ExStdRng(rand::rngs::StdRng);

#[verifier::external_type_specification]
#[verifier::external_body]
pub struct ExRandError(rand::Error);

/// Relies on `rand::SeedableRng::from_rng` with `rand::rngs::OsRng`: a
/// generator seeded from the operating system, or the error the operating
/// system reported.
#[verifier::external_body]
fn entropy_rng() -> (r: Result<rand::rngs::StdRng, rand::Error>) {
    rand::rngs::StdRng::from_rng(rand::rngs::OsRng)
}

/// Relies on `rand::Fill::try_fill` for `[u8; 32]`: when it succeeds the
/// array holds the 32 bytes drawn.
#[verifier::external_body]
fn draw_32_bytes(rng: &mut rand::rngs::StdRng) -> (r: Result<Vec<u8>, rand::Error>)
    ensures
        r matches Ok(v) ==> v@.len() == 32,
{
    let mut buf = [0u8; 32];
    match rand::Fill::try_fill(&mut buf, rng) {
        Ok(()) => Ok(buf.to_vec()),
        Err(e) => Err(e),
    }
}

/// First index at or after `i` where `s` holds `c`, or the length of `s`.
pub open spec fn find_from(s: Seq<char>, c: char, i: int) -> int
    decreases s.len() - i,
{
    if i < 0 || i >= s.len() {
        s.len() as int
    } else if s[i] == c {
        i
    } else {
        find_from(s, c, i + 1)
    }
}

/// Index of the dot that ends the MAC segment (the length when there is none).
pub open spec fn mac_end(t: Seq<char>) -> int {
    find_from(t, '.', 0)
}

/// A token has the shape `<mac>.<message>`: exactly one dot.
pub open spec fn well_shaped(t: Seq<char>) -> bool {
    mac_end(t) < t.len() && find_from(t, '.', mac_end(t) + 1) == t.len()
}

/// The text before the first dot.
pub open spec fn mac_part(t: Seq<char>) -> Seq<char> {
    t.take(mac_end(t))
}

/// The text after the first dot.
pub open spec fn message_part(t: Seq<char>) -> Seq<char> {
    t.subrange(mac_end(t) + 1, t.len() as int)
}

/// The signed message for a session and a random value: `<session>!<random>`.
pub open spec fn token_message(session_id: Seq<char>, random: Seq<char>) -> Seq<char> {
    session_id + seq!['!'] + random
}

/// The token text for a message: `<base64url tag>.<message>`.
pub open spec fn token_text(secret: Seq<u8>, msg: Seq<char>) -> Seq<char> {
    b64url_encoded(hmac_sha256(secret, msg)) + seq!['.'] + msg
}

/// What verification makes of a token.
pub enum TokenCheck {
    /// Not exactly one dot, or a MAC segment that is not base64url.
    Malformed,
    /// A well-formed token whose tag is not that of its message.
    Mismatch,
    /// The MAC segment is the encoded tag of the message under the secret.
    Valid,
}

/// The outcome of verifying token text `t` under `secret`.
pub open spec fn token_check(secret: Seq<u8>, t: Seq<char>) -> TokenCheck {
    if !well_shaped(t) || b64url_decoded(mac_part(t)) is None {
        TokenCheck::Malformed
    } else if b64url_decoded(mac_part(t)) == Some(hmac_sha256(secret, message_part(t)))
        && mac_part(t) == b64url_encoded(hmac_sha256(secret, message_part(t))) {
        TokenCheck::Valid
    } else {
        TokenCheck::Mismatch
    }
}


/// First index at or after `from` where `s` holds `c`, or the length of `s`.
fn find_char(s: &str, c: char, from: usize) -> (r: usize)
    requires
        from <= s@.len(),
    ensures
        r == find_from(s@, c, from as int),
{
    let n = s.unicode_len();
    let mut i: usize = from;
    while i < n
        invariant
            from <= i <= n,
            n == s@.len(),
            find_from(s@, c, from as int) == find_from(s@, c, i as int),
        decreases n - i,
    {
        if s.get_char(i) == c {
            return i;
        }
        i = i + 1;
    }
    i
}

/// Splits token text of the shape `<mac>.<message>` into its two segments;
/// `None` when it holds no dot or more than one.
pub fn split_token(t: &str) -> (r: Option<(&str, &str)>)
    ensures
        r is Some <==> well_shaped(t@),
        r matches Some((m, g)) ==> m@ == mac_part(t@) && g@ == message_part(t@),
{
    let n = t.unicode_len();
    let dot = find_char(t, '.', 0);
    if dot >= n {
        return None;
    }
    let end = find_char(t, '.', dot + 1);
    proof {
        lemma_find_from_bounds(t@, '.', dot as int + 1);
    }
    if end < n {
        return None;
    }
    Some((t.substring_char(0, dot), t.substring_char(dot + 1, n)))
}

/// `find_from` lands between its start and the length.
pub proof fn lemma_find_from_bounds(s: Seq<char>, c: char, i: int)
    requires
        0 <= i <= s.len(),
    ensures
        i <= find_from(s, c, i) <= s.len(),
    decreases s.len() - i,
{
    if i < s.len() && s[i] != c {
        lemma_find_from_bounds(s, c, i + 1);
    }
}

/// The token text, as carried in the cookie and in submitted payloads.
#[derive(Clone, Debug, PartialEq, Eq, Hash)]
pub struct CsrfToken(pub String);

impl View for CsrfToken {
    type V = Seq<char>;

    open spec fn view(&self) -> Seq<char> {
        self.0@
    }
}

impl CsrfToken {
    pub fn new(value: String) -> (r: CsrfToken)
        ensures
            r@ == value@,
    {
        CsrfToken(value)
    }

    pub fn as_str(&self) -> (r: &str)
        ensures
            r@ == self@,
    {
        self.0.as_str()
    }
}


/// A random value as issued: the base64url text of 32 random bytes.
pub open spec fn is_random_value(rv: Seq<char>) -> bool {
    &&& exists|b: Seq<u8>| b.len() == 32 && rv == #[trigger] b64url_encoded(b)
    &&& forall|i: int| 0 <= i < rv.len() ==> is_url_safe_char(#[trigger] rv[i])
}

/// `t` is a token issued for `session_id` under `secret`.
pub open spec fn is_issued_token(secret: Seq<u8>, session_id: Seq<char>, t: Seq<char>) -> bool {
    exists|rv: Seq<char>|
        is_random_value(rv) && t == token_text(secret, #[trigger] token_message(session_id, rv))
}

/// Between `i` and `j` there is no `c`, so the search from `i` goes on at `j`.
proof fn lemma_find_from_skips(s: Seq<char>, c: char, i: int, j: int)
    requires
        0 <= i <= j <= s.len(),
        forall|k: int| i <= k < j ==> s[k] != c,
    ensures
        find_from(s, c, i) == find_from(s, c, j),
    decreases j - i,
{
    if i < j {
        lemma_find_from_skips(s, c, i + 1, j);
    }
}

/// Token text built from a dot-free message and a dot-free encoded tag that
/// decodes back to the tag is valid.
proof fn lemma_token_text_valid(secret: Seq<u8>, msg: Seq<char>)
    requires
        !msg.contains('.'),
        b64url_decoded(b64url_encoded(hmac_sha256(secret, msg))) == Some(hmac_sha256(secret, msg)),
        !b64url_encoded(hmac_sha256(secret, msg)).contains('.'),
    ensures
        token_check(secret, token_text(secret, msg)) == TokenCheck::Valid,
{
    let mac = b64url_encoded(hmac_sha256(secret, msg));
    let t = token_text(secret, msg);
    let l = mac.len() as int;
    assert forall|k: int| 0 <= k < l implies t[k] != '.' by {
        assert(t[k] == mac[k]);
    }
    lemma_find_from_skips(t, '.', 0, l);
    assert(t[l] == '.');
    assert forall|k: int| l + 1 <= k < t.len() implies t[k] != '.' by {
        assert(t[k] == msg[k - l - 1]);
    }
    lemma_find_from_skips(t, '.', l + 1, t.len() as int);
    assert(mac_part(t) =~= mac);
    assert(message_part(t) =~= msg);
}

/// Issues and checks tokens under a fixed secret, for cookies of one domain.
pub struct CsrfService {
    secret: Vec<u8>,
    domain: String,
    rng: rand::rngs::StdRng,
}

/// The attributes of the cookie that carries a token.
pub struct TokenCookie {
    pub name: String,
    pub value: String,
    pub domain: String,
    pub same_site_strict: bool,
    pub secure: bool,
    pub http_only: bool,
}

impl CsrfService {
    pub closed spec fn secret(&self) -> Seq<u8> {
        self.secret@
    }

    pub closed spec fn domain(&self) -> Seq<char> {
        self.domain@
    }

    /// A service for `secret` and `domain`, with a generator seeded from the
    /// operating system; fails when the operating system gives no seed.
    pub fn new(secret: Vec<u8>, domain: String) -> (r: Result<CsrfService, CsrfError>)
        ensures
            r matches Ok(s) ==> s.secret() == secret@ && s.domain() == domain@,
            r matches Err(e) ==> e is CouldNotProduceToken,
    {
        match entropy_rng() {
            Ok(rng) => Ok(CsrfService { secret, domain, rng }),
            Err(e) => Err(CsrfError::CouldNotProduceToken(e)),
        }
    }

    /// Signs `<session_id>!<random_value>` and returns `<tag>.<message>`.
    pub fn sign(&self, session_id: &str, random_value: &str) -> (r: CsrfToken)
        ensures
            r@ == token_text(self.secret(), token_message(session_id@, random_value@)),
            !session_id@.contains('.') && !random_value@.contains('.') ==> token_check(
                self.secret(),
                r@,
            ) == TokenCheck::Valid,
    {
        let mut message = String::from_str(session_id);
        message.append("!");
        message.append(random_value);
        let tag = hmac_tag(self.secret.as_slice(), message.as_str());
        let mut token = encode_b64url(tag.as_slice());
        let ghost mac = token@;
        token.append(".");
        token.append(message.as_str());
        proof {
            reveal_strlit("!");
            reveal_strlit(".");
            let msg = token_message(session_id@, random_value@);
            assert(message@ =~= msg);
            assert(token@ =~= token_text(self.secret(), msg));
            if !session_id@.contains('.') && !random_value@.contains('.') {
                assert forall|k: int| 0 <= k < msg.len() implies msg[k] != '.' by {
                    if k < session_id@.len() {
                        assert(msg[k] == session_id@[k]);
                    } else if k > session_id@.len() {
                        assert(msg[k] == random_value@[k - session_id@.len() - 1]);
                    }
                }
                assert forall|k: int| 0 <= k < mac.len() implies mac[k] != '.' by {
                    assert(is_url_safe_char(mac[k]));
                }
                lemma_token_text_valid(self.secret(), msg);
            }
        }
        CsrfToken(token)
    }

    /// Checks that the token's MAC segment is the tag of its message.
    pub fn verify_token(&self, token: &CsrfToken) -> (r: Result<(), CsrfError>)
        ensures
            r is Ok <==> token_check(self.secret(), token@) == TokenCheck::Valid,
            r matches Err(CsrfError::TokenInvalid) <==> token_check(self.secret(), token@)
                == TokenCheck::Malformed,
            token_check(self.secret(), token@) == TokenCheck::Mismatch ==> (r matches Err(
                CsrfError::CouldNotVerify(s),
            ) && s@ == token@),
    {
        let (mac, msg) = match split_token(token.0.as_str()) {
            None => return Err(CsrfError::TokenInvalid),
            Some(parts) => parts,
        };
        let tag = match decode_b64url(mac) {
            Err(_) => return Err(CsrfError::TokenInvalid),
            Ok(v) => v,
        };
        if hmac_tag_matches(self.secret.as_slice(), msg, tag.as_slice()) {
            Ok(())
        } else {
            Err(CsrfError::CouldNotVerify(token.0.clone()))
        }
    }

    /// Issues a fresh token for `session_id`.
    pub fn issue(&mut self, session_id: &str) -> (r: Result<CsrfToken, CsrfError>)
        ensures
            final(self).secret() == old(self).secret(),
            final(self).domain() == old(self).domain(),
            r matches Err(e) ==> e is CouldNotProduceToken,
            r matches Ok(t) ==> is_issued_token(old(self).secret(), session_id@, t@),
            r matches Ok(t) ==> (!session_id@.contains('.') ==> token_check(
                old(self).secret(),
                t@,
            ) == TokenCheck::Valid),
    {
        let bytes = match draw_32_bytes(&mut self.rng) {
            Err(e) => return Err(CsrfError::CouldNotProduceToken(e)),
            Ok(b) => b,
        };
        let random_value = encode_b64url(bytes.as_slice());
        proof {
            assert(random_value@ == b64url_encoded(bytes@));
            assert forall|k: int| 0 <= k < random_value@.len() implies random_value@[k] != '.' by {
                assert(is_url_safe_char(random_value@[k]));
            }
        }
        let t = self.sign(session_id, random_value.as_str());
        proof {
            assert(is_random_value(random_value@));
            assert(t@ == token_text(self.secret(), token_message(session_id@, random_value@)));
        }
        Ok(t)
    }

    /// The cookie that carries `token`: strict same-site, secure, HTTP only,
    /// for the service's domain, with no expiry.
    pub fn token_cookie(&self, token: &CsrfToken) -> (r: TokenCookie)
        ensures
            r.name@ == CSRF_COOKIE_NAME@,
            r.value@ == token@,
            r.domain@ == self.domain(),
            r.same_site_strict,
            r.secure,
            r.http_only,
    {
        TokenCookie {
            name: String::from_str(CSRF_COOKIE_NAME),
            value: token.0.clone(),
            domain: self.domain.clone(),
            same_site_strict: true,
            secure: true,
            http_only: true,
        }
    }

    /// Issues a token for `session_id` together with the cookie to send it in.
    pub fn add_token(&mut self, session_id: &str) -> (r: Result<(CsrfToken, TokenCookie), CsrfError>)
        ensures
            final(self).secret() == old(self).secret(),
            final(self).domain() == old(self).domain(),
            r matches Err(e) ==> e is CouldNotProduceToken,
            r matches Ok((t, c)) ==> {
                &&& is_issued_token(old(self).secret(), session_id@, t@)
                &&& (!session_id@.contains('.') ==> token_check(old(self).secret(), t@)
                    == TokenCheck::Valid)
                &&& c.name@ == CSRF_COOKIE_NAME@
                &&& c.value@ == t@
                &&& c.domain@ == old(self).domain()
                &&& c.same_site_strict && c.secure && c.http_only
            },
    {
        let token = self.issue(session_id)?;
        let cookie = self.token_cookie(&token);
        Ok((token, cookie))
    }
}

/// Why a token was refused or could not be made.
#[derive(Debug)]
pub enum CsrfError {
    TokenMissing,
    TokenInvalid,
    CouldNotVerify(String),
    ServiceMissing,
    CouldNotProduceToken(rand::Error),
    TokensDoNotMatch(String, String),
}

impl CsrfError {
    /// The HTTP status that answers this error.
    pub fn status_code(&self) -> (r: u16)
        ensures
            r == match self {
                CsrfError::TokenMissing | CsrfError::TokenInvalid => 400u16,
                CsrfError::CouldNotVerify(_) | CsrfError::TokensDoNotMatch(_, _) => 422u16,
                CsrfError::ServiceMissing | CsrfError::CouldNotProduceToken(_) => 500u16,
            },
    {
        match self {
            CsrfError::TokenMissing => 400,
            CsrfError::TokenInvalid => 400,
            CsrfError::CouldNotVerify(_) => 422,
            CsrfError::ServiceMissing => 500,
            CsrfError::CouldNotProduceToken(_) => 500,
            CsrfError::TokensDoNotMatch(_, _) => 422,
        }
    }
}

} // verus!

verus! {

/// A payload that carries the token it was submitted with.
pub trait HasCsrfToken {
    spec fn csrf_token_view(&self) -> Seq<char>;

    fn get_csrf_token(&self) -> (r: &CsrfToken)
        ensures
            r@ == self.csrf_token_view(),
    ;
}

/// A payload whose token matched the cookie and carried a valid tag.
#[derive(Debug)]
pub struct Csrf<T>(T);

impl<T> Csrf<T> {
    pub closed spec fn inner(&self) -> T {
        self.0
    }

    pub fn as_ref(&self) -> (r: &T)
        ensures
            *r == self.inner(),
    {
        &self.0
    }

    pub fn into_inner(self) -> (r: T)
        ensures
            r == self.inner(),
    {
        self.0
    }
}

impl<T: HasCsrfToken> Csrf<T> {
    /// The double-submit check: the token cookie must be present and equal to
    /// the payload's token, and that token must verify under the service's
    /// secret. The comparison comes first, so a mismatch is refused whatever
    /// the secret.
    pub fn validate(service: &CsrfService, cookie: Option<String>, payload: T) -> (r: Result<
        Csrf<T>,
        CsrfError,
    >)
        ensures
            cookie is None ==> r matches Err(CsrfError::TokenMissing),
            cookie matches Some(c) ==> (c@ != payload.csrf_token_view() ==> (r matches Err(
                CsrfError::TokensDoNotMatch(x, y),
            ) && x@ == c@ && y@ == payload.csrf_token_view())),
            cookie matches Some(c) ==> (c@ == payload.csrf_token_view() ==> {
                &&& (r is Ok <==> token_check(service.secret(), c@) == TokenCheck::Valid)
                &&& (r matches Err(CsrfError::TokenInvalid) <==> token_check(service.secret(), c@)
                    == TokenCheck::Malformed)
                &&& (token_check(service.secret(), c@) == TokenCheck::Mismatch ==> (r matches Err(
                    CsrfError::CouldNotVerify(s),
                ) && s@ == c@))
            }),
            r matches Ok(w) ==> w.inner() == payload,
    {
        let c = match cookie {
            None => return Err(CsrfError::TokenMissing),
            Some(c) => c,
        };
        let checked = {
            let token = payload.get_csrf_token();
            if !(c == token.0) {
                return Err(CsrfError::TokensDoNotMatch(c, token.0.clone()));
            }
            service.verify_token(token)
        };
        match checked {
            Ok(()) => Ok(Csrf(payload)),
            Err(e) => Err(e),
        }
    }
}

/// Every index before the first `c` found from `i` holds something else.
proof fn lemma_find_from_before(s: Seq<char>, c: char, i: int, j: int)
    requires
        0 <= i <= j < find_from(s, c, i),
    ensures
        s[j] != c,
    decreases j - i,
{
    if i < j {
        lemma_find_from_before(s, c, i + 1, j);
    }
}

/// Two texts of one length with `c` at the same places search alike.
proof fn lemma_find_from_same(s1: Seq<char>, s2: Seq<char>, c: char, i: int)
    requires
        s1.len() == s2.len(),
        0 <= i <= s1.len(),
        forall|j: int| 0 <= j < s1.len() ==> (s1[j] == c <==> s2[j] == c),
    ensures
        find_from(s1, c, i) == find_from(s2, c, i),
    decreases s1.len() - i,
{
    if i < s1.len() {
        lemma_find_from_same(s1, s2, c, i + 1);
    }
}

/// A search that stops before the end stops at a `c`.
proof fn lemma_find_from_found(s: Seq<char>, c: char, i: int)
    requires
        0 <= i,
        find_from(s, c, i) < s.len(),
    ensures
        s[find_from(s, c, i)] == c,
    decreases s.len() - i,
{
    if i < s.len() && s[i] != c {
        lemma_find_from_found(s, c, i + 1);
    }
}

/// A search from `i` stops at or before any `j >= i` that holds `c`.
proof fn lemma_find_from_at_most(s: Seq<char>, c: char, i: int, j: int)
    requires
        0 <= i <= j < s.len(),
        s[j] == c,
    ensures
        find_from(s, c, i) <= j,
    decreases j - i,
{
    if i < j && s[i] != c {
        lemma_find_from_at_most(s, c, i + 1, j);
    }
}

/// Changing one character of a valid token's MAC segment makes verification
/// fail. A dot put there gives a malformed token; any other character gives a
/// mismatch wherever the changed segment still decodes as base64url.
pub proof fn lemma_altered_mac_fails(secret: Seq<u8>, t: Seq<char>, k: int, c: char)
    requires
        token_check(secret, t) == TokenCheck::Valid,
        0 <= k < mac_part(t).len(),
        c != mac_part(t)[k],
    ensures
        token_check(secret, t.update(k, c)) != TokenCheck::Valid,
        c == '.' ==> token_check(secret, t.update(k, c)) == TokenCheck::Malformed,
        c != '.' && b64url_decoded(mac_part(t.update(k, c))) is Some ==> token_check(
            secret,
            t.update(k, c),
        ) == TokenCheck::Mismatch,
{
    lemma_find_from_bounds(t, '.', 0);
    assert(k < mac_end(t) < t.len());
    let t2 = t.update(k, c);
    lemma_find_from_before(t, '.', 0, k);
    if c == '.' {
        assert forall|j: int| 0 <= j < k implies t2[j] != '.' by {
            lemma_find_from_before(t, '.', 0, j);
        }
        lemma_find_from_skips(t2, '.', 0, k);
        assert(mac_end(t2) == k);
        lemma_find_from_found(t, '.', 0);
        assert(t2[mac_end(t)] == '.');
        lemma_find_from_at_most(t2, '.', k + 1, mac_end(t));
        assert(!well_shaped(t2));
    } else {
        lemma_find_from_same(t, t2, '.', 0);
        lemma_find_from_same(t, t2, '.', mac_end(t) + 1);
        assert(message_part(t2) =~= message_part(t));
        assert(mac_part(t2)[k] != mac_part(t)[k]);
    }
}

/// A token valid under secret `a` is refused as a mismatch under secret `b`
/// whenever the two secrets give its message different tags.
pub proof fn lemma_other_secret_fails(a: Seq<u8>, b: Seq<u8>, t: Seq<char>)
    requires
        token_check(a, t) == TokenCheck::Valid,
        hmac_sha256(a, message_part(t)) != hmac_sha256(b, message_part(t)),
    ensures
        token_check(b, t) == TokenCheck::Mismatch,
{
}

} // verus!
