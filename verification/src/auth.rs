//! Authentication of requests to the admin API.
//!
//! A request is let through only when it carries `Authorization: Bearer <jwt>`,
//! the token's header names a key (`kid`) of the identity provider's key set,
//! the token verifies against that key for this client, its claims carry an
//! email, and the first admin user stored under that email is active.
//!
//! The checks run in steps. [`AuthMidleware::check_request`] reads the header and
//! the token's header; the caller then verifies the token (the signature check
//! parses the claims into [`JwtParams`]) and hands the result to [`after_token`];
//! it then looks the email up in the database and hands the rows to
//! [`after_users`]. Each step answers with the next [`AuthStep`].
use crate::schema::AdminUser;
use vstd::prelude::*;
use vstd::string::*;

verus! {

#[verifier::external_type_specification]
#[verifier::external_body]
pub struct ExJwks(jwks::Jwks);

/// The key ids (`kid`) under which a `jwks::Jwks` holds its keys.
pub uninterp spec fn jwks_key_ids(keys: jwks::Jwks) -> Set<Seq<char>>;

/// `keys.keys.contains_key(kid)` on the `HashMap` of a `jwks::Jwks`: whether a key
/// is held under `kid`.
#[verifier::external_body]
fn jwks_has_kid(keys: &jwks::Jwks, kid: &str) -> (b: bool)
    ensures
        b == jwks_key_ids(*keys).contains(kid@),
{
    keys.keys.contains_key(kid)
}

/// What `jsonwebtoken::decode_header` makes of a token: the header's `kid` and the
/// name of its `alg`, or the text of the error.
pub uninterp spec fn decoded_token_header(token: Seq<char>) -> Result<
    (Option<Seq<char>>, Seq<char>),
    Seq<char>,
>;

/// The header of a JSON web token, as far as the checks read it.
#[derive(Debug, Clone, PartialEq)]
pub struct TokenHeader {
    pub kid: Option<String>,
    /// The name of the signing algorithm, such as `RS256`.
    pub alg: String,
}

pub open spec fn opt_string_view(s: Option<String>) -> Option<Seq<char>> {
    match s {
        Some(t) => Some(t@),
        None => None,
    }
}

pub open spec fn header_view(h: Result<TokenHeader, String>) -> Result<
    (Option<Seq<char>>, Seq<char>),
    Seq<char>,
> {
    match h {
        Ok(h) => Ok((opt_string_view(h.kid), h.alg@)),
        Err(e) => Err(e@),
    }
}

pub open spec fn has_no_dot(s: Seq<char>) -> bool {
    forall|i: int| 0 <= i < s.len() ==> s[i] != '.'
}

/// `jsonwebtoken::decode_header(token)`, with the header's `alg` given by its
/// variant name and an error by its `Display` text. The result is named by
/// `decoded_token_header`; the source also shows that a token without a dot
/// (which cannot hold the three parts of a JWT) fails with `InvalidToken`.
#[verifier::external_body]
fn decode_token_header(token: &str) -> (r: Result<TokenHeader, String>)
    ensures
        header_view(r) == decoded_token_header(token@),
        r is Ok ==> !has_no_dot(token@),
        r matches Err(e) ==> (has_no_dot(token@) ==> e@ == "InvalidToken"@),
{
    match jsonwebtoken::decode_header(token) {
        Ok(h) => Ok(TokenHeader { kid: h.kid, alg: format!("{:?}", h.alg) }),
        Err(e) => Err(e.to_string()),
    }
}

pub open spec fn is_visible_ascii(b: u8) -> bool {
    (32 <= b && b < 127) || b == 9
}

pub open spec fn all_visible_ascii(raw: Seq<u8>) -> bool {
    forall|i: int| 0 <= i < raw.len() ==> is_visible_ascii(#[trigger] raw[i])
}

pub open spec fn ascii_text(raw: Seq<u8>) -> Seq<char> {
    raw.map_values(|b: u8| b as char)
}

/// `http::HeaderValue::from_bytes(raw)` followed by `to_str()`: the text of a header
/// value whose bytes are all visible ASCII (or tab), and nothing otherwise.
#[verifier::external_body]
fn header_value_text(raw: &[u8]) -> (r: Option<String>)
    ensures
        r is Some <==> all_visible_ascii(raw@),
        r matches Some(t) ==> t@ == ascii_text(raw@),
{
    match http::HeaderValue::from_bytes(raw) {
        Ok(v) => match v.to_str() {
            Ok(s) => Some(s.to_string()),
            Err(_) => None,
        },
        Err(_) => None,
    }
}

pub open spec fn starts_with(s: Seq<char>, prefix: Seq<char>) -> bool {
    prefix.len() <= s.len() && s.subrange(0, prefix.len() as int) == prefix
}

/// Whether `s` begins with `prefix`.
pub fn has_prefix(s: &str, prefix: &str) -> (b: bool)
    ensures
        b == starts_with(s@, prefix@),
{
    let n = s.unicode_len();
    let m = prefix.unicode_len();
    if m > n {
        return false;
    }
    let mut i: usize = 0;
    while i < m
        invariant
            m == prefix@.len(),
            n == s@.len(),
            m <= n,
            i <= m,
            forall|j: int| 0 <= j < i ==> s@[j] == prefix@[j],
        decreases m - i,
    {
        if s.get_char(i) != prefix.get_char(i) {
            assert(s@.subrange(0, m as int)[i as int] != prefix@[i as int]);
            return false;
        }
        i = i + 1;
    }
    assert(s@.subrange(0, m as int) =~= prefix@);
    true
}

pub open spec fn bearer_prefix() -> Seq<char> {
    seq!['B', 'e', 'a', 'r', 'e', 'r', ' ']
}

/// The claims of a token that the checks read.
#[derive(Debug, Clone, PartialEq)]
pub struct JwtParams {
    pub sub: String,
    pub nickname: Option<String>,
    pub email: Option<String>,
    pub email_verified: Option<bool>,
}

/// Why a request was refused.
#[derive(Debug, Clone, PartialEq)]
pub enum AuthError {
    MissingAuthorizationHeader,
    NotBearerToken,
    InvalidTokenHeader(String),
    MissingKid,
    UnknownKid,
    InvalidToken(String),
    MissingEmail,
    UserLookupFailed(String),
    UserNotFound,
    UserNotActive,
}

pub enum AuthErrorView {
    MissingAuthorizationHeader,
    NotBearerToken,
    InvalidTokenHeader(Seq<char>),
    MissingKid,
    UnknownKid,
    InvalidToken(Seq<char>),
    MissingEmail,
    UserLookupFailed(Seq<char>),
    UserNotFound,
    UserNotActive,
}

impl View for AuthError {
    type V = AuthErrorView;

    open spec fn view(&self) -> AuthErrorView {
        match self {
            AuthError::MissingAuthorizationHeader => AuthErrorView::MissingAuthorizationHeader,
            AuthError::NotBearerToken => AuthErrorView::NotBearerToken,
            AuthError::InvalidTokenHeader(e) => AuthErrorView::InvalidTokenHeader(e@),
            AuthError::MissingKid => AuthErrorView::MissingKid,
            AuthError::UnknownKid => AuthErrorView::UnknownKid,
            AuthError::InvalidToken(e) => AuthErrorView::InvalidToken(e@),
            AuthError::MissingEmail => AuthErrorView::MissingEmail,
            AuthError::UserLookupFailed(e) => AuthErrorView::UserLookupFailed(e@),
            AuthError::UserNotFound => AuthErrorView::UserNotFound,
            AuthError::UserNotActive => AuthErrorView::UserNotActive,
        }
    }
}

/// The HTTP status a refusal is answered with: 500 when the user lookup failed,
/// 400 otherwise.
pub open spec fn error_status(e: AuthErrorView) -> u16 {
    match e {
        AuthErrorView::UserLookupFailed(_) => 500,
        _ => 400,
    }
}

/// The text a refusal is answered with.
pub open spec fn error_message(e: AuthErrorView) -> Seq<char> {
    match e {
        AuthErrorView::MissingAuthorizationHeader => "Missing authorization header"@,
        AuthErrorView::NotBearerToken => "Not Bearer token"@,
        AuthErrorView::InvalidTokenHeader(msg) => msg,
        AuthErrorView::MissingKid => "Token header missing kid"@,
        AuthErrorView::UnknownKid => "Kid not found in Jwks"@,
        AuthErrorView::InvalidToken(msg) => msg,
        AuthErrorView::MissingEmail => "Missing Email"@,
        AuthErrorView::UserLookupFailed(msg) => msg,
        AuthErrorView::UserNotFound => "user not found"@,
        AuthErrorView::UserNotActive => "user not actived"@,
    }
}

impl AuthError {
    pub fn status(&self) -> (s: u16)
        ensures
            s == error_status(self@),
    {
        match self {
            AuthError::UserLookupFailed(_) => 500,
            _ => 400,
        }
    }

    pub fn message(&self) -> (m: String)
        ensures
            m@ == error_message(self@),
    {
        match self {
            AuthError::MissingAuthorizationHeader => String::from_str("Missing authorization header"),
            AuthError::NotBearerToken => String::from_str("Not Bearer token"),
            AuthError::InvalidTokenHeader(msg) => msg.clone(),
            AuthError::MissingKid => String::from_str("Token header missing kid"),
            AuthError::UnknownKid => String::from_str("Kid not found in Jwks"),
            AuthError::InvalidToken(msg) => msg.clone(),
            AuthError::MissingEmail => String::from_str("Missing Email"),
            AuthError::UserLookupFailed(msg) => msg.clone(),
            AuthError::UserNotFound => String::from_str("user not found"),
            AuthError::UserNotActive => String::from_str("user not actived"),
        }
    }
}

/// What the middleware does next.
#[derive(Debug, Clone, PartialEq)]
pub enum AuthStep {
    /// Verify `token` with the key held under `kid`, for the given algorithm, and
    /// with `audience` as the only accepted audience.
    VerifyToken { token: String, kid: String, algorithm: String, audience: String },
    /// Fetch the admin users whose email is `email`.
    LookupUser { email: String },
    /// Pass the request on to the protected endpoint.
    Forward,
    /// Answer the request with the error.
    Reject(AuthError),
}

pub enum AuthStepView {
    VerifyToken { token: Seq<char>, kid: Seq<char>, algorithm: Seq<char>, audience: Seq<char> },
    LookupUser { email: Seq<char> },
    Forward,
    Reject(AuthErrorView),
}

impl View for AuthStep {
    type V = AuthStepView;

    open spec fn view(&self) -> AuthStepView {
        match self {
            AuthStep::VerifyToken { token, kid, algorithm, audience } => AuthStepView::VerifyToken {
                token: token@,
                kid: kid@,
                algorithm: algorithm@,
                audience: audience@,
            },
            AuthStep::LookupUser { email } => AuthStepView::LookupUser { email: email@ },
            AuthStep::Forward => AuthStepView::Forward,
            AuthStep::Reject(e) => AuthStepView::Reject(e@),
        }
    }
}

/// The step after the token's header has been decoded.
pub open spec fn header_step(
    token: Seq<char>,
    header: Result<(Option<Seq<char>>, Seq<char>), Seq<char>>,
    key_ids: Set<Seq<char>>,
    audience: Seq<char>,
) -> AuthStepView {
    match header {
        Err(e) => AuthStepView::Reject(AuthErrorView::InvalidTokenHeader(e)),
        Ok((kid, alg)) => match kid {
            None => AuthStepView::Reject(AuthErrorView::MissingKid),
            Some(k) => if key_ids.contains(k) {
                AuthStepView::VerifyToken { token, kid: k, algorithm: alg, audience }
            } else {
                AuthStepView::Reject(AuthErrorView::UnknownKid)
            },
        },
    }
}

/// The token that an `Authorization` header value carries after `Bearer `.
pub open spec fn bearer_token(text: Seq<char>) -> Seq<char> {
    text.subrange(bearer_prefix().len() as int, text.len() as int)
}

/// The first step, on the raw bytes of the `Authorization` header (if any).
pub open spec fn request_step(
    authorization: Option<Seq<u8>>,
    key_ids: Set<Seq<char>>,
    audience: Seq<char>,
) -> AuthStepView {
    match authorization {
        None => AuthStepView::Reject(AuthErrorView::MissingAuthorizationHeader),
        Some(raw) => if !all_visible_ascii(raw) {
            AuthStepView::Reject(AuthErrorView::MissingAuthorizationHeader)
        } else if !starts_with(ascii_text(raw), bearer_prefix()) {
            AuthStepView::Reject(AuthErrorView::NotBearerToken)
        } else {
            let token = bearer_token(ascii_text(raw));
            header_step(token, decoded_token_header(token), key_ids, audience)
        },
    }
}

/// The step after the token was verified (with its claims) or refused (with the
/// text of the error).
pub open spec fn token_step(decoded: Result<Option<Seq<char>>, Seq<char>>) -> AuthStepView {
    match decoded {
        Err(e) => AuthStepView::Reject(AuthErrorView::InvalidToken(e)),
        Ok(email) => match email {
            None => AuthStepView::Reject(AuthErrorView::MissingEmail),
            Some(m) => AuthStepView::LookupUser { email: m },
        },
    }
}

/// The step after the admin users with the token's email were fetched.
pub open spec fn users_step(found: Result<Seq<AdminUser>, Seq<char>>) -> AuthStepView {
    match found {
        Err(e) => AuthStepView::Reject(AuthErrorView::UserLookupFailed(e)),
        Ok(users) => if users.len() == 0 {
            AuthStepView::Reject(AuthErrorView::UserNotFound)
        } else if !users[0].active {
            AuthStepView::Reject(AuthErrorView::UserNotActive)
        } else {
            AuthStepView::Forward
        },
    }
}

pub open spec fn claims_view(decoded: Result<JwtParams, String>) -> Result<
    Option<Seq<char>>,
    Seq<char>,
> {
    match decoded {
        Ok(p) => Ok(opt_string_view(p.email)),
        Err(e) => Err(e@),
    }
}

pub open spec fn users_view(found: Result<Vec<AdminUser>, String>) -> Result<
    Seq<AdminUser>,
    Seq<char>,
> {
    match found {
        Ok(v) => Ok(v@),
        Err(e) => Err(e@),
    }
}

pub open spec fn bytes_view(authorization: Option<&[u8]>) -> Option<Seq<u8>> {
    match authorization {
        Some(b) => Some(b@),
        None => None,
    }
}

/// The URL of the identity provider's key set for an Auth0 domain.
pub open spec fn spec_jwks_url(auth0_domain: Seq<char>) -> Seq<char> {
    "https://"@ + auth0_domain + "/.well-known/jwks.json"@
}

pub fn jwks_url(auth0_domain: &str) -> (url: String)
    ensures
        url@ == spec_jwks_url(auth0_domain@),
{
    let mut url = String::from_str("https://");
    url.append(auth0_domain);
    url.append("/.well-known/jwks.json");
    url
}

/// The authentication middleware: the identity provider's key set and the client
/// id that tokens must be issued for.
pub struct AuthMidleware {
    jwks: jwks::Jwks,
    auth0_client_id: String,
}

impl AuthMidleware {
    /// The key set that the middleware holds, decoding keys included.
    pub closed spec fn keys(&self) -> jwks::Jwks {
        self.jwks
    }

    /// The ids of the keys that tokens may be signed with.
    pub open spec fn key_ids(&self) -> Set<Seq<char>> {
        jwks_key_ids(self.keys())
    }

    /// The audience that tokens must be issued for.
    pub closed spec fn audience(&self) -> Seq<char> {
        self.auth0_client_id@
    }

    pub fn new(jwks: jwks::Jwks, auth0_client_id: &str) -> (m: AuthMidleware)
        ensures
            m.keys() == jwks,
            m.key_ids() == jwks_key_ids(jwks),
            m.audience() == auth0_client_id@,
    {
        AuthMidleware { jwks, auth0_client_id: String::from_str(auth0_client_id) }
    }

    /// The key set, from which the caller takes the key that a token is verified with.
    pub fn jwks(&self) -> (keys: &jwks::Jwks)
        ensures
            *keys == self.keys(),
            jwks_key_ids(*keys) == self.key_ids(),
    {
        &self.jwks
    }

    /// First step: reads the bytes of the request's `Authorization` header.
    pub fn check_request(&self, authorization: Option<&[u8]>) -> (r: AuthStep)
        ensures
            r@ == request_step(bytes_view(authorization), self.key_ids(), self.audience()),
    {
        let raw = match authorization {
            None => {
                return AuthStep::Reject(AuthError::MissingAuthorizationHeader);
            },
            Some(raw) => raw,
        };
        let text = match header_value_text(raw) {
            None => {
                return AuthStep::Reject(AuthError::MissingAuthorizationHeader);
            },
            Some(text) => text,
        };
        proof {
            reveal_strlit("Bearer ");
        }
        assert("Bearer "@ == bearer_prefix());
        if !has_prefix(text.as_str(), "Bearer ") {
            return AuthStep::Reject(AuthError::NotBearerToken);
        }
        let n = text.as_str().unicode_len();
        let token = text.as_str().substring_char(7, n);
        let header = decode_token_header(token);
        self.after_header(String::from_str(token), header)
    }

    /// Second step: judges the decoded header of `token`.
    pub fn after_header(&self, token: String, header: Result<TokenHeader, String>) -> (r:
        AuthStep)
        ensures
            r@ == header_step(token@, header_view(header), self.key_ids(), self.audience()),
            match header {
                Ok(h) => match h.kid {
                    Some(k) => self.key_ids().contains(k@) ==> r@ == (AuthStepView::VerifyToken {
                        token: token@,
                        kid: k@,
                        algorithm: h.alg@,
                        audience: self.audience(),
                    }),
                    None => true,
                },
                Err(_) => true,
            },
    {
        match header {
            Err(e) => AuthStep::Reject(AuthError::InvalidTokenHeader(e)),
            Ok(h) => match h.kid {
                None => AuthStep::Reject(AuthError::MissingKid),
                Some(kid) => {
                    if jwks_has_kid(&self.jwks, kid.as_str()) {
                        AuthStep::VerifyToken {
                            token,
                            kid,
                            algorithm: h.alg,
                            audience: self.auth0_client_id.clone(),
                        }
                    } else {
                        AuthStep::Reject(AuthError::UnknownKid)
                    }
                },
            },
        }
    }
}

/// Third step: judges the outcome of verifying the token.
pub fn after_token(decoded: Result<JwtParams, String>) -> (r: AuthStep)
    ensures
        r@ == token_step(claims_view(decoded)),
        match decoded {
            Ok(p) => match p.email {
                Some(m) => r == (AuthStep::LookupUser { email: m }),
                None => true,
            },
            Err(_) => true,
        },
{
    match decoded {
        Err(e) => AuthStep::Reject(AuthError::InvalidToken(e)),
        Ok(params) => match params.email {
            None => AuthStep::Reject(AuthError::MissingEmail),
            Some(email) => AuthStep::LookupUser { email },
        },
    }
}

/// Last step: judges the admin users stored under the token's email.
pub fn after_users(found: Result<Vec<AdminUser>, String>) -> (r: AuthStep)
    ensures
        r@ == users_step(users_view(found)),
        r is Forward <==> (found matches Ok(users) && users.len() > 0 && users[0].active),
        match found {
            Ok(users) => {
                &&& users.len() == 0 ==> r == AuthStep::Reject(AuthError::UserNotFound)
                &&& users.len() > 0 && !users[0].active ==> r == AuthStep::Reject(
                    AuthError::UserNotActive,
                )
            },
            Err(e) => r == AuthStep::Reject(AuthError::UserLookupFailed(e)),
        },
{
    match found {
        Err(e) => AuthStep::Reject(AuthError::UserLookupFailed(e)),
        Ok(users) => {
            if users.len() == 0 {
                AuthStep::Reject(AuthError::UserNotFound)
            } else if !users[0].active {
                AuthStep::Reject(AuthError::UserNotActive)
            } else {
                AuthStep::Forward
            }
        },
    }
}

/// A request reaches the protected endpoint only when every check passed: it
/// carried a readable `Authorization: Bearer <token>` header, the token's header
/// names a known key, the step after it asked to verify exactly that token for
/// this client's audience, the verified claims carry an email, and the first user
/// found under it is active.
pub proof fn lemma_forward_requires_every_check(
    authorization: Option<Seq<u8>>,
    key_ids: Set<Seq<char>>,
    audience: Seq<char>,
    decoded: Result<Option<Seq<char>>, Seq<char>>,
    found: Result<Seq<AdminUser>, Seq<char>>,
)
    requires
        request_step(authorization, key_ids, audience) is VerifyToken,
        token_step(decoded) is LookupUser,
        users_step(found) is Forward,
    ensures
        authorization matches Some(raw) && {
            &&& all_visible_ascii(raw)
            &&& starts_with(ascii_text(raw), bearer_prefix())
            &&& decoded_token_header(bearer_token(ascii_text(raw))) matches Ok((Some(kid), alg))
                && key_ids.contains(kid) && request_step(authorization, key_ids, audience)
                == (AuthStepView::VerifyToken {
                token: bearer_token(ascii_text(raw)),
                kid,
                algorithm: alg,
                audience,
            })
        },
        decoded matches Ok(Some(_)),
        found matches Ok(users) && users.len() > 0 && users[0].active,
{
}

/// A verified token whose claims carry an email leads to looking up exactly that
/// email; the user lookup is asked for only then.
pub proof fn lemma_verified_email_is_looked_up(
    m: Seq<char>,
    decoded: Result<Option<Seq<char>>, Seq<char>>,
)
    ensures
        token_step(Ok(Some(m))) == (AuthStepView::LookupUser { email: m }),
        token_step(decoded) is LookupUser <==> decoded matches Ok(Some(_)),
        token_step(decoded) matches AuthStepView::LookupUser { email } ==> decoded == Ok::<
            Option<Seq<char>>,
            Seq<char>,
        >(Some(email)),
{
}

/// A decoded header whose kid is held in the key set always leads to verifying the
/// token with that kid, the header's algorithm and the client's audience; and only
/// such a header leads there.
pub proof fn lemma_known_kid_goes_to_verification(
    token: Seq<char>,
    kid: Seq<char>,
    alg: Seq<char>,
    header: Result<(Option<Seq<char>>, Seq<char>), Seq<char>>,
    key_ids: Set<Seq<char>>,
    audience: Seq<char>,
)
    ensures
        key_ids.contains(kid) ==> header_step(token, Ok((Some(kid), alg)), key_ids, audience)
            == (AuthStepView::VerifyToken { token, kid, algorithm: alg, audience }),
        !key_ids.contains(kid) ==> header_step(token, Ok((Some(kid), alg)), key_ids, audience)
            == AuthStepView::Reject(AuthErrorView::UnknownKid),
        header_step(token, header, key_ids, audience) is VerifyToken <==> (header matches Ok(
            (Some(k), _),
        ) && key_ids.contains(k)),
{
}

/// A header `Bearer <token>` whose token decodes to a header naming a held kid
/// always leads to verifying that token with that kid.
pub proof fn lemma_bearer_with_known_kid_is_verified(
    token: Seq<u8>,
    kid: Seq<char>,
    alg: Seq<char>,
    key_ids: Set<Seq<char>>,
    audience: Seq<char>,
)
    requires
        all_visible_ascii(token),
        decoded_token_header(ascii_text(token)) == Ok::<(Option<Seq<char>>, Seq<char>), Seq<char>>(
            (Some(kid), alg),
        ),
        key_ids.contains(kid),
    ensures
        request_step(Some(bearer_prefix_bytes() + token), key_ids, audience) == (
        AuthStepView::VerifyToken { token: ascii_text(token), kid, algorithm: alg, audience }),
{
    lemma_bearer_header_yields_token(token, key_ids, audience);
}

/// The first user stored under the token's email decides: no user gives "user not
/// found", an inactive first user gives "user not actived", an active one lets the
/// request through, and a failed lookup is refused with its own text.
pub proof fn lemma_first_user_decides(users: Seq<AdminUser>, e: Seq<char>)
    ensures
        users.len() == 0 ==> users_step(Ok(users)) == AuthStepView::Reject(
            AuthErrorView::UserNotFound,
        ),
        users.len() > 0 && !users[0].active ==> users_step(Ok(users)) == AuthStepView::Reject(
            AuthErrorView::UserNotActive,
        ),
        users.len() > 0 && users[0].active ==> users_step(Ok(users)) == AuthStepView::Forward,
        users_step(Err(e)) == AuthStepView::Reject(AuthErrorView::UserLookupFailed(e)),
{
}

/// A request without a readable `Authorization` header, or with one that does not
/// start with `Bearer `, is refused before its token is looked at.
pub proof fn lemma_header_refusals(
    raw: Seq<u8>,
    key_ids: Set<Seq<char>>,
    audience: Seq<char>,
)
    ensures
        request_step(None, key_ids, audience) == AuthStepView::Reject(
            AuthErrorView::MissingAuthorizationHeader,
        ),
        !all_visible_ascii(raw) ==> request_step(Some(raw), key_ids, audience)
            == AuthStepView::Reject(AuthErrorView::MissingAuthorizationHeader),
        all_visible_ascii(raw) && !starts_with(ascii_text(raw), bearer_prefix()) ==> request_step(
            Some(raw),
            key_ids,
            audience,
        ) == AuthStepView::Reject(AuthErrorView::NotBearerToken),
{
}

/// Every refusal is answered as a client error (400), except a failed user lookup,
/// which is a server error (500).
pub proof fn lemma_refusal_status(e: AuthErrorView)
    ensures
        error_status(e) == 500 <==> e is UserLookupFailed,
        error_status(e) == 400 <==> !(e is UserLookupFailed),
{
}

pub open spec fn bearer_prefix_bytes() -> Seq<u8> {
    seq![66u8, 101u8, 97u8, 114u8, 101u8, 114u8, 32u8]
}

/// A header made of `Bearer ` and a token of visible ASCII passes the header
/// checks, and what is checked next is exactly that token's decoded header.
pub proof fn lemma_bearer_header_yields_token(
    token: Seq<u8>,
    key_ids: Set<Seq<char>>,
    audience: Seq<char>,
)
    requires
        all_visible_ascii(token),
    ensures
        request_step(Some(bearer_prefix_bytes() + token), key_ids, audience) == header_step(
            ascii_text(token),
            decoded_token_header(ascii_text(token)),
            key_ids,
            audience,
        ),
{
    let raw = bearer_prefix_bytes() + token;
    assert forall|i: int| 0 <= i < raw.len() implies is_visible_ascii(#[trigger] raw[i]) by {
        if i >= 7 {
            assert(raw[i] == token[i - 7]);
        }
    }
    let text = ascii_text(raw);
    assert(text.subrange(0, 7) =~= bearer_prefix());
    assert(bearer_token(text) =~= ascii_text(token));
}

} // verus!
