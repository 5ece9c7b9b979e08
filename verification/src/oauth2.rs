//! The OAuth2 JWT-bearer exchange with the token endpoint: the signed
//! assertion, the request that carries it, and the reading of the reply.

use crate::helpers::{
    content_type_of, get_content_type, ContentType, ContentTypeView, HeaderError, HeaderMap,
};
use crate::json::{
    json_escape, json_escaped, json_string_field, json_string_member, json_u64_field,
    json_u64_member,
};
use crate::outside::{
    base64_input_limit, base64url_encode, base64url_text, latest_clock_time, percent_encoded,
    rsa_sha256_signature, rsa_sign_sha256, sha256, sha256_digest, unix_now, url_encode,
};
use crate::text::{signed_decimal_string, signed_decimal_text, str_eq};
use vstd::prelude::*;
use vstd::utf8::*;

verus! {

/// The longest validity, in seconds, that an assertion asks for.
pub const MAX_VALIDITY_SECS: u64 = 3600;

/// A Google service account, as its credentials file describes it.
#[derive(Debug, Clone, PartialEq, Eq)]
pub struct ServiceAccountData {
    pub client_email: String,
    pub token_uri: String,
    /// The private key, PKCS#8 in PEM.
    pub private_key: String,
}

/// The mathematical content of a [`ServiceAccountData`].
pub ghost struct ServiceAccountView {
    pub client_email: Seq<char>,
    pub token_uri: Seq<char>,
    pub private_key: Seq<char>,
}

impl View for ServiceAccountData {
    type V = ServiceAccountView;

    open spec fn view(&self) -> ServiceAccountView {
        ServiceAccountView {
            client_email: self.client_email@,
            token_uri: self.token_uri@,
            private_key: self.private_key@,
        }
    }
}

/// The account that a credentials document describes: it needs the three
/// members `client_email`, `token_uri` and `private_key`, all strings.
pub open spec fn service_account_of(document: Seq<u8>) -> Option<ServiceAccountView> {
    match (
        json_string_member(document, "client_email"@),
        json_string_member(document, "token_uri"@),
        json_string_member(document, "private_key"@),
    ) {
        (Some(client_email), Some(token_uri), Some(private_key)) => Some(
            ServiceAccountView { client_email, token_uri, private_key },
        ),
        _ => None,
    }
}

/// The view of an optional account.
pub open spec fn account_view(a: Option<ServiceAccountData>) -> Option<ServiceAccountView> {
    match a {
        Some(a) => Some(a@),
        None => None,
    }
}

impl ServiceAccountData {
    /// Reads the account from the bytes of a credentials file.
    pub fn parse(document: &[u8]) -> (r: Option<ServiceAccountData>)
        ensures
            account_view(r) == service_account_of(document@),
    {
        let client_email = match json_string_field(document, "client_email") {
            Some(v) => v,
            None => {
                return None;
            },
        };
        let token_uri = match json_string_field(document, "token_uri") {
            Some(v) => v,
            None => {
                return None;
            },
        };
        let private_key = match json_string_field(document, "private_key") {
            Some(v) => v,
            None => {
                return None;
            },
        };
        Some(ServiceAccountData { client_email, token_uri, private_key })
    }
}

/// An access token as the token endpoint grants it.
#[derive(Debug, Clone, PartialEq, Eq)]
pub struct TokenData {
    pub access_token: String,
    /// Seconds for which the token is good, counted from the grant.
    pub expires_in: u64,
}

/// The mathematical content of a [`TokenData`].
pub ghost struct TokenDataView {
    pub access_token: Seq<char>,
    pub expires_in: u64,
}

impl View for TokenData {
    type V = TokenDataView;

    open spec fn view(&self) -> TokenDataView {
        TokenDataView { access_token: self.access_token@, expires_in: self.expires_in }
    }
}

/// The view of an optional grant.
pub open spec fn token_data_view(t: Option<TokenData>) -> Option<TokenDataView> {
    match t {
        Some(t) => Some(t@),
        None => None,
    }
}

/// The grant that a reply body holds: it needs the string `access_token` and
/// the non-negative integer `expires_in`.
pub open spec fn token_data_of(body: Seq<u8>) -> Option<TokenDataView> {
    match (json_string_member(body, "access_token"@), json_u64_member(body, "expires_in"@)) {
        (Some(access_token), Some(expires_in)) => Some(TokenDataView { access_token, expires_in }),
        _ => None,
    }
}

impl TokenData {
    /// Reads a grant from a reply body.
    pub fn try_parse_from_data(body: &[u8]) -> (r: Option<TokenData>)
        ensures
            token_data_view(r) == token_data_of(body@),
    {
        let access_token = match json_string_field(body, "access_token") {
            Some(v) => v,
            None => {
                return None;
            },
        };
        let expires_in = match json_u64_field(body, "expires_in") {
            Some(v) => v,
            None => {
                return None;
            },
        };
        Some(TokenData { access_token, expires_in })
    }
}

/// Why no assertion could be built.
#[derive(Debug, Clone, Copy, PartialEq, Eq, Structural)]
pub enum JwtError {
    /// The private key could not be read or could not sign.
    CryptoError,
    /// The end of the validity is no representable time.
    TimeError,
}

/// The fixed header `{"alg":"RS256","typ":"JWT"}` in base64url.
pub open spec fn jwt_header() -> Seq<char> {
    "eyJhbGciOiJSUzI1NiIsInR5cCI6IkpXVCJ9"@
}

/// The validity that an assertion asks for: the wish, capped at an hour.
pub open spec fn capped_validity(duration_secs: u64) -> int {
    if duration_secs > MAX_VALIDITY_SECS {
        MAX_VALIDITY_SECS as int
    } else {
        duration_secs as int
    }
}

/// The claims of an assertion issued at `iat` and good until `exp`: a JSON
/// object in which the account's address, the scope and the token endpoint
/// stand escaped as JSON strings.
pub open spec fn jwt_claims(
    account: ServiceAccountView,
    scopes: Seq<char>,
    iat: int,
    exp: int,
) -> Seq<char> {
    "{\"iss\":\""@ + json_escaped(account.client_email) + "\",\"scope\":\""@ + json_escaped(
        scopes,
    ) + "\",\"aud\":\""@ + json_escaped(account.token_uri) + "\",\"exp\":"@
        + signed_decimal_text(exp) + ",\"iat\":"@ + signed_decimal_text(iat) + "}"@
}

/// What gets signed: header and claims, each in base64url, with a dot
/// between them.
pub open spec fn jwt_signing_input(claims: Seq<char>) -> Seq<char> {
    jwt_header() + "."@ + base64url_text(encode_utf8(claims))
}

/// The assertion: what was signed, a dot, and the signature in base64url.
pub open spec fn jwt_text(signing_input: Seq<char>, signature: Seq<u8>) -> Seq<char> {
    signing_input + "."@ + base64url_text(signature)
}

/// The assertion of an account for a scope, asked for at the time `now` in
/// seconds since the Unix epoch. It is signed with RS256: the RSA signature of
/// the SHA-256 digest of the signing input.
pub open spec fn jwt_at(
    account: ServiceAccountView,
    scopes: Seq<char>,
    duration_secs: u64,
    now: i64,
) -> Result<Seq<char>, JwtError> {
    let exp = now + capped_validity(duration_secs);
    if exp > i64::MAX {
        Err(JwtError::TimeError)
    } else {
        let claims = jwt_claims(account, scopes, now as int, exp);
        if encode_utf8(claims).len() > base64_input_limit() {
            Err(JwtError::CryptoError)
        } else {
            let input = jwt_signing_input(claims);
            match rsa_sha256_signature(account.private_key, sha256_digest(encode_utf8(input))) {
                Some(signature) => if signature.len() > base64_input_limit() {
                    Err(JwtError::CryptoError)
                } else {
                    Ok(jwt_text(input, signature))
                },
                None => Err(JwtError::CryptoError),
            }
        }
    }
}

/// The view of an assertion or its failure.
pub open spec fn jwt_view(r: Result<String, JwtError>) -> Result<Seq<char>, JwtError> {
    match r {
        Ok(s) => Ok(s@),
        Err(e) => Err(e),
    }
}

/// Builds the assertion for a given time of issue.
pub fn build_jwt_string_at(
    service_acc_data: &ServiceAccountData,
    scopes: &str,
    duration_secs: u64,
    now: i64,
) -> (r: Result<String, JwtError>)
    ensures
        jwt_view(r) == jwt_at(service_acc_data@, scopes@, duration_secs, now),
{
    let validity: i64 = if duration_secs > MAX_VALIDITY_SECS {
        MAX_VALIDITY_SECS as i64
    } else {
        duration_secs as i64
    };
    let exp = match now.checked_add(validity) {
        Some(exp) => exp,
        None => {
            return Err(JwtError::TimeError);
        },
    };
    let mut claims = String::from_str("{\"iss\":\"");
    let issuer = json_escape(service_acc_data.client_email.as_str());
    claims.append(issuer.as_str());
    claims.append("\",\"scope\":\"");
    let scope = json_escape(scopes);
    claims.append(scope.as_str());
    claims.append("\",\"aud\":\"");
    let audience = json_escape(service_acc_data.token_uri.as_str());
    claims.append(audience.as_str());
    claims.append("\",\"exp\":");
    let exp_text = signed_decimal_string(exp);
    claims.append(exp_text.as_str());
    claims.append(",\"iat\":");
    let iat_text = signed_decimal_string(now);
    claims.append(iat_text.as_str());
    claims.append("}");
    assert(claims@ == jwt_claims(service_acc_data@, scopes@, now as int, exp as int));
    let claim_bytes = claims.as_str().as_bytes();
    if claim_bytes.len() > (usize::MAX / 4) * 3 {
        return Err(JwtError::CryptoError);
    }
    let mut input = String::from_str("eyJhbGciOiJSUzI1NiIsInR5cCI6IkpXVCJ9");
    input.append(".");
    let encoded_claims = base64url_encode(claim_bytes);
    input.append(encoded_claims.as_str());
    assert(input@ == jwt_signing_input(claims@));
    let digest = sha256(input.as_str().as_bytes());
    let key = service_acc_data.private_key.as_str();
    let signature = match rsa_sign_sha256(key, digest.as_slice()) {
        Some(signature) => signature,
        None => {
            return Err(JwtError::CryptoError);
        },
    };
    if signature.len() > (usize::MAX / 4) * 3 {
        return Err(JwtError::CryptoError);
    }
    let encoded_signature = base64url_encode(signature.as_slice());
    let mut jwt = input;
    jwt.append(".");
    jwt.append(encoded_signature.as_str());
    Ok(jwt)
}

/// Whether a time is one that the wall clock can show: a time from the Unix
/// epoch on, and no later than the clock can hold.
pub open spec fn is_clock_time(now: i64) -> bool {
    0 <= now <= latest_clock_time()
}

/// At a time that the wall clock can show, the end of the validity is a
/// representable time: no assertion fails for the time.
pub proof fn lemma_clock_time_has_expiry(
    account: ServiceAccountView,
    scopes: Seq<char>,
    duration_secs: u64,
    now: i64,
)
    requires
        is_clock_time(now),
    ensures
        jwt_at(account, scopes, duration_secs, now) != Err::<Seq<char>, JwtError>(
            JwtError::TimeError,
        ),
{
}

/// Builds the assertion as of now.
///
/// The time of issue is read from the wall clock, so the contract speaks of
/// some time that the clock can show: [`build_jwt_string_at`] says what comes
/// out for each. At such a time the end of the validity can always be
/// computed, so the only failure left is that of the key.
pub fn build_jwt_string(
    service_acc_data: &ServiceAccountData,
    scopes: &str,
    duration_secs: u64,
) -> (r: Result<String, JwtError>)
    ensures
        exists|now: i64|
            is_clock_time(now) && jwt_view(r) == #[trigger] jwt_at(
                service_acc_data@,
                scopes@,
                duration_secs,
                now,
            ),
        !(r matches Err(JwtError::TimeError)),
{
    let now = unix_now();
    build_jwt_string_at(service_acc_data, scopes, duration_secs, now)
}

/// The request that asks the token endpoint for a grant.
#[derive(Debug, Clone, PartialEq, Eq)]
pub struct TokenRequest {
    pub method: String,
    /// Whether the request goes out over HTTP/2.
    pub http2: bool,
    pub url: String,
    pub accept: String,
    pub content_type: String,
    pub user_agent: String,
    /// The form that carries the assertion.
    pub body: String,
}

/// The mathematical content of a [`TokenRequest`].
pub ghost struct TokenRequestView {
    pub method: Seq<char>,
    pub http2: bool,
    pub url: Seq<char>,
    pub accept: Seq<char>,
    pub content_type: Seq<char>,
    pub user_agent: Seq<char>,
    pub body: Seq<char>,
}

impl View for TokenRequest {
    type V = TokenRequestView;

    open spec fn view(&self) -> TokenRequestView {
        TokenRequestView {
            method: self.method@,
            http2: self.http2,
            url: self.url@,
            accept: self.accept@,
            content_type: self.content_type@,
            user_agent: self.user_agent@,
            body: self.body@,
        }
    }
}

/// The form of a token request: the grant type of the JWT-bearer flow and the
/// assertion, both URL-encoded.
pub open spec fn token_form(jwt: Seq<char>) -> Seq<char> {
    "grant_type=urn%3Aietf%3Aparams%3Aoauth%3Agrant-type%3Ajwt-bearer&assertion="@
        + percent_encoded(encode_utf8(jwt))
}

/// The request that carries the given assertion to an account's token
/// endpoint: a POST over HTTP/2 that accepts JSON and carries the form.
pub open spec fn token_request_for(
    account: ServiceAccountView,
    jwt: Seq<char>,
) -> TokenRequestView {
    TokenRequestView {
        method: "POST"@,
        http2: true,
        url: account.token_uri,
        accept: "application/json"@,
        content_type: "application/x-www-form-urlencoded"@,
        user_agent: "hyper"@,
        body: token_form(jwt),
    }
}

/// What came back from an HTTP request: the status, the headers and the whole
/// body.
#[derive(Debug, Clone, PartialEq, Eq)]
pub struct HttpReply {
    pub status: u16,
    pub headers: HeaderMap,
    pub body: Vec<u8>,
}

/// The mathematical content of an [`HttpReply`].
pub ghost struct HttpReplyView {
    pub status: u16,
    pub headers: Seq<(Seq<char>, Seq<u8>)>,
    pub body: Seq<u8>,
}

impl View for HttpReply {
    type V = HttpReplyView;

    open spec fn view(&self) -> HttpReplyView {
        HttpReplyView { status: self.status, headers: self.headers@, body: self.body@ }
    }
}

/// Whether a status is one of success.
pub open spec fn is_success(status: u16) -> bool {
    200 <= status && status < 300
}

/// Whether a status is one of success.
pub fn status_is_success(status: u16) -> (r: bool)
    ensures
        r == is_success(status),
{
    200 <= status && status < 300
}

/// Why the token endpoint granted nothing.
#[derive(Debug, Clone, Copy, PartialEq, Eq, Structural)]
pub enum TokenError {
    /// No assertion could be built.
    Jwt(JwtError),
    /// The request could not be sent or the reply not received.
    Transport,
    /// `Content-Type` of the reply is unreadable.
    Header(HeaderError),
    /// The endpoint answered with a status other than success.
    InvalidTokenRequest,
    /// The reply names no content type.
    MissingContentType,
    /// The reply is no JSON.
    WrongContentType,
    /// The body holds no grant.
    BodyParsing,
}

/// Whether a media type is exactly `application/json`.
pub open spec fn is_json(t: ContentTypeView) -> bool {
    t.type_ == "application"@ && t.subtype == "json"@ && t.suffix is None
}

/// What a reply of the token endpoint means: a reply with a status of
/// success and the content type JSON holds the grant of its body, and every
/// other reply is a failure. An unreadable content type is reported first,
/// then the status, then the content type, then the body.
pub open spec fn grant_of_reply(reply: HttpReplyView) -> Result<TokenDataView, TokenError> {
    match content_type_of(reply.headers) {
        Err(e) => Err(TokenError::Header(e)),
        Ok(content_type) => if !is_success(reply.status) {
            Err(TokenError::InvalidTokenRequest)
        } else {
            match content_type {
                None => Err(TokenError::MissingContentType),
                Some(t) => if is_json(t) {
                    match token_data_of(reply.body) {
                        Some(data) => Ok(data),
                        None => Err(TokenError::BodyParsing),
                    }
                } else {
                    Err(TokenError::WrongContentType)
                },
            }
        },
    }
}

/// A grant is read exactly from the replies that have a status of success,
/// the content type JSON and a body that holds a grant.
pub proof fn lemma_grant_needs_success_and_json(reply: HttpReplyView)
    ensures
        grant_of_reply(reply) is Ok <==> is_success(reply.status) && (content_type_of(
            reply.headers,
        ) matches Ok(Some(t)) && is_json(t)) && token_data_of(reply.body) is Some,
        grant_of_reply(reply) matches Ok(data) ==> token_data_of(reply.body) == Some(data),
{
}

/// The view of a grant or its failure.
pub open spec fn grant_view(r: Result<TokenData, TokenError>) -> Result<TokenDataView, TokenError> {
    match r {
        Ok(t) => Ok(t@),
        Err(e) => Err(e),
    }
}

impl ContentType {
    /// Whether this is exactly `application/json`.
    pub fn is_json(&self) -> (r: bool)
        ensures
            r == is_json(self@),
    {
        str_eq(self.type_.as_str(), "application") && str_eq(self.subtype.as_str(), "json")
            && self.suffix.is_none()
    }
}

/// Reads the reply of the token endpoint.
pub fn read_token_reply(reply: &HttpReply) -> (r: Result<TokenData, TokenError>)
    ensures
        grant_view(r) == grant_of_reply(reply@),
{
    let content_type = match get_content_type(&reply.headers) {
        Err(e) => {
            return Err(TokenError::Header(e));
        },
        Ok(t) => t,
    };
    if !status_is_success(reply.status) {
        return Err(TokenError::InvalidTokenRequest);
    }
    match content_type {
        None => Err(TokenError::MissingContentType),
        Some(t) => {
            if t.is_json() {
                match TokenData::try_parse_from_data(reply.body.as_slice()) {
                    Some(data) => Ok(data),
                    None => Err(TokenError::BodyParsing),
                }
            } else {
                Err(TokenError::WrongContentType)
            }
        },
    }
}

/// Builds the request that carries an assertion to the token endpoint.
pub fn build_token_request(service_acc_data: &ServiceAccountData, jwt: &str) -> (r: TokenRequest)
    ensures
        r@ == token_request_for(service_acc_data@, jwt@),
{
    let mut body = String::from_str(
        "grant_type=urn%3Aietf%3Aparams%3Aoauth%3Agrant-type%3Ajwt-bearer&assertion=",
    );
    let assertion = url_encode(jwt);
    body.append(assertion.as_str());
    TokenRequest {
        method: String::from_str("POST"),
        http2: true,
        url: service_acc_data.token_uri.clone(),
        accept: String::from_str("application/json"),
        content_type: String::from_str("application/x-www-form-urlencoded"),
        user_agent: String::from_str("hyper"),
        body,
    }
}

/// What happened in an exchange with the token endpoint.
#[derive(Debug, Clone, PartialEq, Eq)]
pub enum TokenExchangeEvent {
    /// A grant is wanted.
    Start,
    /// The endpoint answered.
    Reply(HttpReply),
    /// The request could not be sent, or its reply not received.
    Failed,
}

/// The mathematical content of a [`TokenExchangeEvent`].
pub ghost enum TokenExchangeEventView {
    Start,
    Reply(HttpReplyView),
    Failed,
}

impl View for TokenExchangeEvent {
    type V = TokenExchangeEventView;

    open spec fn view(&self) -> TokenExchangeEventView {
        match *self {
            TokenExchangeEvent::Start => TokenExchangeEventView::Start,
            TokenExchangeEvent::Reply(reply) => TokenExchangeEventView::Reply(reply@),
            TokenExchangeEvent::Failed => TokenExchangeEventView::Failed,
        }
    }
}

/// What an exchange with the token endpoint does next.
#[derive(Debug, PartialEq, Eq)]
pub enum TokenExchangeStep {
    /// Send this request and come back with the reply.
    Send(TokenRequest),
    /// The exchange is over.
    Done(Result<TokenData, TokenError>),
}

/// The mathematical content of a [`TokenExchangeStep`].
pub ghost enum TokenExchangeStepView {
    Send(TokenRequestView),
    Done(Result<TokenDataView, TokenError>),
}

impl View for TokenExchangeStep {
    type V = TokenExchangeStepView;

    open spec fn view(&self) -> TokenExchangeStepView {
        match *self {
            TokenExchangeStep::Send(request) => TokenExchangeStepView::Send(request@),
            TokenExchangeStep::Done(r) => TokenExchangeStepView::Done(grant_view(r)),
        }
    }
}

/// The step that starts an exchange at the time `now`: the request that
/// carries a fresh assertion, or the end of the exchange where none can be
/// built.
pub open spec fn exchange_start(
    account: ServiceAccountView,
    scopes: Seq<char>,
    duration_secs: u64,
    now: i64,
) -> TokenExchangeStepView {
    match jwt_at(account, scopes, duration_secs, now) {
        Ok(jwt) => TokenExchangeStepView::Send(token_request_for(account, jwt)),
        Err(e) => TokenExchangeStepView::Done(Err(TokenError::Jwt(e))),
    }
}

/// The step that follows an event of the exchange, where the exchange had
/// started at the time `now`: a reply ends it with the grant it holds or with
/// the reason why it holds none, and a failed transport ends it.
pub open spec fn exchange_step(
    account: ServiceAccountView,
    scopes: Seq<char>,
    duration_secs: u64,
    event: TokenExchangeEventView,
    now: i64,
) -> TokenExchangeStepView {
    match event {
        TokenExchangeEventView::Start => exchange_start(account, scopes, duration_secs, now),
        TokenExchangeEventView::Reply(reply) => TokenExchangeStepView::Done(grant_of_reply(reply)),
        TokenExchangeEventView::Failed => TokenExchangeStepView::Done(
            Err(TokenError::Transport),
        ),
    }
}

/// Runs one step of the exchange with the token endpoint, as of the given
/// time.
pub fn get_token_data_at(
    service_acc_data: &ServiceAccountData,
    scopes: &str,
    duration_secs: u64,
    event: TokenExchangeEvent,
    now: i64,
) -> (step: TokenExchangeStep)
    ensures
        step@ == exchange_step(service_acc_data@, scopes@, duration_secs, event@, now),
{
    match event {
        TokenExchangeEvent::Start => {
            match build_jwt_string_at(service_acc_data, scopes, duration_secs, now) {
                Ok(jwt) => TokenExchangeStep::Send(
                    build_token_request(service_acc_data, jwt.as_str()),
                ),
                Err(e) => TokenExchangeStep::Done(Err(TokenError::Jwt(e))),
            }
        },
        TokenExchangeEvent::Reply(reply) => TokenExchangeStep::Done(read_token_reply(&reply)),
        TokenExchangeEvent::Failed => TokenExchangeStep::Done(Err(TokenError::Transport)),
    }
}

/// Runs one step of the exchange with the token endpoint.
///
/// At the start it signs an assertion as of now and says which request to
/// send, or fails where no assertion can be built. On a reply it reads the
/// grant. A failed transport ends the exchange.
///
/// The time of issue is read from the wall clock, so the contract speaks of
/// some time that the clock can show: [`get_token_data_at`] says what comes
/// out for each. Only the start depends on the time, and it never fails for
/// the time.
pub fn get_token_data(
    service_acc_data: &ServiceAccountData,
    scopes: &str,
    duration_secs: u64,
    event: TokenExchangeEvent,
) -> (step: TokenExchangeStep)
    ensures
        exists|now: i64|
            is_clock_time(now) && step@ == #[trigger] exchange_step(
                service_acc_data@,
                scopes@,
                duration_secs,
                event@,
                now,
            ),
        event@ is Start ==> step@ != TokenExchangeStepView::Done(
            Err(TokenError::Jwt(JwtError::TimeError)),
        ),
        !(event@ is Start) ==> step@ == exchange_step(
            service_acc_data@,
            scopes@,
            duration_secs,
            event@,
            0,
        ),
{
    match event {
        TokenExchangeEvent::Start => {
            let now = unix_now();
            get_token_data_at(
                service_acc_data,
                scopes,
                duration_secs,
                TokenExchangeEvent::Start,
                now,
            )
        },
        event => get_token_data_at(service_acc_data, scopes, duration_secs, event, 0),
    }
}

} // verus!
