//! The calls into other crates, each with the contract that the rest of the library
//! builds on. None of these contracts is proved here.

use axum::http::{HeaderMap, HeaderValue, StatusCode};
use base64::{engine::general_purpose, Engine};
use jsonwebtoken::{Algorithm, DecodingKey, EncodingKey, Header, Validation};
use oauth2::{basic::BasicClient, AuthUrl, ClientId, CsrfToken, RedirectUrl, ResponseType, Scope};
use serde::de::IgnoredAny;
use std::collections::HashSet;
use vstd::prelude::*;

use crate::oauth::AppleClientSecretClaims;

verus! {

/// The header fields of an HTTP message.
#[verifier::external_type_specification]
#[verifier::external_body]
#[verifier::reject_recursive_types(T)]
pub struct ExHeaderMap<T>(HeaderMap<T>);

/// The value of one header field.
#[verifier::external_type_specification]
#[verifier::external_body]
pub struct ExHeaderValue(HeaderValue);

/// The first value of each header field, by the field's name in small letters.
pub uninterp spec fn header_fields(headers: HeaderMap<HeaderValue>) -> Map<Seq<char>, Seq<u8>>;

/// A header field's name of small letters and hyphens.
pub open spec fn plain_field_name(name: Seq<char>) -> bool {
    &&& 1 <= name.len() <= 64
    &&& forall|i: int| 0 <= i < name.len() ==> (#[trigger] name[i] == '-' || 'a' <= name[i] <= 'z')
}

/// `HeaderMap::get` gives the first value of the field with this name, or `None` where
/// there is no such field. The bytes of the value are handed out.
#[verifier::external_body]
pub(crate) fn first_field(headers: &HeaderMap<HeaderValue>, name: &str) -> (value: Option<Vec<u8>>)
    requires
        plain_field_name(name@),
    ensures
        match value {
            Some(bytes) => header_fields(*headers).contains_key(name@) && bytes@ == header_fields(
                *headers,
            )[name@],
            None => !header_fields(*headers).contains_key(name@),
        },
{
    headers.get(name).map(|value| value.as_bytes().to_vec())
}

/// A printing ASCII character, a space or a tab.
pub open spec fn visible_ascii(b: u8) -> bool {
    32 <= b < 127 || b == 9
}

/// The text of a header value that holds only visible ASCII.
pub open spec fn field_text(bytes: Seq<u8>) -> Option<Seq<char>> {
    if forall|i: int| 0 <= i < bytes.len() ==> visible_ascii(#[trigger] bytes[i]) {
        Some(Seq::new(bytes.len(), |i: int| bytes[i] as char))
    } else {
        None
    }
}

/// `HeaderValue::to_str` gives the bytes as text where all of them are visible ASCII and
/// refuses any other value; `HeaderValue::from_bytes` accepts all that it accepts.
#[verifier::external_body]
pub(crate) fn visible_text(bytes: &[u8]) -> (text: Option<String>)
    ensures
        text.deep_view() == field_text(bytes@),
{
    HeaderValue::from_bytes(bytes).ok()?.to_str().ok().map(|text| text.to_string())
}

/// An HTTP status code with its standard reason, as `StatusCode` displays it.
pub uninterp spec fn status_line(code: u16) -> Seq<char>;

/// `StatusCode::from_u16` accepts the codes of three digits; the `Display` of the result
/// is named.
#[verifier::external_body]
pub(crate) fn status_text(code: u16) -> (text: String)
    requires
        100 <= code <= 999,
    ensures
        text@ == status_line(code),
{
    StatusCode::from_u16(code).unwrap().to_string()
}

/// `Utc::now` with `DateTime::timestamp` gives the seconds since the start of 1970. The
/// clock is not before that, and chrono's dates end with the year 262142, some
/// 8.3 million million seconds on.
#[verifier::external_body]
pub(crate) fn unix_now() -> (seconds: i64)
    ensures
        0 <= seconds < 10_000_000_000_000,
{
    chrono::Utc::now().timestamp()
}

/// `OffsetDateTime::from_unix_timestamp` accepts the seconds from the start of the year
/// -9999 to the end of the year 9999.
#[verifier::external_body]
pub(crate) fn calendar_holds(seconds: i64) -> (held: bool)
    ensures
        held == calendar_seconds(seconds),
{
    time::OffsetDateTime::from_unix_timestamp(seconds).is_ok()
}

/// The seconds since the start of 1970 that fall into the years -9999 to 9999.
pub open spec fn calendar_seconds(seconds: i64) -> bool {
    -377_705_116_800 <= seconds <= 253_402_300_799
}

/// The characters of URL-safe base64.
pub open spec fn url_safe(c: char) -> bool {
    'A' <= c <= 'Z' || 'a' <= c <= 'z' || '0' <= c <= '9' || c == '-' || c == '_'
}

/// 128 bits in URL-safe base64 without padding.
pub open spec fn csrf_shaped(token: Seq<char>) -> bool {
    token.len() == 22 && forall|i: int| 0 <= i < token.len() ==> url_safe(#[trigger] token[i])
}

/// `CsrfToken::new_random` draws 16 random bytes and writes them in URL-safe base64
/// without padding.
#[verifier::external_body]
pub(crate) fn random_csrf_token() -> (token: String)
    ensures
        csrf_shaped(token@),
{
    CsrfToken::new_random().secret().to_string()
}

/// A hexadecimal digit in small letters.
pub open spec fn small_hex(c: char) -> bool {
    '0' <= c <= '9' || 'a' <= c <= 'f'
}

/// The text of a random UUID: 32 hexadecimal digits in five groups, with the version and
/// the variant in their places.
pub open spec fn uuid_shaped(id: Seq<char>) -> bool {
    &&& id.len() == 36
    &&& forall|i: int|
        0 <= i < 36 ==> if i == 8 || i == 13 || i == 18 || i == 23 {
            #[trigger] id[i] == '-'
        } else {
            small_hex(id[i])
        }
    &&& id[14] == '4'
    &&& id[19] == '8' || id[19] == '9' || id[19] == 'a' || id[19] == 'b'
}

/// `Uuid::new_v4` draws a random UUID of version 4, and `to_string` writes it with
/// hyphens in small letters.
#[verifier::external_body]
pub(crate) fn random_uuid() -> (id: String)
    ensures
        uuid_shaped(id@),
{
    uuid::Uuid::new_v4().to_string()
}

/// Whether a text parses as an absolute URL.
pub uninterp spec fn valid_url(text: Seq<char>) -> bool;

/// `RedirectUrl::new` accepts exactly what `Url::parse` accepts, as `AuthUrl::new` and
/// `TokenUrl::new` do, which come from the same macro.
#[verifier::external_body]
pub(crate) fn parses_as_url(text: &str) -> (valid: bool)
    ensures
        valid == valid_url(text@),
{
    RedirectUrl::new(text.to_string()).is_ok()
}

/// The authorization URL that the OAuth client with this identifier, authorization
/// endpoint and redirect URL gives for a request with this state, these scopes, this
/// response type and these further parameters.
pub uninterp spec fn authorization_url(
    client_id: Seq<char>,
    auth_url: Seq<char>,
    redirect_url: Seq<char>,
    state: Seq<char>,
    scopes: Seq<Seq<char>>,
    response_type: Seq<char>,
    parameters: Seq<(Seq<char>, Seq<char>)>,
) -> Seq<char>;

/// `Client::authorize_url` with `AuthorizationRequest::url`: the URL is named. It does
/// not depend on the client's secret nor on its token endpoint, so neither is set.
#[verifier::external_body]
pub(crate) fn authorize(
    client_id: &str,
    auth_url: &str,
    redirect_url: &str,
    state: &str,
    scopes: &Vec<String>,
    response_type: &str,
    parameters: &Vec<(String, String)>,
) -> (url: String)
    requires
        valid_url(auth_url@),
        valid_url(redirect_url@),
    ensures
        url@ == authorization_url(
            client_id@,
            auth_url@,
            redirect_url@,
            state@,
            scopes.deep_view(),
            response_type@,
            parameters.deep_view(),
        ),
{
    let endpoint = AuthUrl::new(auth_url.to_string()).unwrap();
    let redirect = RedirectUrl::new(redirect_url.to_string()).unwrap();
    let client = BasicClient::new(ClientId::new(client_id.to_string()), None, endpoint, None)
        .set_redirect_uri(redirect);
    let request = client
        .authorize_url(|| CsrfToken::new(state.to_string()))
        .add_scopes(scopes.iter().map(|scope| Scope::new(scope.to_string())))
        .set_response_type(&ResponseType::new(response_type.to_string()));
    let request = parameters.iter().fold(request, |r, p| r.add_extra_param(&p.0, &p.1));
    request.url().0.to_string()
}

/// What a text in standard base64 with padding encodes, or the decoder's complaint.
pub uninterp spec fn base64_content(text: Seq<char>) -> Result<Seq<u8>, Seq<char>>;

/// `general_purpose::STANDARD.decode`: the outcome is named, an error by its `Display`.
#[verifier::external_body]
pub(crate) fn decode_base64(text: &str) -> (bytes: Result<Vec<u8>, String>)
    ensures
        crate::errors::result_view(bytes) == base64_content(text@),
{
    general_purpose::STANDARD.decode(text).map_err(|e| e.to_string())
}

/// Whether a PEM file holds a private EC key in PKCS#8 form, or the reader's complaint.
pub uninterp spec fn ec_private_key(pem: Seq<u8>) -> Result<(), Seq<char>>;

/// `EncodingKey::from_ec_pem`: whether it accepts the file is named, with the `Display`
/// of its error; the key itself is dropped.
#[verifier::external_body]
pub(crate) fn check_ec_pem(pem: &[u8]) -> (accepted: Result<(), String>)
    ensures
        crate::errors::result_view(accepted) == ec_private_key(pem@),
{
    EncodingKey::from_ec_pem(pem).map(|_| ()).map_err(|e| e.to_string())
}

/// The tokens that signing these claims by ES256 with this key can give; the signature
/// holds a random part, so there are many.
pub uninterp spec fn es256_tokens(
    pem: Seq<u8>,
    key_id: Seq<char>,
    iss: Seq<char>,
    iat: i64,
    exp: i64,
    aud: Seq<char>,
    sub: Seq<char>,
) -> Set<Seq<char>>;

/// `jsonwebtoken::encode` with an ES256 header that names the key: a token that it gives
/// is one of those named. Whether it gives one is left open, for the random source may
/// fail and the key may be of another curve.
#[verifier::external_body]
pub(crate) fn sign_es256(pem: &[u8], key_id: &str, claims: &AppleClientSecretClaims) -> (token:
    Result<String, String>)
    requires
        ec_private_key(pem@) is Ok,
    ensures
        token matches Ok(t) ==> es256_tokens(
            pem@,
            key_id@,
            claims.iss@,
            claims.iat,
            claims.exp,
            claims.aud@,
            claims.sub@,
        ).contains(t@),
{
    let key = EncodingKey::from_ec_pem(pem).map_err(|e| e.to_string())?;
    let mut header = Header::new(Algorithm::ES256);
    header.kid = Some(key_id.to_string());
    let mut fields = serde_json::Map::new();
    fields.insert("iss".to_string(), claims.iss.clone().into());
    fields.insert("iat".to_string(), claims.iat.into());
    fields.insert("exp".to_string(), claims.exp.into());
    fields.insert("aud".to_string(), claims.aud.clone().into());
    fields.insert("sub".to_string(), claims.sub.clone().into());
    jsonwebtoken::encode(&header, &fields, &key).map_err(|e| e.to_string())
}

/// What is found when a token is examined without a look at its signature: the time at
/// which it expires, in seconds since the start of 1970, where the token is well formed
/// and names one, and the verdict while that time has not passed. That is to accept it, or
/// the complaint that it is not well formed, names no such time or, if an audience is
/// given, is meant for others alone.
pub uninterp spec fn token_findings(token: Seq<char>, audience: Option<Seq<char>>) -> (
    Option<u64>,
    Result<(), Seq<char>>,
);

/// The verdict on a token when those that expire before `deadline` are refused.
pub open spec fn verdict_by(
    findings: (Option<u64>, Result<(), Seq<char>>),
    deadline: u64,
) -> Result<(), Seq<char>> {
    match findings.0 {
        Some(expires) if expires < deadline => Err("ExpiredSignature"@),
        _ => findings.1,
    }
}

/// `jsonwebtoken::decode` with the check of the signature switched off and the claims
/// skipped. What is found is named, an error by its `Display`. The clock decides one thing
/// alone: a token that expires before the deadline, a minute before the time of the call,
/// is refused as expired, ahead of any complaint about the audience. Which time that is,
/// is left unsaid.
#[verifier::external_body]
pub(crate) fn examine_token(token: &str, audience: Option<&str>) -> (verdict: Result<(), String>)
    ensures
        exists|deadline: u64|
            crate::errors::result_view(verdict) == #[trigger] verdict_by(
                token_findings(token@, audience.deep_view()),
                deadline,
            ),
{
    let mut validation = Validation::new(Algorithm::RS256);
    validation.insecure_disable_signature_validation();
    validation.validate_aud = audience.is_some();
    validation.aud = audience.map(|name| HashSet::from([name.to_string()]));
    let key = DecodingKey::from_rsa_der(&[]);
    jsonwebtoken::decode::<IgnoredAny>(token, &key, &validation)
        .map(|_| ())
        .map_err(|e| e.to_string())
}

} // verus!
