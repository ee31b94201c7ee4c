//! Access control: credentials from an `Authorization` header of the
//! `Basic` scheme, and the decision that follows the identity lookup.

use crate::domain::value_objects::password_hash::password_hash_text;
use crate::domain::value_objects::PasswordHash;
use crate::error::{
    auth_failed, details_of, message_of, refusal, repository_failure, status_of,
    ApplicationError, ApplicationErrorView, RepositoryError, RepositoryErrorView, UNAUTHORIZED,
};
use crate::text::{after_first, before_first, same_text, split_first};
use vstd::prelude::*;
use vstd::utf8::{decode_utf8, valid_utf8};

verus! {

/// The bytes that a text stands for in Base64 with the URL-safe alphabet
/// and no padding; `None` where it is no such text.
pub uninterp spec fn base64_url_decoded(input: Seq<char>) -> Option<Seq<u8>>;

/// Decodes URL-safe Base64 without padding.
///
/// Trusted: wraps `base64_url::decode`. Whether the text decodes, and to
/// which bytes, depends on its characters alone.
#[verifier::external_body]
fn base64_url_decode(input: &str) -> (r: Option<Vec<u8>>)
    ensures
        r is Some <==> base64_url_decoded(input@) is Some,
        r matches Some(bytes) ==> base64_url_decoded(input@) == Some(bytes@),
{
    match base64_url::decode(input) {
        Ok(bytes) => Some(bytes),
        Err(_) => None,
    }
}

/// Reads bytes as UTF-8 text.
///
/// Trusted: wraps `String::from_utf8`, which succeeds exactly on valid
/// UTF-8 and then holds the characters that the bytes encode.
#[verifier::external_body]
fn string_from_utf8(bytes: Vec<u8>) -> (r: Option<String>)
    ensures
        r is Some <==> valid_utf8(bytes@),
        r matches Some(s) ==> s@ == decode_utf8(bytes@),
{
    match String::from_utf8(bytes) {
        Ok(s) => Some(s),
        Err(_) => None,
    }
}

/// The `Authorization` header of a request, as the transport found it.
#[derive(Debug, Clone, PartialEq, Eq)]
pub enum AuthorizationHeader {
    /// The request has no such header.
    Missing,
    /// The header's value is not visible text.
    NotText,
    /// The header's value.
    Value(String),
}

/// What an `AuthorizationHeader` stands for in contracts.
pub enum AuthorizationHeaderView {
    Missing,
    NotText,
    Value(Seq<char>),
}

impl View for AuthorizationHeader {
    type V = AuthorizationHeaderView;

    open spec fn view(&self) -> AuthorizationHeaderView {
        match self {
            AuthorizationHeader::Missing => AuthorizationHeaderView::Missing,
            AuthorizationHeader::NotText => AuthorizationHeaderView::NotText,
            AuthorizationHeader::Value(v) => AuthorizationHeaderView::Value(v@),
        }
    }
}

/// A user name and a password.
#[derive(Debug, Clone, PartialEq, Eq)]
pub struct BasicAuthCredentials {
    pub username: String,
    pub password: String,
}

impl View for BasicAuthCredentials {
    type V = (Seq<char>, Seq<char>);

    open spec fn view(&self) -> (Seq<char>, Seq<char>) {
        (self.username@, self.password@)
    }
}

/// Why a header gave no credentials.
#[derive(Debug, Clone, Copy, PartialEq, Eq, Structural)]
pub enum CredentialsError {
    MissingHeader,
    HeaderNotText,
    SchemeNotBasic,
    MissingCredentials,
    UndecodableCredentials,
    CredentialsNotText,
    MissingPassword,
}

impl CredentialsError {
    /// The message of each failure.
    pub open spec fn message_text(self) -> Seq<char> {
        match self {
            CredentialsError::MissingHeader => "Authorization header value is missing"@,
            CredentialsError::HeaderNotText => "Authorization header value is not valid UTF-8"@,
            CredentialsError::SchemeNotBasic => "Authorization scheme is not Basic"@,
            CredentialsError::MissingCredentials => "Authorization header value credentials"@,
            CredentialsError::UndecodableCredentials => "Failed to to decode base64 credentials"@,
            CredentialsError::CredentialsNotText => {
                "Decoded credentials string isn't valid UTF-8 string"@
            },
            CredentialsError::MissingPassword => "Password must be provided"@,
        }
    }

    /// The message of this failure.
    pub fn message(&self) -> (r: &'static str)
        ensures
            r@ == self.message_text(),
    {
        match self {
            CredentialsError::MissingHeader => "Authorization header value is missing",
            CredentialsError::HeaderNotText => "Authorization header value is not valid UTF-8",
            CredentialsError::SchemeNotBasic => "Authorization scheme is not Basic",
            CredentialsError::MissingCredentials => "Authorization header value credentials",
            CredentialsError::UndecodableCredentials => "Failed to to decode base64 credentials",
            CredentialsError::CredentialsNotText => {
                "Decoded credentials string isn't valid UTF-8 string"
            },
            CredentialsError::MissingPassword => "Password must be provided",
        }
    }

    /// This failure as an application error: the one error of every failed
    /// credential check. The reason stays behind, in this value; the answer
    /// to the caller does not carry it.
    pub fn into_application(self) -> (r: ApplicationError)
        ensures
            r@ == refusal(),
            status_of(r@) == UNAUTHORIZED,
    {
        ApplicationError::unauthorized()
    }
}

/// The encoded credentials that a header carries: the header's value is
/// split at single spaces, its first field must be `Basic`, and its second
/// field is the encoded pair.
pub open spec fn payload_of(header: AuthorizationHeaderView) -> Result<
    Seq<char>,
    CredentialsError,
> {
    match header {
        AuthorizationHeaderView::Missing => Err(CredentialsError::MissingHeader),
        AuthorizationHeaderView::NotText => Err(CredentialsError::HeaderNotText),
        AuthorizationHeaderView::Value(v) => if before_first(v, ' ') != "Basic"@ {
            Err(CredentialsError::SchemeNotBasic)
        } else {
            match after_first(v, ' ') {
                None => Err(CredentialsError::MissingCredentials),
                Some(rest) => Ok(before_first(rest, ' ')),
            }
        },
    }
}

/// The pair that a decoded text writes: the user name before the first
/// colon, the password after it.
pub open spec fn pair_of(text: Seq<char>) -> Result<(Seq<char>, Seq<char>), CredentialsError> {
    match after_first(text, ':') {
        Some(password) => Ok((before_first(text, ':'), password)),
        None => Err(CredentialsError::MissingPassword),
    }
}

/// The credentials in what the decoder gave: the bytes must be UTF-8 text
/// that holds a colon.
pub open spec fn credentials_in(decoded: Option<Seq<u8>>) -> Result<
    (Seq<char>, Seq<char>),
    CredentialsError,
> {
    match decoded {
        None => Err(CredentialsError::UndecodableCredentials),
        Some(bytes) => if valid_utf8(bytes) {
            pair_of(decode_utf8(bytes))
        } else {
            Err(CredentialsError::CredentialsNotText)
        },
    }
}

/// The credentials that a header carries.
pub open spec fn credentials_of(header: AuthorizationHeaderView) -> Result<
    (Seq<char>, Seq<char>),
    CredentialsError,
> {
    match payload_of(header) {
        Err(e) => Err(e),
        Ok(payload) => credentials_in(base64_url_decoded(payload)),
    }
}

/// What a result of the extraction stands for.
pub open spec fn credentials_view(r: Result<BasicAuthCredentials, CredentialsError>) -> Result<
    (Seq<char>, Seq<char>),
    CredentialsError,
> {
    match r {
        Ok(c) => Ok(c@),
        Err(e) => Err(e),
    }
}

/// The encoded credentials of a header.
pub fn authorization_payload(header: &AuthorizationHeader) -> (r: Result<String, CredentialsError>)
    ensures
        match payload_of(header@) {
            Ok(p) => r matches Ok(s) && s@ == p,
            Err(e) => r == Err::<String, CredentialsError>(e),
        },
{
    match header {
        AuthorizationHeader::Missing => Err(CredentialsError::MissingHeader),
        AuthorizationHeader::NotText => Err(CredentialsError::HeaderNotText),
        AuthorizationHeader::Value(v) => {
            let (scheme, rest) = split_first(v.as_str(), ' ');
            if !same_text(scheme.as_str(), "Basic") {
                return Err(CredentialsError::SchemeNotBasic);
            }
            match rest {
                None => Err(CredentialsError::MissingCredentials),
                Some(rest) => {
                    let (payload, _) = split_first(rest.as_str(), ' ');
                    Ok(payload)
                },
            }
        },
    }
}

/// The credentials in what the decoder gave.
pub fn credentials_from_decoded(decoded: Option<Vec<u8>>) -> (r: Result<
    BasicAuthCredentials,
    CredentialsError,
>)
    ensures
        credentials_view(r) == credentials_in(
            match decoded {
                Some(bytes) => Some(bytes@),
                None => None,
            },
        ),
{
    let Some(bytes) = decoded else {
        return Err(CredentialsError::UndecodableCredentials);
    };
    let Some(text) = string_from_utf8(bytes) else {
        return Err(CredentialsError::CredentialsNotText);
    };
    let (username, password) = split_first(text.as_str(), ':');
    match password {
        Some(password) => Ok(BasicAuthCredentials { username, password }),
        None => Err(CredentialsError::MissingPassword),
    }
}

/// The credentials that a header carries, or the first reason why it
/// carries none.
pub fn extract_credentials(header: &AuthorizationHeader) -> (r: Result<
    BasicAuthCredentials,
    CredentialsError,
>)
    ensures
        credentials_view(r) == credentials_of(header@),
{
    match authorization_payload(header) {
        Err(e) => Err(e),
        Ok(payload) => credentials_from_decoded(base64_url_decode(payload.as_str())),
    }
}

/// The question put to the identity store: does a user with this name and
/// this password hash exist?
#[derive(Debug, Clone, PartialEq, Eq)]
pub struct IdentityQuery {
    pub username: String,
    pub password_hash: PasswordHash,
}

/// Before the identity lookup: from the header to the question for the
/// identity store. Every failure to read credentials, whatever its reason,
/// is the same authorisation error, answered with 401.
pub fn basic_auth(header: &AuthorizationHeader) -> (r: Result<IdentityQuery, ApplicationError>)
    ensures
        match credentials_of(header@) {
            Ok(pair) => r matches Ok(q) && q.username@ == pair.0 && q.password_hash@
                == password_hash_text(pair.1),
            Err(_) => r matches Err(a) && a@ == refusal(),
        },
        r matches Err(a) ==> status_of(a@) == UNAUTHORIZED,
{
    match extract_credentials(header) {
        Err(e) => Err(e.into_application()),
        Ok(credentials) => {
            let password_hash = PasswordHash::new_from_password(credentials.password.as_str());
            Ok(IdentityQuery { username: credentials.username, password_hash })
        },
    }
}

/// What an outcome of the identity lookup stands for.
pub open spec fn lookup_outcome_view(outcome: Result<bool, RepositoryError>) -> Result<
    bool,
    RepositoryErrorView,
> {
    match outcome {
        Ok(known) => Ok(known),
        Err(e) => Err(e@),
    }
}

/// The decision after the identity lookup: the request passes exactly
/// when the store found the user. An unknown user is refused with the same
/// error as an unreadable header; a failure of the store is reported as
/// such.
pub open spec fn lookup_decision(outcome: Result<bool, RepositoryErrorView>) -> Result<
    (),
    ApplicationErrorView,
> {
    match outcome {
        Ok(true) => Ok(()),
        Ok(false) => Err(refusal()),
        Err(e) => Err(repository_failure(e)),
    }
}

/// The decision of the whole check for a request with this header, where
/// `outcome` is what the identity lookup gives if it is reached.
pub open spec fn access_decision(
    header: AuthorizationHeaderView,
    outcome: Result<bool, RepositoryErrorView>,
) -> Result<(), ApplicationErrorView> {
    match credentials_of(header) {
        Err(_) => Err(refusal()),
        Ok(_) => lookup_decision(outcome),
    }
}

/// After the identity lookup: the request passes exactly when the store
/// found the user.
pub fn identity_checked(outcome: Result<bool, RepositoryError>) -> (r: Result<
    (),
    ApplicationError,
>)
    ensures
        match lookup_decision(lookup_outcome_view(outcome)) {
            Ok(_) => r is Ok,
            Err(e) => r matches Err(a) && a@ == e,
        },
        outcome matches Ok(false) ==> (r matches Err(a) && a@ == refusal() && status_of(a@)
            == UNAUTHORIZED),
{
    match outcome {
        Ok(true) => Ok(()),
        Ok(false) => Err(ApplicationError::unauthorized()),
        Err(e) => Err(ApplicationError::from_repository(e)),
    }
}

/// A refused request does not learn why it was refused. Two requests that
/// are both answered with 401 get the same error, hence the same status,
/// the same message and the same details: a missing header, a header of
/// another scheme, credentials that do not decode and credentials that
/// match no user are all answered alike.
pub proof fn lemma_refusals_are_alike(
    first_header: AuthorizationHeaderView,
    first_outcome: Result<bool, RepositoryErrorView>,
    second_header: AuthorizationHeaderView,
    second_outcome: Result<bool, RepositoryErrorView>,
)
    requires
        access_decision(first_header, first_outcome) matches Err(e) && status_of(e) == UNAUTHORIZED,
        access_decision(second_header, second_outcome) matches Err(e) && status_of(e)
            == UNAUTHORIZED,
    ensures
        access_decision(first_header, first_outcome) == access_decision(
            second_header,
            second_outcome,
        ),
        access_decision(first_header, first_outcome) == Err::<(), ApplicationErrorView>(refusal()),
        message_of(refusal()) == auth_failed().message,
        details_of(refusal()) == "AuthError("@ + auth_failed().details + ")"@,
{
}

/// Without credentials that the store knows, no request passes: the check
/// lets a request through only where the header carries credentials and
/// the lookup found the user.
pub proof fn lemma_only_known_users_pass(
    header: AuthorizationHeaderView,
    outcome: Result<bool, RepositoryErrorView>,
)
    ensures
        access_decision(header, outcome) is Ok <==> credentials_of(header) is Ok && outcome == Ok::<
            bool,
            RepositoryErrorView,
        >(true),
        (credentials_of(header) is Err || outcome == Ok::<bool, RepositoryErrorView>(false))
            ==> access_decision(header, outcome) == Err::<(), ApplicationErrorView>(refusal()),
{
}

} // verus!
