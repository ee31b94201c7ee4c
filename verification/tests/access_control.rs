use zero2prod::domain::value_objects::PasswordHash;
use zero2prod::error::{
    ApplicationError, DomainError, ErrorBody, ErrorResponse, Fault, InternalLogicDomainError,
    RepositoryError,
};
use zero2prod::middlewares::basic_auth::{
    authorization_payload, basic_auth, credentials_from_decoded, extract_credentials,
    identity_checked, AuthorizationHeader, BasicAuthCredentials, CredentialsError, IdentityQuery,
};

fn header(value: &str) -> AuthorizationHeader {
    AuthorizationHeader::Value(value.to_string())
}

fn credentials(username: &str, password: &str) -> BasicAuthCredentials {
    BasicAuthCredentials {
        username: username.to_string(),
        password: password.to_string(),
    }
}

#[test]
fn credentials_are_read_from_a_basic_header() {
    assert_eq!(
        extract_credentials(&header("Basic dXNlcjpwYXNz")),
        Ok(credentials("user", "pass"))
    );
    assert_eq!(
        extract_credentials(&header("Basic dXJzdWxhOnNlY3JldCBwYXNz")),
        Ok(credentials("ursula", "secret pass"))
    );
}

#[test]
fn password_may_hold_colons() {
    assert_eq!(
        extract_credentials(&header("Basic dXNlcjpwYTpzcw")),
        Ok(credentials("user", "pa:ss"))
    );
}

#[test]
fn empty_username_and_password_are_read() {
    assert_eq!(extract_credentials(&header("Basic Og")), Ok(credentials("", "")));
}

#[test]
fn text_after_the_credentials_is_ignored() {
    assert_eq!(
        extract_credentials(&header("Basic dXNlcjpwYXNz trailing words")),
        Ok(credentials("user", "pass"))
    );
}

#[test]
fn missing_header_is_refused() {
    assert_eq!(
        extract_credentials(&AuthorizationHeader::Missing),
        Err(CredentialsError::MissingHeader)
    );
}

#[test]
fn unreadable_header_is_refused() {
    assert_eq!(
        extract_credentials(&AuthorizationHeader::NotText),
        Err(CredentialsError::HeaderNotText)
    );
}

#[test]
fn other_schemes_are_refused() {
    for value in ["Bearer dXNlcjpwYXNz", "basic dXNlcjpwYXNz", "", " Basic dXNlcjpwYXNz", "Basic\tdXNlcjpwYXNz"] {
        assert_eq!(
            extract_credentials(&header(value)),
            Err(CredentialsError::SchemeNotBasic)
        );
    }
}

#[test]
fn scheme_without_credentials_is_refused() {
    assert_eq!(
        extract_credentials(&header("Basic")),
        Err(CredentialsError::MissingCredentials)
    );
}

#[test]
fn credentials_that_are_not_base64_are_refused() {
    for value in ["Basic dXNlcjpwYXNz=", "Basic !!!", "Basic dXNlcjpwYXN"] {
        assert_eq!(
            extract_credentials(&header(value)),
            Err(CredentialsError::UndecodableCredentials)
        );
    }
}

#[test]
fn credentials_that_are_not_utf8_are_refused() {
    assert_eq!(
        extract_credentials(&header("Basic __46eA")),
        Err(CredentialsError::CredentialsNotText)
    );
    assert_eq!(
        credentials_from_decoded(Some(vec![0xff, 0xfe, b':', b'x'])),
        Err(CredentialsError::CredentialsNotText)
    );
}

#[test]
fn credentials_without_a_colon_are_refused() {
    assert_eq!(
        extract_credentials(&header("Basic dXNlcg")),
        Err(CredentialsError::MissingPassword)
    );
    assert_eq!(
        extract_credentials(&header("Basic  dXNlcjpwYXNz")),
        Err(CredentialsError::MissingPassword)
    );
}

#[test]
fn decoded_bytes_are_split_at_the_first_colon() {
    assert_eq!(
        credentials_from_decoded(Some("пользователь:пароль:ещё".as_bytes().to_vec())),
        Ok(credentials("пользователь", "пароль:ещё"))
    );
    assert_eq!(
        credentials_from_decoded(None),
        Err(CredentialsError::UndecodableCredentials)
    );
}

#[test]
fn payload_is_the_second_field_of_the_header() {
    assert_eq!(authorization_payload(&header("Basic abc def")), Ok("abc".to_string()));
    assert_eq!(authorization_payload(&header("Basic ")), Ok("".to_string()));
    assert_eq!(
        authorization_payload(&header("Basic")),
        Err(CredentialsError::MissingCredentials)
    );
}

#[test]
fn every_credentials_error_has_its_message() {
    let cases = [
        (CredentialsError::MissingHeader, "Authorization header value is missing"),
        (CredentialsError::HeaderNotText, "Authorization header value is not valid UTF-8"),
        (CredentialsError::SchemeNotBasic, "Authorization scheme is not Basic"),
        (CredentialsError::MissingCredentials, "Authorization header value credentials"),
        (CredentialsError::UndecodableCredentials, "Failed to to decode base64 credentials"),
        (
            CredentialsError::CredentialsNotText,
            "Decoded credentials string isn't valid UTF-8 string",
        ),
        (CredentialsError::MissingPassword, "Password must be provided"),
    ];
    for (error, message) in cases {
        assert_eq!(error.message(), message);
    }
}

#[test]
fn every_credentials_error_becomes_the_same_application_error() {
    let errors = [
        CredentialsError::MissingHeader,
        CredentialsError::HeaderNotText,
        CredentialsError::SchemeNotBasic,
        CredentialsError::MissingCredentials,
        CredentialsError::UndecodableCredentials,
        CredentialsError::CredentialsNotText,
        CredentialsError::MissingPassword,
    ];
    for error in errors {
        let application = error.into_application();
        assert_eq!(application, ApplicationError::unauthorized());
        assert_eq!(
            application,
            ApplicationError::AuthError(Fault::plain("Authentication failed"))
        );
        assert_eq!(application.status_code(), 401);
    }
}

#[test]
fn valid_header_asks_for_the_user_with_the_hashed_password() {
    assert_eq!(
        basic_auth(&header("Basic dXNlcjpwYXNz")),
        Ok(IdentityQuery {
            username: "user".to_string(),
            password_hash: PasswordHash::new_from_password("pass"),
        })
    );
}

fn refused_answer() -> ErrorResponse {
    ErrorResponse {
        status: 401,
        body: ErrorBody {
            message: "Authentication failed".to_string(),
            details: "AuthError(Authentication failed)".to_string(),
        },
        logged: false,
    }
}

#[test]
fn publish_without_valid_credentials_is_answered_with_401() {
    for header in [
        AuthorizationHeader::Missing,
        AuthorizationHeader::NotText,
        header("Bearer token"),
        header("Basic"),
        header("Basic ???"),
        header("Basic dXNlcjpwYXNz="),
        header("Basic __46eA"),
        header("Basic dXNlcg"),
    ] {
        let error = basic_auth(&header).unwrap_err();
        assert_eq!(error.status_code(), 401);
        assert_eq!(error.into_response(), refused_answer());
    }
    let unknown = identity_checked(Ok(false)).unwrap_err();
    assert_eq!(unknown.status_code(), 401);
    assert_eq!(unknown.into_response(), refused_answer());
}

#[test]
fn unreadable_header_and_unknown_user_are_answered_alike() {
    let missing = basic_auth(&AuthorizationHeader::Missing).unwrap_err();
    let malformed = basic_auth(&header("Basic not base64!")).unwrap_err();
    let query = basic_auth(&header("Basic dXNlcjpwYXNz")).unwrap();
    assert_eq!(query.username, "user");
    let unknown = identity_checked(Ok(false)).unwrap_err();
    assert_eq!(missing, unknown);
    assert_eq!(malformed, unknown);
    let answer = unknown.into_response();
    assert_eq!(missing.into_response(), answer);
    assert_eq!(malformed.into_response(), answer);
}

#[test]
fn known_user_passes() {
    assert_eq!(identity_checked(Ok(true)), Ok(()));
}

#[test]
fn failure_of_the_identity_store_is_answered_with_500() {
    let fault = Fault {
        message: "connection refused".to_string(),
        details: "Io(ConnectionRefused)".to_string(),
    };
    let error = identity_checked(Err(RepositoryError::Database(fault.clone()))).unwrap_err();
    assert_eq!(
        error,
        ApplicationError::RepositoryError(RepositoryError::Database(fault))
    );
    assert_eq!(error.status_code(), 500);
    let error = identity_checked(Err(RepositoryError::Domain(DomainError::new("corrupt")))).unwrap_err();
    assert_eq!(
        error,
        ApplicationError::InternalLogicDomainError(InternalLogicDomainError(DomainError::new("corrupt")))
    );
}
