use zero2prod::error::{
    ApplicationError, DomainError, ErrorBody, ErrorResponse, Fault, InternalLogicDomainError,
    InternalLogicError, RepositoryError,
};

fn fault() -> Fault {
    Fault {
        message: "pool timed out".to_string(),
        details: "PoolTimedOut".to_string(),
    }
}

#[test]
fn storage_fault_is_answered_with_500_and_logged() {
    let error = ApplicationError::RepositoryError(RepositoryError::Database(fault()));
    assert_eq!(error.status_code(), 500);
    assert_eq!(
        error.into_response(),
        ErrorResponse {
            status: 500,
            body: ErrorBody {
                message: "pool timed out".to_string(),
                details: "RepositoryError(Database(PoolTimedOut))".to_string(),
            },
            logged: true,
        }
    );
}

#[test]
fn repository_domain_error_is_answered_with_500() {
    let error = ApplicationError::RepositoryError(RepositoryError::Domain(DomainError::new(
        "Incorrect subscriber id x",
    )));
    assert_eq!(
        error.into_response(),
        ErrorResponse {
            status: 500,
            body: ErrorBody {
                message: "Incorrect subscriber id x".to_string(),
                details: "RepositoryError(Domain(DomainError(\"Incorrect subscriber id x\")))"
                    .to_string(),
            },
            logged: true,
        }
    );
}

#[test]
fn internal_domain_error_is_answered_with_500() {
    let error = ApplicationError::InternalLogicDomainError(InternalLogicDomainError(
        DomainError::new("x is not valid email"),
    ));
    assert_eq!(
        error.into_response(),
        ErrorResponse {
            status: 500,
            body: ErrorBody {
                message: "x is not valid email".to_string(),
                details:
                    "InternalLogicDomainError(InternalLogicDomainError(DomainError(\"x is not valid email\")))"
                        .to_string(),
            },
            logged: true,
        }
    );
}

#[test]
fn internal_error_is_answered_with_500() {
    let error = ApplicationError::InternalLogicError(InternalLogicError(Fault {
        message: "mail service is down".to_string(),
        details: "mail service is down\n\nCaused by:\n    timeout".to_string(),
    }));
    assert_eq!(
        error.into_response(),
        ErrorResponse {
            status: 500,
            body: ErrorBody {
                message: "mail service is down".to_string(),
                details:
                    "InternalLogicError(InternalLogicError(mail service is down\n\nCaused by:\n    timeout))"
                        .to_string(),
            },
            logged: true,
        }
    );
}

#[test]
fn domain_error_is_answered_with_400_and_not_logged() {
    let error = ApplicationError::DomainError(DomainError::new("Token wasn't found"));
    assert_eq!(
        error.into_response(),
        ErrorResponse {
            status: 400,
            body: ErrorBody {
                message: "Token wasn't found".to_string(),
                details: "DomainError(DomainError(\"Token wasn't found\"))".to_string(),
            },
            logged: false,
        }
    );
}

#[test]
fn auth_error_is_answered_with_401_and_not_logged() {
    let error = ApplicationError::unauthorized();
    assert_eq!(error.message(), "Authentication failed");
    assert_eq!(error.details(), "AuthError(Authentication failed)");
    assert_eq!(
        error.into_response(),
        ErrorResponse {
            status: 401,
            body: ErrorBody {
                message: "Authentication failed".to_string(),
                details: "AuthError(Authentication failed)".to_string(),
            },
            logged: false,
        }
    );
}

#[test]
fn answer_to_an_auth_error_does_not_show_what_it_holds() {
    let reasons = [
        Fault::plain("User wasn't found"),
        Fault::plain("Authorization header value is missing"),
        Fault {
            message: "Failed to to decode base64 credentials".to_string(),
            details: "Invalid symbol 33, offset 0.".to_string(),
        },
    ];
    for reason in reasons {
        let error = ApplicationError::AuthError(reason);
        assert_eq!(error.message(), "Authentication failed");
        assert_eq!(error.details(), "AuthError(Authentication failed)");
        assert_eq!(
            error.into_response(),
            ApplicationError::unauthorized().into_response()
        );
    }
}

#[test]
fn details_escape_the_message_of_a_domain_error() {
    let error = DomainError::new("a\"b\\c\n");
    assert_eq!(error.message(), "a\"b\\c\n");
    assert_eq!(error.details(), "DomainError(\"a\\\"b\\\\c\\n\")");
}

#[test]
fn domain_error_is_made_from_a_string() {
    assert_eq!(
        DomainError::from("some rule".to_string()),
        DomainError::new("some rule")
    );
}

#[test]
fn repository_errors_map_to_the_application_layer() {
    assert_eq!(
        ApplicationError::from_repository(RepositoryError::Database(fault())),
        ApplicationError::RepositoryError(RepositoryError::Database(fault()))
    );
    assert_eq!(
        ApplicationError::from_repository(RepositoryError::Domain(DomainError::new("corrupt"))),
        ApplicationError::InternalLogicDomainError(InternalLogicDomainError(DomainError::new(
            "corrupt"
        )))
    );
}

#[test]
fn repository_error_texts() {
    let stored = RepositoryError::Database(fault());
    assert_eq!(stored.message(), "pool timed out");
    assert_eq!(stored.details(), "Database(PoolTimedOut)");
    let domain = RepositoryError::Domain(DomainError::new("corrupt"));
    assert_eq!(domain.message(), "corrupt");
    assert_eq!(domain.details(), "Domain(DomainError(\"corrupt\"))");
}
