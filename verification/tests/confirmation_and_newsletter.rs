use zero2prod::domain::value_objects::{ConfirmationStatus, SubscriberEmail, SubscriberId};
use zero2prod::email_client::{EmailClient, RequestBody};
use zero2prod::error::{
    ApplicationError, DomainError, Fault, InternalLogicDomainError, InternalLogicError,
    RepositoryError,
};
use zero2prod::infrastructure::repository::{
    get_confirmed_emails, get_subscriber_id_by_token, update_subscriber_confirmation_status,
    StatusUpdate,
};
use zero2prod::routes::confirm_subscription::{confirm_subscription, confirmation_updated};
use zero2prod::routes::publish_newsletter::{
    publish_newsletter, BodyContent, BodyData, FanoutNext,
};

fn fault() -> Fault {
    Fault {
        message: "mail service is down".to_string(),
        details: "status 503".to_string(),
    }
}

fn client() -> EmailClient {
    EmailClient::new(
        "https://mail.example.com".to_string(),
        "secret-token".to_string(),
        SubscriberEmail::parse("news@example.com".to_string()).unwrap(),
    )
}

fn newsletter() -> BodyData {
    BodyData {
        title: "Issue 1".to_string(),
        content: BodyContent {
            text_content: "plain".to_string(),
            html_content: "<p>html</p>".to_string(),
        },
    }
}

fn message(to: &str) -> RequestBody {
    RequestBody {
        from: "news@example.com".to_string(),
        to: to.to_string(),
        subject: "Issue 1".to_string(),
        html_content: "<p>html</p>".to_string(),
        text_content: "plain".to_string(),
    }
}

#[test]
fn unknown_token_is_answered_with_400() {
    let found = get_subscriber_id_by_token(None);
    assert_eq!(found, Ok(None));
    let error = confirm_subscription(found).unwrap_err();
    assert_eq!(
        error,
        ApplicationError::DomainError(DomainError::new("Token wasn't found"))
    );
    let response = error.into_response();
    assert_eq!(response.status, 400);
    assert_eq!(response.body.message, "Token wasn't found");
}

#[test]
fn known_token_confirms_its_subscriber() {
    let found =
        get_subscriber_id_by_token(Some("a1a2a3a4-b1b2-c1c2-d1d2-d3d4d5d6d7d8".to_string()));
    let id = SubscriberId(0xa1a2a3a4_b1b2_c1c2_d1d2_d3d4d5d6d7d8);
    assert_eq!(found, Ok(Some(id)));
    assert_eq!(
        confirm_subscription(found),
        Ok(StatusUpdate { id, status: ConfirmationStatus::Confirmed })
    );
    assert_eq!(confirmation_updated(Ok(())), Ok(()));
}

#[test]
fn confirming_twice_asks_for_the_same_update() {
    let row = Some("a1a2a3a4-b1b2-c1c2-d1d2-d3d4d5d6d7d8".to_string());
    let first = confirm_subscription(get_subscriber_id_by_token(row.clone())).unwrap();
    let mut status = ConfirmationStatus::PendingConfirmation;
    assert_ne!(status, first.status);
    status = first.status;
    let second = confirm_subscription(get_subscriber_id_by_token(row)).unwrap();
    assert_eq!(first, second);
    status = second.status;
    assert_eq!(status, ConfirmationStatus::Confirmed);
    assert_eq!(confirmation_updated(Ok(())), Ok(()));
}

#[test]
fn the_update_always_confirms() {
    let id = SubscriberId(7);
    assert_eq!(
        update_subscriber_confirmation_status(&id),
        StatusUpdate { id, status: ConfirmationStatus::Confirmed }
    );
}

#[test]
fn corrupt_stored_id_is_an_internal_error() {
    let found = get_subscriber_id_by_token(Some("garbage".to_string()));
    assert_eq!(
        found,
        Err(RepositoryError::Domain(DomainError::new(
            "Incorrect subscriber id garbage"
        )))
    );
    let error = confirm_subscription(found).unwrap_err();
    assert_eq!(
        error,
        ApplicationError::InternalLogicDomainError(InternalLogicDomainError(DomainError::new(
            "Incorrect subscriber id garbage"
        )))
    );
    assert_eq!(error.status_code(), 500);
}

#[test]
fn storage_fault_during_confirmation_is_answered_with_500() {
    let storage = RepositoryError::Database(fault());
    let error = confirm_subscription(Err(storage.clone())).unwrap_err();
    assert_eq!(error, ApplicationError::RepositoryError(storage.clone()));
    assert_eq!(error.status_code(), 500);
    assert_eq!(
        confirmation_updated(Err(storage.clone())),
        Err(ApplicationError::RepositoryError(storage))
    );
}

#[test]
fn stored_emails_are_validated_row_by_row() {
    let rows = vec![
        "a@example.com".to_string(),
        "broken".to_string(),
        "b@example.com".to_string(),
    ];
    let emails = get_confirmed_emails(rows);
    assert_eq!(emails.len(), 3);
    assert_eq!(emails[0].as_ref().unwrap().as_ref(), "a@example.com");
    assert_eq!(
        emails[1],
        Err(DomainError::new("broken is not valid email"))
    );
    assert_eq!(emails[2].as_ref().unwrap().as_ref(), "b@example.com");
    assert!(get_confirmed_emails(Vec::new()).is_empty());
}

#[test]
fn each_confirmed_email_receives_exactly_one_send() {
    let emails = get_confirmed_emails(vec![
        "a@example.com".to_string(),
        "b@example.com".to_string(),
        "c@example.com".to_string(),
    ]);
    let mut sent = Vec::new();
    let mut position = 0;
    let answer = loop {
        match publish_newsletter(&emails, position, Ok(()), &client(), &newsletter()) {
            FanoutNext::Send(mail) => {
                sent.push(mail);
                position += 1;
            }
            FanoutNext::Succeed => break Ok(()),
            FanoutNext::Fail(error) => break Err(error),
        }
    };
    assert_eq!(answer, Ok(()));
    assert_eq!(
        sent,
        vec![message("a@example.com"), message("b@example.com"), message("c@example.com")]
    );
}

#[test]
fn fan_out_to_nobody_succeeds() {
    assert_eq!(
        publish_newsletter(&Vec::new(), 0, Ok(()), &client(), &newsletter()),
        FanoutNext::Succeed
    );
}

#[test]
fn fan_out_stops_at_the_first_failed_delivery() {
    let emails = get_confirmed_emails(vec![
        "a@example.com".to_string(),
        "b@example.com".to_string(),
    ]);
    assert_eq!(
        publish_newsletter(&emails, 0, Ok(()), &client(), &newsletter()),
        FanoutNext::Send(message("a@example.com"))
    );
    let next = publish_newsletter(&emails, 1, Err(fault()), &client(), &newsletter());
    assert_eq!(
        next,
        FanoutNext::Fail(ApplicationError::InternalLogicError(InternalLogicError(fault())))
    );
    if let FanoutNext::Fail(error) = next {
        assert_eq!(error.status_code(), 500);
    }
}

#[test]
fn fan_out_stops_at_a_stored_address_that_is_no_longer_valid() {
    let emails = get_confirmed_emails(vec!["a@example.com".to_string(), "broken".to_string()]);
    assert_eq!(
        publish_newsletter(&emails, 1, Ok(()), &client(), &newsletter()),
        FanoutNext::Fail(ApplicationError::InternalLogicDomainError(
            InternalLogicDomainError(DomainError::new("broken is not valid email"))
        ))
    );
}

#[test]
fn fan_out_past_the_last_recipient_succeeds() {
    let emails = get_confirmed_emails(vec!["a@example.com".to_string()]);
    assert_eq!(
        publish_newsletter(&emails, 1, Ok(()), &client(), &newsletter()),
        FanoutNext::Succeed
    );
    assert_eq!(
        publish_newsletter(&emails, 5, Ok(()), &client(), &newsletter()),
        FanoutNext::Succeed
    );
}
