//! Onboarding: from a subscription form to a stored, pending subscriber
//! with a confirmation token, and the mail that carries the link.

use crate::domain::entities::subscriber::Subscriber;
use crate::domain::value_objects::subscriber_email::{
    email_grammar, invalid_email_message, lacks_address_part,
};
use crate::domain::value_objects::subscriber_id::is_version_7;
use crate::domain::value_objects::subscriber_name::{invalid_name_message, is_valid_name};
use crate::domain::value_objects::{
    NewSubscriber, SubscriberEmail, SubscriberId, SubscriberName,
};
use crate::email_client::{EmailClient, RequestBody, RequestBodyView};
use crate::error::{
    status_of, ApplicationError, ApplicationErrorView, DomainError, Fault, FaultView,
    RepositoryError, RepositoryErrorView, BAD_REQUEST,
};
use crate::text::push_char;
use vstd::prelude::*;
use vstd::string::StringExecFns;

verus! {

/// The fields of the subscription form.
#[derive(Debug, Clone, PartialEq, Eq)]
pub struct SubscribeFormData {
    pub name: String,
    pub email: String,
}

/// The length of a confirmation token, in characters.
pub const TOKEN_LENGTH: usize = 25;

/// Whether `c` is an ASCII letter or digit.
pub open spec fn is_alphanumeric(c: char) -> bool {
    ('a' <= c && c <= 'z') || ('A' <= c && c <= 'Z') || ('0' <= c && c <= '9')
}

/// Whether `s` has the shape of a confirmation token: 25 ASCII letters and
/// digits.
pub open spec fn is_token(s: Seq<char>) -> bool {
    s.len() == TOKEN_LENGTH && forall|i: int| 0 <= i < s.len() ==> is_alphanumeric(#[trigger] s[i])
}

/// One random ASCII letter or digit.
///
/// Trusted: wraps `rand::Rng::sample` on `rand::thread_rng()` with the
/// distribution `rand::distributions::Alphanumeric`, which yields a byte
/// out of `a-z`, `A-Z` and `0-9`. Chance decides which; nothing more is
/// claimed.
#[verifier::external_body]
fn sample_alphanumeric() -> (r: char)
    ensures
        is_alphanumeric(r),
{
    char::from(rand::Rng::sample(&mut rand::thread_rng(), rand::distributions::Alphanumeric))
}

/// A fresh confirmation token. It is not checked against the tokens
/// already stored.
pub fn generate_subscription_token() -> (r: String)
    ensures
        is_token(r@),
{
    let mut token = String::new();
    let mut i: usize = 0;
    while i < TOKEN_LENGTH
        invariant
            i <= TOKEN_LENGTH,
            token@.len() == i,
            forall|j: int| 0 <= j < i ==> is_alphanumeric(#[trigger] token@[j]),
        decreases TOKEN_LENGTH - i,
    {
        push_char(&mut token, sample_alphanumeric());
        i += 1;
    }
    token
}

/// Whether a form passes validation.
pub open spec fn is_valid_form(name: Seq<char>, email: Seq<char>) -> bool {
    email_grammar(email) && is_valid_name(name)
}

/// The error for a form that fails validation: the address is judged
/// first, then the name.
pub open spec fn form_error(name: Seq<char>, email: Seq<char>) -> ApplicationErrorView {
    if !email_grammar(email) {
        ApplicationErrorView::DomainError(invalid_email_message(email))
    } else {
        ApplicationErrorView::DomainError(invalid_name_message(name))
    }
}

/// What an accepted form becomes: the subscriber to store and the token
/// that will confirm them.
#[derive(Debug, PartialEq, Eq)]
pub struct Onboarding {
    pub subscriber: Subscriber,
    pub token: String,
}

/// Validates the fields of a form: the address first, then the name. Each
/// field is kept exactly as it was given. An address that lacks a part
/// (an empty one, one without `@`, one with nothing before or after it) is
/// always refused, and so is an invalid name.
pub fn validate_form(form: SubscribeFormData) -> (r: Result<NewSubscriber, ApplicationError>)
    ensures
        r is Ok <==> is_valid_form(form.name@, form.email@),
        lacks_address_part(form.email@) ==> (r matches Err(e) && e@
            == ApplicationErrorView::DomainError(invalid_email_message(form.email@))),
        !is_valid_name(form.name@) ==> r is Err,
        r matches Ok(accepted) ==> accepted.email@ == form.email@ && accepted.name@ == form.name@,
        r matches Err(e) ==> e@ == form_error(form.name@, form.email@) && status_of(e@)
            == BAD_REQUEST,
{
    let email = match SubscriberEmail::parse(form.email) {
        Ok(email) => email,
        Err(e) => {
            return Err(ApplicationError::DomainError(e));
        },
    };
    let name = match SubscriberName::parse(form.name) {
        Ok(name) => name,
        Err(message) => {
            return Err(ApplicationError::DomainError(DomainError(message)));
        },
    };
    Ok(NewSubscriber { email, name })
}

/// Validates a form and, where it passes, gives the subscriber a fresh
/// identifier and a fresh token. Nothing has been stored yet when this
/// returns; a rejected form never reaches the store.
pub fn subscribe(form: SubscribeFormData) -> (r: Result<Onboarding, ApplicationError>)
    ensures
        r is Ok <==> is_valid_form(form.name@, form.email@),
        lacks_address_part(form.email@) ==> (r matches Err(e) && e@
            == ApplicationErrorView::DomainError(invalid_email_message(form.email@))),
        !is_valid_name(form.name@) ==> r is Err,
        r matches Ok(o) ==> o.subscriber.email@ == form.email@ && o.subscriber.name@ == form.name@
            && is_version_7(o.subscriber.id@) && is_token(o.token@),
        r matches Err(e) ==> e@ == form_error(form.name@, form.email@) && status_of(e@)
            == BAD_REQUEST,
{
    let id = SubscriberId::new();
    match validate_form(form) {
        Err(e) => Err(e),
        Ok(accepted) => {
            let token = generate_subscription_token();
            Ok(
                Onboarding {
                    subscriber: Subscriber { id, email: accepted.email, name: accepted.name },
                    token,
                },
            )
        },
    }
}

/// The steps of onboarding, in their order.
#[derive(Debug, Clone, Copy, PartialEq, Eq, Structural)]
pub enum OnboardingStage {
    /// Open a transaction.
    Begin,
    /// Insert the subscriber's row in the transaction.
    InsertSubscriber,
    /// Store the token's row in the transaction.
    StoreToken,
    /// Commit the transaction.
    Commit,
    /// Send the confirmation mail, outside the transaction.
    SendConfirmation,
}

impl OnboardingStage {
    /// Whether a transaction is open while this step runs.
    pub open spec fn in_transaction(self) -> bool {
        self == OnboardingStage::InsertSubscriber || self == OnboardingStage::StoreToken || self
            == OnboardingStage::Commit
    }

    /// The step after this one, if there is one.
    pub open spec fn following(self) -> Option<OnboardingStage> {
        match self {
            OnboardingStage::Begin => Some(OnboardingStage::InsertSubscriber),
            OnboardingStage::InsertSubscriber => Some(OnboardingStage::StoreToken),
            OnboardingStage::StoreToken => Some(OnboardingStage::Commit),
            OnboardingStage::Commit => Some(OnboardingStage::SendConfirmation),
            OnboardingStage::SendConfirmation => None,
        }
    }

    /// The error for a failure of this step: a storage fault for the steps
    /// on the store, a domain error with the fault's message for the mail.
    pub open spec fn failure(self, fault: FaultView) -> ApplicationErrorView {
        if self == OnboardingStage::SendConfirmation {
            ApplicationErrorView::DomainError(fault.message)
        } else {
            ApplicationErrorView::RepositoryError(RepositoryErrorView::Database(fault))
        }
    }
}

/// What to do after a step.
#[derive(Debug, Clone, PartialEq, Eq)]
pub enum OnboardingNext {
    /// Run this step.
    Perform(OnboardingStage),
    /// Answer with success.
    Succeed,
    /// Answer with this error, after rolling the open transaction back
    /// where `rollback` is set.
    Fail { error: ApplicationError, rollback: bool },
}

/// What an `OnboardingNext` stands for in contracts.
pub enum OnboardingNextView {
    Perform(OnboardingStage),
    Succeed,
    Fail { error: ApplicationErrorView, rollback: bool },
}

impl View for OnboardingNext {
    type V = OnboardingNextView;

    open spec fn view(&self) -> OnboardingNextView {
        match self {
            OnboardingNext::Perform(stage) => OnboardingNextView::Perform(*stage),
            OnboardingNext::Succeed => OnboardingNextView::Succeed,
            OnboardingNext::Fail { error, rollback } => OnboardingNextView::Fail {
                error: error@,
                rollback: *rollback,
            },
        }
    }
}

/// The decision after step `done` ended with `outcome`: go on in order
/// while steps succeed; stop at the first failure, with no retry, and roll
/// back if the transaction is open.
pub open spec fn next_step(done: OnboardingStage, outcome: Result<(), FaultView>) -> OnboardingNextView {
    match outcome {
        Ok(_) => match done.following() {
            Some(stage) => OnboardingNextView::Perform(stage),
            None => OnboardingNextView::Succeed,
        },
        Err(fault) => OnboardingNextView::Fail {
            error: done.failure(fault),
            rollback: done.in_transaction(),
        },
    }
}

/// What an outcome stands for.
pub open spec fn outcome_view(outcome: Result<(), Fault>) -> Result<(), FaultView> {
    match outcome {
        Ok(_) => Ok(()),
        Err(f) => Err(f@),
    }
}

/// The first step of onboarding.
pub fn subscribe_first() -> (r: OnboardingStage)
    ensures
        r == OnboardingStage::Begin,
{
    OnboardingStage::Begin
}

/// What to do after step `done` ended with `outcome`.
pub fn subscribe_next(done: OnboardingStage, outcome: Result<(), Fault>) -> (r: OnboardingNext)
    ensures
        r@ == next_step(done, outcome_view(outcome)),
{
    match outcome {
        Ok(_) => match done {
            OnboardingStage::Begin => OnboardingNext::Perform(OnboardingStage::InsertSubscriber),
            OnboardingStage::InsertSubscriber => OnboardingNext::Perform(
                OnboardingStage::StoreToken,
            ),
            OnboardingStage::StoreToken => OnboardingNext::Perform(OnboardingStage::Commit),
            OnboardingStage::Commit => OnboardingNext::Perform(OnboardingStage::SendConfirmation),
            OnboardingStage::SendConfirmation => OnboardingNext::Succeed,
        },
        Err(fault) => match done {
            OnboardingStage::SendConfirmation => OnboardingNext::Fail {
                error: ApplicationError::DomainError(DomainError(fault.message)),
                rollback: false,
            },
            OnboardingStage::Begin => OnboardingNext::Fail {
                error: ApplicationError::RepositoryError(RepositoryError::Database(fault)),
                rollback: false,
            },
            _ => OnboardingNext::Fail {
                error: ApplicationError::RepositoryError(RepositoryError::Database(fault)),
                rollback: true,
            },
        },
    }
}

/// The link that confirms a subscription.
pub open spec fn confirmation_link(base_url: Seq<char>, token: Seq<char>) -> Seq<char> {
    base_url + "/subscriptions/confirm?token="@ + token
}

/// The plain text of the confirmation mail.
pub open spec fn plain_body(link: Seq<char>) -> Seq<char> {
    "Welcome to our newsletter!\nVisit "@ + link + " to confirm your subscription"@
}

/// The HTML text of the confirmation mail.
pub open spec fn html_body(link: Seq<char>) -> Seq<char> {
    "Welcome to our newsletter!<br />Click <a href=\""@ + link
        + "\">here</a> to confirm your subscription."@
}

/// The confirmation mail for `subscriber`: a welcome with the link that
/// carries the token, in plain text and in HTML.
pub fn send_confirmation_email(
    subscriber: &Subscriber,
    email_client: &EmailClient,
    confirmation_token: &str,
    base_url: &str,
) -> (r: RequestBody)
    ensures
        r@ == (RequestBodyView {
            from: email_client.sender(),
            to: subscriber.email@,
            subject: "Welcome!"@,
            html_content: html_body(confirmation_link(base_url@, confirmation_token@)),
            text_content: plain_body(confirmation_link(base_url@, confirmation_token@)),
        }),
{
    let mut link = String::from_str(base_url);
    link.append("/subscriptions/confirm?token=");
    link.append(confirmation_token);
    let mut plain = String::from_str("Welcome to our newsletter!\nVisit ");
    plain.append(link.as_str());
    plain.append(" to confirm your subscription");
    let mut html = String::from_str("Welcome to our newsletter!<br />Click <a href=\"");
    html.append(link.as_str());
    html.append("\">here</a> to confirm your subscription.");
    email_client.send(&subscriber.email, "Welcome!", html.as_str(), plain.as_str())
}

} // verus!
