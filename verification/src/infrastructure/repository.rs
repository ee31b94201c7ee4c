//! The repository's side of each storage operation: the rows it writes and
//! the results it assembles from the rows it reads.

use crate::domain::entities::subscriber::Subscriber;
use crate::domain::value_objects::subscriber_email::{
    email_grammar, invalid_email_message, lacks_address_part,
};
use crate::domain::value_objects::subscriber_id::{
    hyphenated, invalid_id_message, uuid_text_value,
};
use crate::domain::value_objects::subscriber_name::is_valid_name;
use crate::domain::value_objects::{ConfirmationStatus, SubscriberEmail, SubscriberId};
use crate::error::{DomainError, RepositoryError, RepositoryErrorView};
use vstd::prelude::*;
use vstd::string::StringExecFns;

verus! {

/// A row of `subscriptions`.
#[derive(Debug, Clone, PartialEq, Eq)]
pub struct SubscriptionRow {
    pub id: SubscriberId,
    pub name: String,
    pub email: String,
    /// When the subscriber was created, in microseconds since the epoch.
    pub subscribed_at: i64,
    pub status: ConfirmationStatus,
}

/// What a `SubscriptionRow` stands for in contracts.
pub struct SubscriptionRowView {
    pub id: u128,
    pub name: Seq<char>,
    pub email: Seq<char>,
    pub subscribed_at: i64,
    pub status: ConfirmationStatus,
}

impl View for SubscriptionRow {
    type V = SubscriptionRowView;

    open spec fn view(&self) -> SubscriptionRowView {
        SubscriptionRowView {
            id: self.id@,
            name: self.name@,
            email: self.email@,
            subscribed_at: self.subscribed_at,
            status: self.status,
        }
    }
}

/// A row of `subscription_tokens`.
#[derive(Debug, Clone, PartialEq, Eq)]
pub struct TokenRow {
    pub subscriber_id: String,
    pub subscription_token: String,
}

/// What a `TokenRow` stands for in contracts.
pub struct TokenRowView {
    pub subscriber_id: Seq<char>,
    pub subscription_token: Seq<char>,
}

impl View for TokenRow {
    type V = TokenRowView;

    open spec fn view(&self) -> TokenRowView {
        TokenRowView {
            subscriber_id: self.subscriber_id@,
            subscription_token: self.subscription_token@,
        }
    }
}

/// The change that a confirmation makes: every row of `subscriptions` with
/// this identifier gets this status.
#[derive(Debug, Clone, Copy, PartialEq, Eq, Structural)]
pub struct StatusUpdate {
    pub id: SubscriberId,
    pub status: ConfirmationStatus,
}

/// The row written for a new subscriber.
pub open spec fn pending_row(
    id: u128,
    name: Seq<char>,
    email: Seq<char>,
    subscribed_at: i64,
) -> SubscriptionRowView {
    SubscriptionRowView {
        id,
        name,
        email,
        subscribed_at,
        status: ConfirmationStatus::PendingConfirmation,
    }
}

/// The row that links a token to a subscriber.
pub open spec fn link_row(id: u128, token: Seq<char>) -> TokenRowView {
    TokenRowView { subscriber_id: hyphenated(id), subscription_token: token }
}

/// What a token lookup yields for the stored identifier it found, if any:
/// no row is no subscriber, and a stored text that is no identifier is a
/// domain error of the repository.
pub open spec fn lookup_result(row: Option<Seq<char>>) -> Result<Option<u128>, RepositoryErrorView> {
    match row {
        None => Ok(None),
        Some(text) => match uuid_text_value(text) {
            Some(id) => Ok(Some(id)),
            None => Err(RepositoryErrorView::Domain(invalid_id_message(text))),
        },
    }
}

/// What a result of the lookup stands for.
pub open spec fn lookup_view(r: Result<Option<SubscriberId>, RepositoryError>) -> Result<
    Option<u128>,
    RepositoryErrorView,
> {
    match r {
        Ok(Some(id)) => Ok(Some(id@)),
        Ok(None) => Ok(None),
        Err(e) => Err(e@),
    }
}

/// What reading one stored address yields: the address where it still
/// passes validation, else the error that names it.
pub open spec fn email_result(stored: Seq<char>) -> Result<Seq<char>, Seq<char>> {
    if email_grammar(stored) {
        Ok(stored)
    } else {
        Err(invalid_email_message(stored))
    }
}

/// What a per-row result of the read stands for.
pub open spec fn email_view(r: Result<SubscriberEmail, DomainError>) -> Result<
    Seq<char>,
    Seq<char>,
> {
    match r {
        Ok(email) => Ok(email@),
        Err(e) => Err(e@),
    }
}

/// The row to insert for `subscriber`, created at `subscribed_at`: always
/// pending confirmation, and with a name and an address that passed
/// validation.
pub fn insert_subscriber_tx(subscriber: &Subscriber, subscribed_at: i64) -> (r: SubscriptionRow)
    ensures
        r@ == pending_row(subscriber.id@, subscriber.name@, subscriber.email@, subscribed_at),
        is_valid_name(r.name@),
        email_grammar(r.email@),
{
    SubscriptionRow {
        id: subscriber.id,
        name: String::from_str(subscriber.name.as_ref()),
        email: String::from_str(subscriber.email.as_ref()),
        subscribed_at,
        status: ConfirmationStatus::PendingConfirmation,
    }
}

/// The row that stores `token` for `subscriber`: the identifier in its
/// hyphenated form beside the token.
pub fn store_token_tx(subscriber: &Subscriber, token: &str) -> (r: TokenRow)
    ensures
        r@ == link_row(subscriber.id@, token@),
        uuid_text_value(r.subscriber_id@) == Some(subscriber.id@),
{
    TokenRow { subscriber_id: subscriber.id.to_text(), subscription_token: String::from_str(token) }
}

/// The subscriber that a token belongs to, from the stored identifier of
/// the row that holds the token, if there is one.
pub fn get_subscriber_id_by_token(row: Option<String>) -> (r: Result<
    Option<SubscriberId>,
    RepositoryError,
>)
    ensures
        lookup_view(r) == lookup_result(
            match row {
                Some(text) => Some(text@),
                None => None,
            },
        ),
{
    match row {
        None => Ok(None),
        Some(text) => match SubscriberId::parse(text.as_str()) {
            Ok(id) => Ok(Some(id)),
            Err(e) => Err(RepositoryError::Domain(e)),
        },
    }
}

/// The stored addresses of the confirmed subscribers, each validated anew:
/// one result per row and in the order of the rows, so that a row that no
/// longer passes does not hide the others. A stored address that lacks a
/// part is always an error.
pub fn get_confirmed_emails(rows: Vec<String>) -> (r: Vec<Result<SubscriberEmail, DomainError>>)
    ensures
        r@.len() == rows@.len(),
        forall|i: int| 0 <= i < rows@.len() ==> email_view(#[trigger] r@[i]) == email_result(rows@[i]@),
        forall|i: int|
            0 <= i < rows@.len() && lacks_address_part(rows@[i]@) ==> email_view(#[trigger] r@[i])
                == Err::<Seq<char>, Seq<char>>(invalid_email_message(rows@[i]@)),
{
    let mut out: Vec<Result<SubscriberEmail, DomainError>> = Vec::new();
    let mut i: usize = 0;
    while i < rows.len()
        invariant
            i <= rows@.len(),
            out@.len() == i,
            forall|j: int| 0 <= j < i ==> email_view(#[trigger] out@[j]) == email_result(rows@[j]@),
            forall|j: int|
                0 <= j < i && lacks_address_part(rows@[j]@) ==> email_view(#[trigger] out@[j])
                    == Err::<Seq<char>, Seq<char>>(invalid_email_message(rows@[j]@)),
        decreases rows@.len() - i,
    {
        let parsed = SubscriberEmail::parse(rows[i].clone());
        out.push(parsed);
        i += 1;
    }
    out
}

/// The update that confirms a subscriber. It does not depend on the
/// current status, so applying it again changes nothing.
pub fn update_subscriber_confirmation_status(subscriber_id: &SubscriberId) -> (r: StatusUpdate)
    ensures
        r.id == *subscriber_id,
        r.status == ConfirmationStatus::Confirmed,
{
    StatusUpdate { id: *subscriber_id, status: ConfirmationStatus::Confirmed }
}

} // verus!
