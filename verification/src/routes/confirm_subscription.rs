//! Confirmation: from a token to a confirmed subscriber.

use crate::domain::value_objects::{ConfirmationStatus, SubscriberId};
use crate::error::{
    repository_failure, status_of, ApplicationError, ApplicationErrorView, DomainError,
    RepositoryError, RepositoryErrorView, BAD_REQUEST,
};
use crate::infrastructure::repository::{
    lookup_view, update_subscriber_confirmation_status, StatusUpdate,
};
use vstd::prelude::*;

verus! {

/// The query of a confirmation request.
#[derive(Debug, Clone, PartialEq, Eq)]
pub struct ConfirmSubscriptionQuery {
    pub token: String,
}

/// The error for a token that no row holds.
pub open spec fn token_not_found() -> ApplicationErrorView {
    ApplicationErrorView::DomainError("Token wasn't found"@)
}

/// What follows a token lookup: the update to make where the lookup found
/// a subscriber; the "token not found" error, and no update, where it
/// found none; the repository's failure as an internal error.
pub open spec fn confirmation_step(found: Result<Option<u128>, RepositoryErrorView>) -> Result<
    u128,
    ApplicationErrorView,
> {
    match found {
        Ok(Some(id)) => Ok(id),
        Ok(None) => Err(token_not_found()),
        Err(e) => Err(repository_failure(e)),
    }
}

/// Decides what follows the token lookup. The lookup comes first; the
/// update is asked for only where the lookup gave a subscriber.
pub fn confirm_subscription(found: Result<Option<SubscriberId>, RepositoryError>) -> (r: Result<
    StatusUpdate,
    ApplicationError,
>)
    ensures
        match confirmation_step(lookup_view(found)) {
            Ok(id) => r matches Ok(update) && update.id@ == id && update.status
                == ConfirmationStatus::Confirmed,
            Err(e) => r matches Err(a) && a@ == e,
        },
        found matches Ok(None) ==> r matches Err(a) && status_of(a@) == BAD_REQUEST,
{
    match found {
        Ok(Some(id)) => Ok(update_subscriber_confirmation_status(&id)),
        Ok(None) => Err(ApplicationError::DomainError(DomainError::new("Token wasn't found"))),
        Err(e) => Err(ApplicationError::from_repository(e)),
    }
}

/// The answer once the update has run: success, or the repository's
/// failure.
pub fn confirmation_updated(outcome: Result<(), RepositoryError>) -> (r: Result<
    (),
    ApplicationError,
>)
    ensures
        outcome is Ok ==> r is Ok,
        outcome matches Err(e) ==> r matches Err(a) && a@ == repository_failure(e@),
{
    match outcome {
        Ok(_) => Ok(()),
        Err(e) => Err(ApplicationError::from_repository(e)),
    }
}

} // verus!
