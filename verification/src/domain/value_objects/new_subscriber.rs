//! A subscription request that passed validation.

use crate::domain::value_objects::subscriber_email::SubscriberEmail;
use crate::domain::value_objects::subscriber_name::SubscriberName;
use vstd::prelude::*;

verus! {

/// The validated fields of a subscription request.
#[derive(Debug, PartialEq, Eq)]
pub struct NewSubscriber {
    pub email: SubscriberEmail,
    pub name: SubscriberName,
}

} // verus!
