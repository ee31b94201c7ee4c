//! The subscriber.

use crate::domain::value_objects::{SubscriberEmail, SubscriberId, SubscriberName};
use vstd::prelude::*;

verus! {

/// A person who asked for the newsletter.
#[derive(Debug, PartialEq, Eq)]
pub struct Subscriber {
    pub id: SubscriberId,
    pub email: SubscriberEmail,
    pub name: SubscriberName,
}

} // verus!
