//! The two states of a subscription.

use vstd::prelude::*;

verus! {

/// Where a subscriber stands: waiting for the confirmation link to be
/// followed, or confirmed. There is no way back to pending.
#[derive(Debug, Clone, Copy, PartialEq, Eq, Structural)]
pub enum ConfirmationStatus {
    PendingConfirmation,
    Confirmed,
}

impl ConfirmationStatus {
    /// The name under which a status is stored.
    pub open spec fn name(self) -> Seq<char> {
        match self {
            ConfirmationStatus::PendingConfirmation => "PendingConfirmation"@,
            ConfirmationStatus::Confirmed => "Confirmed"@,
        }
    }

    /// The name under which this status is stored: that of the variant.
    pub fn as_ref(&self) -> (r: &'static str)
        ensures
            r@ == self.name(),
    {
        match self {
            ConfirmationStatus::PendingConfirmation => "PendingConfirmation",
            ConfirmationStatus::Confirmed => "Confirmed",
        }
    }
}

} // verus!
