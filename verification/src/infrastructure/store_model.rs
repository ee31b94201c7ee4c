//! A mathematical model of the store and of a transaction on it, and what
//! onboarding, confirmation and the newsletter do to it and read from it.

use crate::domain::value_objects::subscriber_email::email_grammar;
use crate::domain::value_objects::subscriber_id::uuid_text_value;
use crate::domain::value_objects::ConfirmationStatus;
use crate::error::{
    message_of, status_of, ApplicationErrorView, FaultView, BAD_REQUEST, INTERNAL_SERVER_ERROR,
};
use crate::infrastructure::repository::{
    email_result, lookup_result, SubscriptionRowView, TokenRowView,
};
use crate::routes::confirm_subscription::{confirmation_step, token_not_found};
use crate::routes::publish_newsletter::{lemma_all_served_once, served};
use crate::routes::subscribe::{next_step, OnboardingNextView, OnboardingStage};
use vstd::prelude::*;

verus! {

/// The two tables. No uniqueness is assumed of addresses or of tokens.
pub struct StoreModel {
    pub subscriptions: Seq<SubscriptionRowView>,
    pub tokens: Seq<TokenRowView>,
}

/// A subscription row with the status of a confirmed subscriber.
pub open spec fn confirmed_row(row: SubscriptionRowView) -> SubscriptionRowView {
    SubscriptionRowView {
        id: row.id,
        name: row.name,
        email: row.email,
        subscribed_at: row.subscribed_at,
        status: ConfirmationStatus::Confirmed,
    }
}

impl StoreModel {
    /// The store with one more subscription row.
    pub open spec fn with_subscriber(self, row: SubscriptionRowView) -> StoreModel {
        StoreModel { subscriptions: self.subscriptions.push(row), tokens: self.tokens }
    }

    /// The store with one more token row.
    pub open spec fn with_token(self, row: TokenRowView) -> StoreModel {
        StoreModel { subscriptions: self.subscriptions, tokens: self.tokens.push(row) }
    }

    /// Whether some row holds `token`.
    pub open spec fn holds_token(self, token: Seq<char>) -> bool {
        exists|i: int|
            0 <= i < self.tokens.len() && (#[trigger] self.tokens[i]).subscription_token == token
    }

    /// Whether `found` is an answer that the store can give to a lookup of
    /// `token`: nothing exactly where no row holds the token, else the
    /// stored identifier of a row that holds it.
    pub open spec fn answers_lookup(self, token: Seq<char>, found: Option<Seq<char>>) -> bool {
        match found {
            None => !self.holds_token(token),
            Some(text) => exists|i: int|
                0 <= i < self.tokens.len() && (#[trigger] self.tokens[i]).subscription_token
                    == token && self.tokens[i].subscriber_id == text,
        }
    }

    /// The store after the status update for `id`: every subscription row
    /// with that identifier is confirmed, whatever it was, and nothing
    /// else changes.
    pub open spec fn confirmed(self, id: u128) -> StoreModel {
        StoreModel {
            subscriptions: Seq::new(
                self.subscriptions.len(),
                |i: int|
                    if self.subscriptions[i].id == id {
                        confirmed_row(self.subscriptions[i])
                    } else {
                        self.subscriptions[i]
                    },
            ),
            tokens: self.tokens,
        }
    }
}

/// A store seen through one connection: what every reader sees, and the
/// working copy of the open transaction, if one is open.
pub struct Session {
    pub visible: StoreModel,
    pub pending: Option<StoreModel>,
}

impl Session {
    /// The session after a step of onboarding succeeded. Writes inside the
    /// transaction touch the working copy only; the commit makes the
    /// working copy visible.
    pub open spec fn after(
        self,
        stage: OnboardingStage,
        subscriber: SubscriptionRowView,
        link: TokenRowView,
    ) -> Session {
        match stage {
            OnboardingStage::Begin => Session { visible: self.visible, pending: Some(self.visible) },
            OnboardingStage::InsertSubscriber => match self.pending {
                Some(copy) => Session {
                    visible: self.visible,
                    pending: Some(copy.with_subscriber(subscriber)),
                },
                None => self,
            },
            OnboardingStage::StoreToken => match self.pending {
                Some(copy) => Session { visible: self.visible, pending: Some(copy.with_token(link)) },
                None => self,
            },
            OnboardingStage::Commit => match self.pending {
                Some(copy) => Session { visible: copy, pending: None },
                None => self,
            },
            OnboardingStage::SendConfirmation => self,
        }
    }

    /// The session after the open transaction was rolled back: the working
    /// copy is gone and what is visible stays.
    pub open spec fn rolled_back(self) -> Session {
        Session { visible: self.visible, pending: None }
    }
}

/// How many steps are left from a stage on.
pub open spec fn steps_left(stage: OnboardingStage) -> nat {
    match stage {
        OnboardingStage::Begin => 5,
        OnboardingStage::InsertSubscriber => 4,
        OnboardingStage::StoreToken => 3,
        OnboardingStage::Commit => 2,
        OnboardingStage::SendConfirmation => 1,
    }
}

/// The end of an onboarding that is about to run `stage`, where
/// `faults(s)` is the fault that step `s` ends with, if it fails: the
/// session the request leaves behind and the answer it gives.
pub open spec fn onboarding_end(
    session: Session,
    stage: OnboardingStage,
    faults: spec_fn(OnboardingStage) -> Option<FaultView>,
    subscriber: SubscriptionRowView,
    link: TokenRowView,
) -> (Session, Result<(), ApplicationErrorView>)
    decreases steps_left(stage),
{
    let outcome = match faults(stage) {
        Some(fault) => Err(fault),
        None => Ok(()),
    };
    match next_step(stage, outcome) {
        OnboardingNextView::Perform(next) => onboarding_end(
            session.after(stage, subscriber, link),
            next,
            faults,
            subscriber,
            link,
        ),
        OnboardingNextView::Succeed => (session.after(stage, subscriber, link), Ok(())),
        OnboardingNextView::Fail { error, rollback } => (
            if rollback {
                session.rolled_back()
            } else {
                session
            },
            Err(error),
        ),
    }
}

/// Whether the transaction of an onboarding is committed under `faults`.
pub open spec fn commits(faults: spec_fn(OnboardingStage) -> Option<FaultView>) -> bool {
    faults(OnboardingStage::Begin) is None && faults(OnboardingStage::InsertSubscriber) is None
        && faults(OnboardingStage::StoreToken) is None && faults(OnboardingStage::Commit) is None
}

/// Onboarding is atomic. Whatever fails and wherever, a request that
/// starts outside a transaction leaves none open, and what is visible
/// afterwards is either what was visible before, or that with exactly the
/// subscriber's row and the token's row added: the latter exactly when
/// every step up to the commit succeeded. The answer is success exactly
/// when the mail went out as well; a failed mail takes nothing back.
pub proof fn lemma_onboarding_atomic(
    session: Session,
    faults: spec_fn(OnboardingStage) -> Option<FaultView>,
    subscriber: SubscriptionRowView,
    link: TokenRowView,
)
    requires
        session.pending is None,
    ensures
        ({
            let (end, answer) = onboarding_end(
                session,
                OnboardingStage::Begin,
                faults,
                subscriber,
                link,
            );
            &&& end.pending is None
            &&& commits(faults) ==> end.visible == session.visible.with_subscriber(
                subscriber,
            ).with_token(link)
            &&& !commits(faults) ==> end.visible == session.visible
            &&& answer is Ok <==> commits(faults) && faults(OnboardingStage::SendConfirmation) is None
            &&& !commits(faults) ==> (answer matches Err(e) && status_of(e) == INTERNAL_SERVER_ERROR)
            &&& commits(faults) ==> (answer matches Err(e) ==> status_of(e) == BAD_REQUEST)
        }),
{
    reveal_with_fuel(onboarding_end, 6);
}

/// A token write that fails after the insert succeeded leaves no
/// subscriber row behind: what is visible is what was visible before.
pub proof fn lemma_failed_token_write_leaves_nothing(
    session: Session,
    faults: spec_fn(OnboardingStage) -> Option<FaultView>,
    subscriber: SubscriptionRowView,
    link: TokenRowView,
)
    requires
        session.pending is None,
        faults(OnboardingStage::InsertSubscriber) is None,
        faults(OnboardingStage::StoreToken) is Some,
    ensures
        onboarding_end(session, OnboardingStage::Begin, faults, subscriber, link).0.visible
            == session.visible,
        onboarding_end(session, OnboardingStage::Begin, faults, subscriber, link).1 is Err,
{
    lemma_onboarding_atomic(session, faults, subscriber, link);
}

/// The end of a confirmation whose lookup found `found` and whose update,
/// where one is made, succeeds: the store afterwards and the answer.
pub open spec fn confirmation_end(store: StoreModel, found: Option<Seq<char>>) -> (
    StoreModel,
    Result<(), ApplicationErrorView>,
) {
    match confirmation_step(lookup_result(found)) {
        Ok(id) => (store.confirmed(id), Ok(())),
        Err(e) => (store, Err(e)),
    }
}

/// A token that no row holds changes nothing and is answered with 400 and
/// the message "Token wasn't found".
pub proof fn lemma_unknown_token(store: StoreModel, token: Seq<char>, found: Option<Seq<char>>)
    requires
        !store.holds_token(token),
        store.answers_lookup(token, found),
    ensures
        confirmation_end(store, found) == (store, Err::<(), ApplicationErrorView>(token_not_found())),
        status_of(token_not_found()) == BAD_REQUEST,
        message_of(token_not_found()) == "Token wasn't found"@,
{
    if found is Some {
        let i = choose|i: int|
            0 <= i < store.tokens.len() && (#[trigger] store.tokens[i]).subscription_token == token
                && store.tokens[i].subscriber_id == found->0;
        assert(store.tokens[i].subscription_token == token);
    }
}

/// A token that a row holds, with a stored identifier that reads as `id`,
/// confirms every subscriber with that identifier and changes nothing
/// else; the token stays where it was, so the same request made again is
/// answered with success again and leaves the store as it is.
pub proof fn lemma_confirmation_idempotent(
    store: StoreModel,
    token: Seq<char>,
    text: Seq<char>,
    id: u128,
)
    requires
        store.answers_lookup(token, Some(text)),
        uuid_text_value(text) == Some(id),
    ensures
        ({
            let (once, answer) = confirmation_end(store, Some(text));
            &&& answer is Ok
            &&& once.tokens == store.tokens
            &&& once.subscriptions.len() == store.subscriptions.len()
            &&& forall|i: int|
                0 <= i < store.subscriptions.len() ==> #[trigger] once.subscriptions[i] == if
                    store.subscriptions[i].id == id {
                    confirmed_row(store.subscriptions[i])
                } else {
                    store.subscriptions[i]
                }
            &&& once.answers_lookup(token, Some(text))
            &&& confirmation_end(once, Some(text)) == (once, Ok::<(), ApplicationErrorView>(()))
        }),
{
    let once = store.confirmed(id);
    assert(once.confirmed(id).subscriptions =~= once.subscriptions);
}

/// A subscriber who was onboarded with a token is confirmed by that token:
/// once the two rows are stored, a lookup of the token can find the stored
/// identifier, and the confirmation that follows leaves the subscriber's
/// row confirmed and is answered with success.
pub proof fn lemma_onboarded_then_confirmed(
    store: StoreModel,
    subscriber: SubscriptionRowView,
    link: TokenRowView,
)
    requires
        uuid_text_value(link.subscriber_id) == Some(subscriber.id),
    ensures
        ({
            let stored = store.with_subscriber(subscriber).with_token(link);
            let (end, answer) = confirmation_end(stored, Some(link.subscriber_id));
            &&& stored.answers_lookup(link.subscription_token, Some(link.subscriber_id))
            &&& answer is Ok
            &&& end.subscriptions.len() == store.subscriptions.len() + 1
            &&& end.subscriptions.last() == confirmed_row(subscriber)
        }),
{
    let stored = store.with_subscriber(subscriber).with_token(link);
    assert(stored.tokens[stored.tokens.len() - 1] == link);
}

/// The stored addresses of the confirmed subscribers among `rows`, in the
/// order of the rows: what the read for the newsletter returns.
pub open spec fn confirmed_addresses(rows: Seq<SubscriptionRowView>) -> Seq<Seq<char>>
    decreases rows.len(),
{
    if rows.len() == 0 {
        Seq::empty()
    } else if rows.last().status == ConfirmationStatus::Confirmed {
        confirmed_addresses(rows.drop_last()).push(rows.last().email)
    } else {
        confirmed_addresses(rows.drop_last())
    }
}

/// The per-row results of the read for the newsletter.
pub open spec fn read_results(addresses: Seq<Seq<char>>) -> Seq<Result<Seq<char>, Seq<char>>> {
    Seq::new(addresses.len(), |i: int| email_result(addresses[i]))
}

/// A subscriber who has not confirmed receives no newsletter: storing a
/// pending row leaves the confirmed addresses as they were.
pub proof fn lemma_pending_is_not_addressed(store: StoreModel, subscriber: SubscriptionRowView)
    requires
        subscriber.status == ConfirmationStatus::PendingConfirmation,
    ensures
        confirmed_addresses(store.with_subscriber(subscriber).subscriptions) == confirmed_addresses(
            store.subscriptions,
        ),
{
    let rows = store.subscriptions.push(subscriber);
    assert(rows.drop_last() =~= store.subscriptions);
}

/// Once confirmed, a subscriber is among those the newsletter is read
/// for: after the onboarding and the confirmation of a subscriber, the
/// last confirmed address is theirs.
pub proof fn lemma_confirmed_is_addressed(
    store: StoreModel,
    subscriber: SubscriptionRowView,
    link: TokenRowView,
)
    requires
        uuid_text_value(link.subscriber_id) == Some(subscriber.id),
    ensures
        ({
            let stored = store.with_subscriber(subscriber).with_token(link);
            let end = confirmation_end(stored, Some(link.subscriber_id)).0;
            &&& confirmed_addresses(end.subscriptions).len() > 0
            &&& confirmed_addresses(end.subscriptions).last() == subscriber.email
        }),
{
    lemma_onboarded_then_confirmed(store, subscriber, link);
}

/// Where every confirmed address is still valid and every delivery
/// succeeds, a newsletter is handed over once for each confirmed address,
/// in the order of the read, and for no other.
pub proof fn lemma_newsletter_reaches_confirmed(
    store: StoreModel,
    delivered: spec_fn(int) -> bool,
)
    requires
        forall|i: int|
            0 <= i < confirmed_addresses(store.subscriptions).len() ==> email_grammar(
                #[trigger] confirmed_addresses(store.subscriptions)[i],
            ),
        forall|i: int| #[trigger] delivered(i),
    ensures
        served(read_results(confirmed_addresses(store.subscriptions)), 0, delivered)
            == confirmed_addresses(store.subscriptions),
{
    let addresses = confirmed_addresses(store.subscriptions);
    let recipients = read_results(addresses);
    assert forall|i: int| 0 <= i < recipients.len() implies (#[trigger] recipients[i]) is Ok by {
        assert(email_grammar(addresses[i]));
    }
    lemma_all_served_once(recipients, 0, delivered);
    let all = served(recipients, 0, delivered);
    assert forall|k: int| 0 <= k < all.len() implies all[k] == addresses[k] by {
        assert(recipients[0 + k] == Ok::<Seq<char>, Seq<char>>(all[k]));
        assert(email_grammar(addresses[k]));
    }
    assert(all =~= addresses);
}

/// A confirmation never takes a subscriber back to pending: a row that is
/// confirmed stays confirmed, whichever identifier is confirmed.
pub proof fn lemma_status_monotone(store: StoreModel, id: u128, i: int)
    requires
        0 <= i < store.subscriptions.len(),
        store.subscriptions[i].status == ConfirmationStatus::Confirmed,
    ensures
        store.confirmed(id).subscriptions[i] == store.subscriptions[i],
{
}

} // verus!
