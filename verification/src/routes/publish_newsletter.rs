//! The fan-out of a newsletter to the confirmed subscribers.

use crate::domain::value_objects::SubscriberEmail;
use crate::email_client::{EmailClient, RequestBody, RequestBodyView};
use crate::error::{
    status_of, ApplicationError, ApplicationErrorView, DomainError, Fault, FaultView,
    InternalLogicDomainError, InternalLogicError, INTERNAL_SERVER_ERROR,
};
use crate::infrastructure::repository::email_view;
use crate::routes::subscribe::outcome_view;
use vstd::prelude::*;

verus! {

/// A newsletter to publish.
#[derive(Debug, Clone, PartialEq, Eq)]
pub struct BodyData {
    pub title: String,
    pub content: BodyContent,
}

/// The two renderings of a newsletter.
#[derive(Debug, Clone, PartialEq, Eq)]
pub struct BodyContent {
    pub text_content: String,
    pub html_content: String,
}

/// What to do next in a fan-out.
#[derive(Debug, Clone, PartialEq, Eq)]
pub enum FanoutNext {
    /// Hand this message to the mail collaborator.
    Send(RequestBody),
    /// Every recipient has been served: answer with success.
    Succeed,
    /// Stop here and answer with this error.
    Fail(ApplicationError),
}

/// What a `FanoutNext` stands for in contracts.
pub enum FanoutNextView {
    Send(RequestBodyView),
    Succeed,
    Fail(ApplicationErrorView),
}

impl View for FanoutNext {
    type V = FanoutNextView;

    open spec fn view(&self) -> FanoutNextView {
        match self {
            FanoutNext::Send(m) => FanoutNextView::Send(m@),
            FanoutNext::Succeed => FanoutNextView::Succeed,
            FanoutNext::Fail(e) => FanoutNextView::Fail(e@),
        }
    }
}

/// The per-row results of the read, as plain values.
pub open spec fn recipients_view(emails: Seq<Result<SubscriberEmail, DomainError>>) -> Seq<
    Result<Seq<char>, Seq<char>>,
> {
    Seq::new(emails.len(), |i: int| email_view(emails[i]))
}

/// The newsletter as a message from `from` to `to`.
pub open spec fn newsletter_message(
    from: Seq<char>,
    to: Seq<char>,
    title: Seq<char>,
    html: Seq<char>,
    text: Seq<char>,
) -> RequestBodyView {
    RequestBodyView { from, to, subject: title, html_content: html, text_content: text }
}

/// The decision of the fan-out when `position` recipients have been served
/// and the last delivery ended with `last`: a failed delivery stops the
/// whole fan-out, with no retry and no record of who was served; after the
/// last recipient it succeeds; else the next recipient in the order of the
/// read is served, and a stored address that no longer passes validation
/// stops the fan-out as an internal error.
pub open spec fn fanout_step(
    recipients: Seq<Result<Seq<char>, Seq<char>>>,
    position: int,
    last: Result<(), FaultView>,
    from: Seq<char>,
    title: Seq<char>,
    html: Seq<char>,
    text: Seq<char>,
) -> FanoutNextView {
    match last {
        Err(fault) => FanoutNextView::Fail(ApplicationErrorView::InternalLogicError(fault)),
        Ok(_) => if position < 0 || position >= recipients.len() {
            FanoutNextView::Succeed
        } else {
            match recipients[position] {
                Ok(to) => FanoutNextView::Send(newsletter_message(from, to, title, html, text)),
                Err(message) => FanoutNextView::Fail(
                    ApplicationErrorView::InternalLogicDomainError(message),
                ),
            }
        },
    }
}

/// What to do next in the fan-out of `body_data` to `emails`, when
/// `position` of them have been served and the last delivery ended with
/// `last` (`Ok` before the first). Start at position 0 and add one for each
/// message handed over.
pub fn publish_newsletter(
    emails: &Vec<Result<SubscriberEmail, DomainError>>,
    position: usize,
    last: Result<(), Fault>,
    email_client: &EmailClient,
    body_data: &BodyData,
) -> (r: FanoutNext)
    ensures
        r@ == fanout_step(
            recipients_view(emails@),
            position as int,
            outcome_view(last),
            email_client.sender(),
            body_data.title@,
            body_data.content.html_content@,
            body_data.content.text_content@,
        ),
        r matches FanoutNext::Fail(e) ==> status_of(e@) == INTERNAL_SERVER_ERROR,
{
    match last {
        Err(fault) => FanoutNext::Fail(ApplicationError::InternalLogicError(InternalLogicError(fault))),
        Ok(_) => {
            if position >= emails.len() {
                FanoutNext::Succeed
            } else {
                match &emails[position] {
                    Ok(email) => FanoutNext::Send(
                        email_client.send(
                            email,
                            body_data.title.as_str(),
                            body_data.content.html_content.as_str(),
                            body_data.content.text_content.as_str(),
                        ),
                    ),
                    Err(e) => FanoutNext::Fail(
                        ApplicationError::InternalLogicDomainError(
                            InternalLogicDomainError(DomainError(e.message())),
                        ),
                    ),
                }
            }
        },
    }
}

/// The addresses served by a fan-out that starts at `position`, where
/// `delivered(i)` says whether the delivery to recipient `i` succeeds.
pub open spec fn served(
    recipients: Seq<Result<Seq<char>, Seq<char>>>,
    position: int,
    delivered: spec_fn(int) -> bool,
) -> Seq<Seq<char>>
    decreases recipients.len() - position,
{
    if position < 0 || position >= recipients.len() {
        Seq::empty()
    } else {
        match recipients[position] {
            Ok(to) => if delivered(position) {
                seq![to] + served(recipients, position + 1, delivered)
            } else {
                seq![to]
            },
            Err(_) => Seq::empty(),
        }
    }
}

/// The fan-out hands over a message exactly where `served` names a next
/// address, and the message goes to that address.
pub proof fn lemma_step_serves_next(
    recipients: Seq<Result<Seq<char>, Seq<char>>>,
    position: int,
    delivered: spec_fn(int) -> bool,
    from: Seq<char>,
    title: Seq<char>,
    html: Seq<char>,
    text: Seq<char>,
)
    ensures
        match fanout_step(recipients, position, Ok(()), from, title, html, text) {
            FanoutNextView::Send(m) => served(recipients, position, delivered).len() > 0 && m.to
                == served(recipients, position, delivered)[0],
            _ => served(recipients, position, delivered).len() == 0,
        },
{
}

/// A fan-out serves recipients in the order of the read, each position at
/// most once: the `k`-th address served from `position` on is that of
/// recipient `position + k`.
pub proof fn lemma_served_in_order(
    recipients: Seq<Result<Seq<char>, Seq<char>>>,
    position: int,
    delivered: spec_fn(int) -> bool,
)
    requires
        0 <= position,
    ensures
        position + served(recipients, position, delivered).len() <= recipients.len() || served(
            recipients,
            position,
            delivered,
        ).len() == 0,
        forall|k: int|
            0 <= k < served(recipients, position, delivered).len() ==> recipients[position + k]
                == Ok::<Seq<char>, Seq<char>>(#[trigger] served(recipients, position, delivered)[k]),
    decreases recipients.len() - position,
{
    if position < recipients.len() {
        match recipients[position] {
            Ok(to) => {
                if delivered(position) {
                    lemma_served_in_order(recipients, position + 1, delivered);
                    let rest = served(recipients, position + 1, delivered);
                    let all = served(recipients, position, delivered);
                    assert(all =~= seq![to] + rest);
                    assert forall|k: int| 0 <= k < all.len() implies recipients[position + k]
                        == Ok::<Seq<char>, Seq<char>>(#[trigger] all[k]) by {
                        if k > 0 {
                            assert(all[k] == rest[k - 1]);
                            assert(recipients[position + 1 + (k - 1)] == Ok::<
                                Seq<char>,
                                Seq<char>,
                            >(rest[k - 1]));
                        }
                    }
                }
            },
            Err(_) => {},
        }
    }
}

/// Where every stored address is valid and every delivery succeeds, the
/// fan-out serves every confirmed address exactly once and in order.
pub proof fn lemma_all_served_once(
    recipients: Seq<Result<Seq<char>, Seq<char>>>,
    position: int,
    delivered: spec_fn(int) -> bool,
)
    requires
        0 <= position <= recipients.len(),
        forall|i: int| 0 <= i < recipients.len() ==> (#[trigger] recipients[i]) is Ok,
        forall|i: int| 0 <= i < recipients.len() ==> #[trigger] delivered(i),
    ensures
        served(recipients, position, delivered).len() == recipients.len() - position,
        forall|k: int|
            0 <= k < recipients.len() - position ==> recipients[position + k] == Ok::<
                Seq<char>,
                Seq<char>,
            >(#[trigger] served(recipients, position, delivered)[k]),
    decreases recipients.len() - position,
{
    if position < recipients.len() {
        assert(recipients[position] is Ok);
        assert(delivered(position));
        lemma_all_served_once(recipients, position + 1, delivered);
        lemma_served_in_order(recipients, position, delivered);
    }
}

} // verus!
