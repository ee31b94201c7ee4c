//! The outbound mail collaborator: where it is reached, and the message
//! handed to it.

use crate::domain::value_objects::SubscriberEmail;
use vstd::prelude::*;
use vstd::string::StringExecFns;

verus! {

/// The address of the mail service, the token that opens it, and the
/// address that mail is sent from.
#[derive(Debug, Clone, PartialEq, Eq)]
pub struct EmailClient {
    url: String,
    authorization_token: String,
    sender_email: SubscriberEmail,
}

/// One message for the mail service.
#[derive(Debug, Clone, PartialEq, Eq)]
pub struct RequestBody {
    pub from: String,
    pub to: String,
    pub subject: String,
    pub html_content: String,
    pub text_content: String,
}

/// What a `RequestBody` stands for in contracts.
pub struct RequestBodyView {
    pub from: Seq<char>,
    pub to: Seq<char>,
    pub subject: Seq<char>,
    pub html_content: Seq<char>,
    pub text_content: Seq<char>,
}

impl View for RequestBody {
    type V = RequestBodyView;

    open spec fn view(&self) -> RequestBodyView {
        RequestBodyView {
            from: self.from@,
            to: self.to@,
            subject: self.subject@,
            html_content: self.html_content@,
            text_content: self.text_content@,
        }
    }
}

impl EmailClient {
    /// The address that messages are posted to.
    pub closed spec fn endpoint(&self) -> Seq<char> {
        self.url@
    }

    /// The token presented to the mail service.
    pub closed spec fn token(&self) -> Seq<char> {
        self.authorization_token@
    }

    /// The address that mail is sent from.
    pub closed spec fn sender(&self) -> Seq<char> {
        self.sender_email@
    }

    /// A client for the mail service at `base_address`: messages go to its
    /// `/email` resource.
    pub fn new(base_address: String, authorization_token: String, sender_email: SubscriberEmail) -> (r:
        EmailClient)
        ensures
            r.endpoint() == base_address@ + "/email"@,
            r.token() == authorization_token@,
            r.sender() == sender_email@,
    {
        let mut url = base_address;
        url.append("/email");
        EmailClient { url, authorization_token, sender_email }
    }

    /// The address that messages are posted to.
    pub fn url(&self) -> (r: &str)
        ensures
            r@ == self.endpoint(),
    {
        self.url.as_str()
    }

    /// The token presented to the mail service.
    pub fn authorization_token(&self) -> (r: &str)
        ensures
            r@ == self.token(),
    {
        self.authorization_token.as_str()
    }

    /// The message that carries the given content from the sender to
    /// `recipient`; the transport delivers it.
    pub fn send(
        &self,
        recipient: &SubscriberEmail,
        subject: &str,
        html_content: &str,
        text_content: &str,
    ) -> (r: RequestBody)
        ensures
            r@ == (RequestBodyView {
                from: self.sender(),
                to: recipient@,
                subject: subject@,
                html_content: html_content@,
                text_content: text_content@,
            }),
    {
        RequestBody {
            to: String::from_str(recipient.as_ref()),
            from: String::from_str(self.sender_email.as_ref()),
            text_content: String::from_str(text_content),
            html_content: String::from_str(html_content),
            subject: String::from_str(subject),
        }
    }
}

} // verus!
