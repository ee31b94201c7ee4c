//! The email address of a subscriber.

use crate::error::DomainError;
use vstd::prelude::*;
use vstd::string::StringExecFns;

verus! {

/// Whether a text is an email address by the HTML5 rules for a valid
/// address, as the `validator` crate decides it.
pub uninterp spec fn email_grammar(s: Seq<char>) -> bool;

/// Whether `s` lacks a part that every address has: it is empty, holds no
/// `@`, or has nothing before its first or after its last `@`.
pub open spec fn lacks_address_part(s: Seq<char>) -> bool {
    s.len() == 0 || !s.contains('@') || s[0] == '@' || s[s.len() - 1] == '@'
}

/// The message for a rejected address.
pub open spec fn invalid_email_message(s: Seq<char>) -> Seq<char> {
    s + " is not valid email"@
}

/// Whether `s` is a valid email address.
///
/// Trusted: wraps `validator::ValidateEmail::validate_email` for `String`.
/// Its answer depends on the characters of the text alone. It answers no
/// for the empty text and for one without `@`; it splits at the last `@`
/// and wants one or more characters other than `@` before it, and a
/// non-empty domain after it, so a text that begins or ends with `@` is
/// refused too.
#[verifier::external_body]
fn validate_email(s: &String) -> (r: bool)
    ensures
        r == email_grammar(s@),
        lacks_address_part(s@) ==> !r,
{
    validator::ValidateEmail::validate_email(s)
}

/// A validated email address, kept exactly as it was given.
#[derive(Debug, PartialEq, Eq)]
pub struct SubscriberEmail(String);

impl View for SubscriberEmail {
    type V = Seq<char>;

    closed spec fn view(&self) -> Seq<char> {
        self.0@
    }
}

impl Clone for SubscriberEmail {
    fn clone(&self) -> (r: SubscriberEmail)
        ensures
            r@ == self@,
    {
        proof {
            use_type_invariant(self);
        }
        SubscriberEmail(self.0.clone())
    }
}

impl SubscriberEmail {
    /// Every address passed the grammar.
    #[verifier::type_invariant]
    closed spec fn well_formed(&self) -> bool {
        email_grammar(self.0@) && !lacks_address_part(self.0@)
    }

    /// Accepts `s` exactly when it is an address by the grammar, and keeps
    /// it as it is; a text that lacks a part is never accepted. The error
    /// names the rejected text.
    pub fn parse(s: String) -> (r: Result<SubscriberEmail, DomainError>)
        ensures
            r is Ok <==> email_grammar(s@),
            lacks_address_part(s@) ==> r is Err,
            r matches Ok(email) ==> email@ == s@,
            r matches Err(e) ==> e@ == invalid_email_message(s@),
    {
        if validate_email(&s) {
            Ok(SubscriberEmail(s))
        } else {
            let mut message = s;
            message.append(" is not valid email");
            Err(DomainError(message))
        }
    }

    /// The address as text.
    pub fn as_ref(&self) -> (r: &str)
        ensures
            r@ == self@,
            email_grammar(r@),
            !lacks_address_part(r@),
    {
        proof {
            use_type_invariant(self);
        }
        self.0.as_str()
    }
}

} // verus!
