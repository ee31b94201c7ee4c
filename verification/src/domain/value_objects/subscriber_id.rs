//! The identifier of a subscriber.

use crate::error::DomainError;
use crate::text::hex_digit;
use vstd::arithmetic::power::pow;
use vstd::prelude::*;
use vstd::string::StringExecFns;

verus! {

/// The value of the UUID that a text writes, in any of the forms that the
/// `uuid` crate reads; `None` where it writes none.
pub uninterp spec fn uuid_text_value(s: Seq<char>) -> Option<u128>;

/// Whether the bits of `v` mark it as a version 7 UUID of the RFC variant:
/// 7 in the version field, binary 10 in the variant field.
pub open spec fn is_version_7(v: u128) -> bool {
    (v >> 76) & 0xf == 7 && (v >> 62) & 0x3 == 2
}

/// Whether place `i` of the hyphenated form holds a hyphen.
pub open spec fn is_hyphen_place(i: int) -> bool {
    i == 8 || i == 13 || i == 18 || i == 23
}

/// Which of the 32 hexadecimal digits stands at place `i` of the
/// hyphenated form, counted from the most significant.
pub open spec fn digit_place(i: int) -> int {
    if i < 8 {
        i
    } else if i < 13 {
        i - 1
    } else if i < 18 {
        i - 2
    } else if i < 23 {
        i - 3
    } else {
        i - 4
    }
}

/// The `d`-th hexadecimal digit of `v`, counted from the most significant.
pub open spec fn nibble(v: u128, d: int) -> nat {
    ((v as int / pow(16, (31 - d) as nat)) % 16) as nat
}

/// The hyphenated form of `v`: 32 lower-case hexadecimal digits in groups
/// of 8, 4, 4, 4 and 12.
pub open spec fn hyphenated(v: u128) -> Seq<char> {
    Seq::new(
        36,
        |i: int|
            if is_hyphen_place(i) {
                '-'
            } else {
                hex_digit(nibble(v, digit_place(i)))
            },
    )
}

/// The message for a text that is no identifier.
pub open spec fn invalid_id_message(s: Seq<char>) -> Seq<char> {
    "Incorrect subscriber id "@ + s
}

/// Reads a UUID.
///
/// Trusted: wraps `uuid::Uuid::parse_str` and `Uuid::as_u128`. Whether the
/// text is read, and as which value, depends on its characters alone.
#[verifier::external_body]
fn uuid_parse(s: &str) -> (r: Option<u128>)
    ensures
        r == uuid_text_value(s@),
{
    match uuid::Uuid::parse_str(s) {
        Ok(u) => Some(u.as_u128()),
        Err(_) => None,
    }
}

/// Writes a UUID in the hyphenated form.
///
/// Trusted: wraps `uuid::Uuid::from_u128` and the `Display` of `Uuid`,
/// which writes the lower-case hyphenated form; `parse_str` reads every
/// form that the crate writes, and reads back the same value.
#[verifier::external_body]
fn uuid_hyphenated(v: u128) -> (r: String)
    ensures
        r@ == hyphenated(v),
        uuid_text_value(r@) == Some(v),
{
    uuid::Uuid::from_u128(v).to_string()
}

/// Makes a fresh version 7 UUID from the clock and random bits.
///
/// Trusted: wraps `uuid::Uuid::now_v7`. Time and chance decide the value;
/// whatever they give, the version field holds 7 and the variant field
/// binary 10.
#[verifier::external_body]
fn uuid_now_v7() -> (r: u128)
    ensures
        is_version_7(r),
{
    uuid::Uuid::now_v7().as_u128()
}

/// The identifier of a subscriber: a UUID, held as its 128-bit value.
#[derive(Debug, Clone, Copy, PartialEq, Eq, Structural)]
pub struct SubscriberId(pub u128);

impl View for SubscriberId {
    type V = u128;

    open spec fn view(&self) -> u128 {
        self.0
    }
}

impl SubscriberId {
    /// A fresh, time-ordered identifier.
    pub fn new() -> (r: SubscriberId)
        ensures
            is_version_7(r@),
    {
        SubscriberId(uuid_now_v7())
    }

    /// The identifier that `s` writes; an error that names `s` where it
    /// writes none.
    pub fn parse(s: &str) -> (r: Result<SubscriberId, DomainError>)
        ensures
            r is Ok <==> uuid_text_value(s@) is Some,
            r matches Ok(id) ==> uuid_text_value(s@) == Some(id@),
            r matches Err(e) ==> e@ == invalid_id_message(s@),
    {
        match uuid_parse(s) {
            Some(v) => Ok(SubscriberId(v)),
            None => {
                let mut message = String::from_str("Incorrect subscriber id ");
                message.append(s);
                Err(DomainError(message))
            },
        }
    }

    /// The 128-bit value.
    pub fn as_ref(&self) -> (r: &u128)
        ensures
            *r == self@,
    {
        &self.0
    }

    /// The hyphenated form, which `parse` reads back as this identifier.
    pub fn to_text(&self) -> (r: String)
        ensures
            r@ == hyphenated(self@),
            r@.len() == 36,
            uuid_text_value(r@) == Some(self@),
    {
        uuid_hyphenated(self.0)
    }
}

impl Default for SubscriberId {
    fn default() -> (r: SubscriberId)
        ensures
            is_version_7(r@),
    {
        SubscriberId(uuid_now_v7())
    }
}

} // verus!
