//! The display name of a subscriber.

use vstd::prelude::*;
use vstd::std_specs::iter::IteratorSpec;
use vstd::string::StrSliceExecFns;
use vstd::string::StringExecFns;

verus! {

/// The longest name accepted, in characters.
pub const MAX_NAME_LENGTH: usize = 256;

/// Whether `c` is white space: a character with the Unicode property
/// `White_Space`.
pub open spec fn is_whitespace(c: char) -> bool {
    let u = c as u32;
    ||| 0x09 <= u <= 0x0D
    ||| u == 0x20
    ||| u == 0x85
    ||| u == 0xA0
    ||| u == 0x1680
    ||| 0x2000 <= u <= 0x200A
    ||| u == 0x2028
    ||| u == 0x2029
    ||| u == 0x202F
    ||| u == 0x205F
    ||| u == 0x3000
}

/// Whether `c` is one of the eight characters that no name may hold.
pub open spec fn is_forbidden(c: char) -> bool {
    c == '/' || c == '\\' || c == '(' || c == ')' || c == '<' || c == '>' || c == '{' || c == '}'
}

/// Whether `s` is empty or holds white space only.
pub open spec fn is_blank(s: Seq<char>) -> bool {
    forall|i: int| 0 <= i < s.len() ==> is_whitespace(#[trigger] s[i])
}

/// Whether `s` holds a forbidden character.
pub open spec fn has_forbidden(s: Seq<char>) -> bool {
    exists|i: int| 0 <= i < s.len() && is_forbidden(#[trigger] s[i])
}

/// Whether `s` is accepted as a name: not blank, at most 256 characters,
/// no forbidden character.
pub open spec fn is_valid_name(s: Seq<char>) -> bool {
    !is_blank(s) && s.len() <= MAX_NAME_LENGTH && !has_forbidden(s)
}

/// The message for a rejected name.
pub open spec fn invalid_name_message(s: Seq<char>) -> Seq<char> {
    s + " is not valid subscriber name"@
}

/// Whether `c` is white space.
pub fn char_is_whitespace(c: char) -> (r: bool)
    ensures
        r == is_whitespace(c),
{
    let u: u32 = c as u32;
    (0x09 <= u && u <= 0x0D) || u == 0x20 || u == 0x85 || u == 0xA0 || u == 0x1680 || (0x2000 <= u
        && u <= 0x200A) || u == 0x2028 || u == 0x2029 || u == 0x202F || u == 0x205F || u == 0x3000
}

/// Whether `c` is one of the forbidden characters.
pub fn char_is_forbidden(c: char) -> (r: bool)
    ensures
        r == is_forbidden(c),
{
    c == '/' || c == '\\' || c == '(' || c == ')' || c == '<' || c == '>' || c == '{' || c == '}'
}

/// A validated display name.
#[derive(Debug, PartialEq, Eq)]
pub struct SubscriberName(String);

impl Clone for SubscriberName {
    fn clone(&self) -> (r: SubscriberName)
        ensures
            r@ == self@,
    {
        proof {
            use_type_invariant(self);
        }
        SubscriberName(self.0.clone())
    }
}

impl View for SubscriberName {
    type V = Seq<char>;

    closed spec fn view(&self) -> Seq<char> {
        self.0@
    }
}

impl SubscriberName {
    /// Every name is a valid one.
    #[verifier::type_invariant]
    closed spec fn well_formed(&self) -> bool {
        is_valid_name(self.0@)
    }

    /// Accepts `s` as a name exactly when it is valid, and keeps it as it
    /// is; else the message names the rejected text.
    pub fn parse(s: String) -> (r: Result<SubscriberName, String>)
        ensures
            r is Ok <==> is_valid_name(s@),
            r matches Ok(name) ==> name@ == s@,
            r matches Err(message) ==> message@ == invalid_name_message(s@),
    {
        broadcast use vstd::string::group_string_axioms;

        let n = s.as_str().unicode_len();
        if n > MAX_NAME_LENGTH {
            let mut message = s;
            message.append(" is not valid subscriber name");
            return Err(message);
        }
        let mut blank = true;
        let mut forbidden = false;
        let mut rest = s.as_str().chars();
        let ghost mut i: int = 0;
        loop
            invariant
                n == s@.len(),
                0 <= i <= n,
                rest.obeys_prophetic_iter_laws(),
                rest.remaining() == s@.subrange(i, n as int),
                blank == is_blank(s@.subrange(0, i)),
                forbidden == has_forbidden(s@.subrange(0, i)),
            ensures
                i == n,
                blank == is_blank(s@.subrange(0, i)),
                forbidden == has_forbidden(s@.subrange(0, i)),
            decreases n - i,
        {
            let c = match rest.next() {
                Some(c) => c,
                None => {
                    break ;
                },
            };
            proof {
                let before = s@.subrange(0, i);
                let after = s@.subrange(0, i + 1);
                assert(after[i] == c);
                assert(forall|j: int| 0 <= j < i ==> before[j] == after[j]);
                if has_forbidden(before) {
                    let j = choose|j: int| 0 <= j < before.len() && is_forbidden(#[trigger] before[j]);
                    assert(is_forbidden(after[j]));
                }
                if is_blank(after) {
                    assert forall|j: int| 0 <= j < before.len() implies is_whitespace(
                        #[trigger] before[j],
                    ) by {
                        assert(is_whitespace(after[j]));
                    }
                }
                i = i + 1;
            }
            if !char_is_whitespace(c) {
                blank = false;
            }
            if char_is_forbidden(c) {
                forbidden = true;
            }
        }
        assert(s@.subrange(0, n as int) =~= s@);
        if blank || forbidden {
            let mut message = s;
            message.append(" is not valid subscriber name");
            return Err(message);
        }
        Ok(SubscriberName(s))
    }

    /// The name as text.
    pub fn as_ref(&self) -> (r: &str)
        ensures
            r@ == self@,
            is_valid_name(r@),
    {
        proof {
            use_type_invariant(self);
        }
        self.0.as_str()
    }
}

} // verus!
