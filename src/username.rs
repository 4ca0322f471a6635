//! Validated user names.

use vstd::prelude::*;
use crate::text::{is_blank, is_blank_str};

verus! {

/// What constructing a user name from `raw` gives: the text unchanged, or
/// the empty-name error where it holds nothing but whitespace.
pub open spec fn parse_username(raw: Seq<char>) -> Result<Seq<char>, UsernameEmptyError> {
    if is_blank(raw) {
        Err(UsernameEmptyError)
    } else {
        Ok(raw)
    }
}

/// A name that is not blank is accepted as it stands, so turning the user
/// name back into text gives the original, untrimmed.
pub proof fn lemma_username_round_trip(raw: Seq<char>)
    requires
        !is_blank(raw),
    ensures
        parse_username(raw) == Ok::<Seq<char>, UsernameEmptyError>(raw),
{
}

/// A name that is empty or all whitespace is refused with the empty-name
/// error.
pub proof fn lemma_blank_username_rejected(raw: Seq<char>)
    requires
        is_blank(raw),
    ensures
        parse_username(raw) == Err::<Seq<char>, UsernameEmptyError>(UsernameEmptyError),
{
}

/// A user name: any text with at least one character that is not whitespace.
/// The text is kept as given; trimming only decides whether it is accepted.
#[derive(Debug, PartialEq, Eq)]
pub struct Username(String);

/// The error of a user name that is empty or all whitespace.
#[derive(Clone, Copy, Debug, PartialEq, Eq, Hash, Structural)]
pub struct UsernameEmptyError;

/// The same error, carrying its message.
#[derive(Clone, Debug, PartialEq, Eq)]
pub struct UsernameError(pub String);

impl View for Username {
    type V = Seq<char>;

    closed spec fn view(&self) -> Seq<char> {
        self.0@
    }
}

impl Username {
    #[verifier::type_invariant]
    spec fn not_blank(self) -> bool {
        !is_blank(self.0@)
    }

    /// Validates `raw` and keeps it, untrimmed.
    pub fn new(raw_username: &str) -> (r: Result<Username, UsernameEmptyError>)
        ensures
            match r {
                Ok(username) => parse_username(raw_username@) == Ok::<Seq<char>, UsernameEmptyError>(username@),
                Err(e) => parse_username(raw_username@) == Err::<Seq<char>, UsernameEmptyError>(e),
            },
    {
        if is_blank_str(raw_username) {
            return Err(UsernameEmptyError);
        }
        Ok(Username(raw_username.to_string()))
    }

    /// The text of the name.
    pub fn as_str(&self) -> (r: &str)
        ensures
            r@ == self@,
            !is_blank(r@),
    {
        proof {
            use_type_invariant(self);
        }
        self.0.as_str()
    }

    /// The text of the name, as a new string.
    pub fn to_string(&self) -> (r: String)
        ensures
            r@ == self@,
            !is_blank(r@),
    {
        proof {
            use_type_invariant(self);
        }
        self.0.clone()
    }

    /// The text of the name, consuming it.
    pub fn into_string(self) -> (r: String)
        ensures
            r@ == self@,
            !is_blank(r@),
    {
        proof {
            use_type_invariant(&self);
        }
        self.0
    }
}

impl Clone for Username {
    fn clone(&self) -> (r: Username)
        ensures
            r == *self,
    {
        proof {
            use_type_invariant(self);
        }
        Username(self.0.clone())
    }
}

impl From<Username> for String {
    fn from(username: Username) -> (r: String)
        ensures
            r@ == username@,
    {
        username.0
    }
}

impl vstd::std_specs::convert::FromSpecImpl<Username> for String {
    open spec fn obeys_from_spec() -> bool {
        true
    }

    closed spec fn from_spec(username: Username) -> String {
        username.0
    }
}

impl UsernameEmptyError {
    /// The message that tells a user what was wrong.
    pub fn message(&self) -> (r: String)
        ensures
            r@ == empty_username_message(),
    {
        proof {
            reveal_strlit("Username cannot be empty");
        }
        "Username cannot be empty".to_string()
    }
}

/// The message of an empty user name.
pub open spec fn empty_username_message() -> Seq<char> {
    seq!['U', 's', 'e', 'r', 'n', 'a', 'm', 'e', ' ', 'c', 'a', 'n', 'n', 'o', 't', ' ', 'b', 'e', ' ', 'e', 'm', 'p', 't', 'y']
}

impl UsernameError {
    /// The error with its message, for an empty user name.
    pub fn from_empty(e: UsernameEmptyError) -> (r: UsernameError)
        ensures
            r.0@ == empty_username_message(),
    {
        UsernameError(e.message())
    }
}

} // verus!
