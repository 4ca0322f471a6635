//! Users: an identifier together with a validated name.

use vstd::prelude::*;
use crate::id::Id;
use crate::text::is_blank;
use crate::username::{Username, UsernameEmptyError};

verus! {

/// A user. Its identifier never changes; its name may be replaced by another
/// valid name.
#[derive(Debug, PartialEq, Eq)]
pub struct User {
    pub id: Id,
    pub username: Username,
}

/// Why a user could not be created.
#[derive(Clone, Copy, Debug, PartialEq, Eq, Structural)]
pub enum UserError {
    UsernameEmptyError { source: UsernameEmptyError },
}

impl From<UsernameEmptyError> for UserError {
    fn from(source: UsernameEmptyError) -> (r: UserError) {
        UserError::UsernameEmptyError { source }
    }
}

impl vstd::std_specs::convert::FromSpecImpl<UsernameEmptyError> for UserError {
    open spec fn obeys_from_spec() -> bool {
        true
    }

    open spec fn from_spec(source: UsernameEmptyError) -> UserError {
        UserError::UsernameEmptyError { source }
    }
}

impl User {
    /// A user with the given identifier and the name `raw_username`, kept
    /// as given; the empty-name error where that name is blank.
    pub fn with_id(id: Id, raw_username: &str) -> (r: Result<User, UserError>)
        ensures
            match r {
                Ok(user) => !is_blank(raw_username@) && user.id == id && user.username@
                    == raw_username@,
                Err(e) => is_blank(raw_username@) && e == (UserError::UsernameEmptyError {
                    source: UsernameEmptyError,
                }),
            },
    {
        match Username::new(raw_username) {
            Ok(username) => Ok(User { id, username }),
            Err(source) => Err(UserError::from(source)),
        }
    }

    /// A user with a fresh, non-zero identifier and the name `raw_username`;
    /// the empty-name error where that name is blank.
    pub fn new(raw_username: &str) -> (r: Result<User, UserError>)
        ensures
            match r {
                Ok(user) => !is_blank(raw_username@) && user.id.0 != 0 && user.username@
                    == raw_username@,
                Err(e) => is_blank(raw_username@) && e == (UserError::UsernameEmptyError {
                    source: UsernameEmptyError,
                }),
            },
    {
        let id = Id::new();
        User::with_id(id, raw_username)
    }
}

impl Clone for User {
    fn clone(&self) -> (r: User)
        ensures
            r == *self,
    {
        User { id: self.id, username: self.username.clone() }
    }
}

} // verus!
