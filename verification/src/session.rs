//! Request authentication: turning a session token into the user it names.
//! A request is authenticated exactly when its token validates and the user
//! row it names still exists.

use vstd::prelude::*;
use vstd::string::*;

use crate::error::DbError;
use crate::models::User;
use crate::oauth::FEDIURL_SESSION;
use crate::rewrite::RespondOrRedirect;
use crate::store::UserStore;
use crate::token::validate_spec;

verus! {

/// A user whose session token validated and whose row exists.
pub struct AuthenticatedUser(User);

/// Why a request could not be authenticated.
#[derive(Debug)]
pub enum AuthenticatedUserError {
    /// The user row the token names no longer exists.
    Database(DbError),
    /// The token itself did not validate.
    GuardFailure,
}

impl From<DbError> for AuthenticatedUserError {
    fn from(err: DbError) -> (r: Self)
        ensures
            r == AuthenticatedUserError::Database(err),
    {
        AuthenticatedUserError::Database(err)
    }
}

impl vstd::std_specs::convert::FromSpecImpl<DbError> for AuthenticatedUserError {
    open spec fn obeys_from_spec() -> bool {
        true
    }

    open spec fn from_spec(t: DbError) -> Self {
        AuthenticatedUserError::Database(t)
    }
}

impl AuthenticatedUser {
    /// The user this value authenticates.
    pub closed spec fn user_spec(&self) -> User {
        self.0
    }

    /// Wraps a user row that authentication established.
    pub fn from_user(user: User) -> (r: AuthenticatedUser)
        ensures
            r.user_spec() == user,
    {
        AuthenticatedUser(user)
    }

    /// The authenticated user's id.
    pub fn id(&self) -> (r: i64)
        ensures
            r == self.user_spec().id.0,
    {
        self.0.id.value()
    }

    /// The authenticated user's row.
    pub fn user(&self) -> (r: &User)
        ensures
            *r == self.user_spec(),
    {
        &self.0
    }

    /// The authenticated user's row, by value.
    pub fn into_inner(self) -> (r: User)
        ensures
            r == self.user_spec(),
    {
        self.0
    }
}

/// Logs the user out: names the session cookie the transport must remove,
/// and the flash-messaged redirect home the browser receives.
pub fn delete() -> (r: (String, RespondOrRedirect))
    ensures
        r.0@ == FEDIURL_SESSION@,
        r.1 matches RespondOrRedirect::FlashRedirect(to, m) && to@ == "/"@ && m@
            == "You have been logged out"@,
{
    (
        FEDIURL_SESSION.to_owned(),
        RespondOrRedirect::FlashRedirect("/".to_owned(), "You have been logged out".to_owned()),
    )
}

/// Authenticates a request from its session token: the token must validate
/// under the key at this moment, and the user it names must still exist.
pub fn authenticate(users: &UserStore, token: &str, key: u64, now: i64) -> (r: Result<
    AuthenticatedUser,
    AuthenticatedUserError,
>)
    requires
        users.wf(),
    ensures
        (validate_spec(token@, key, now) is None) <==> (r matches Err(
            AuthenticatedUserError::GuardFailure,
        )),
        r matches Ok(au) ==> (validate_spec(token@, key, now) == Some(au.user_spec().id.0 as u64)
            && 1 <= au.user_spec().id.0 <= users@.len() && au.user_spec() == users@[
        au.user_spec().id.0 - 1]),
        r matches Err(AuthenticatedUserError::Database(e)) ==> (e is NotFound && (validate_spec(
            token@,
            key,
            now,
        ) matches Some(uid) && !(1 <= uid <= users@.len()))),
{
    let user_id = match crate::token::validate(token, key, now) {
        Some(uid) => uid,
        None => {
            return Err(AuthenticatedUserError::GuardFailure);
        },
    };
    match User::from_id(users, user_id) {
        Ok(user) => Ok(AuthenticatedUser(user)),
        Err(_) => Err(AuthenticatedUserError::Database(DbError::NotFound)),
    }
}

} // verus!
