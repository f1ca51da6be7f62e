//! The resolved user identity, and what the remote identity service makes of
//! the session cookie.
use vstd::prelude::*;

use crate::cookies::INVALID_COOKIE_VALUE;
use crate::text::{chars_of, string_of};

verus! {

/// The credential that a successful login stores in the session cookie.
pub const LOGIN_CREDENTIAL: &'static str = "bananas";

/// The error message of a login after which no user could be resolved.
pub const NOT_LOGGED_IN_MESSAGE: &'static str = "User is not logged-in";

/// A resolved user: name and admin flag.
#[derive(Clone, Debug, PartialEq, Eq)]
pub struct UserData {
    pub username: String,
    pub admin: bool,
}

/// The body of a request that names a user.
#[derive(Clone, Debug, PartialEq, Eq)]
pub struct UserRequestData {
    pub username: String,
}

/// The mathematical value of a [`UserData`].
pub struct Identity {
    pub username: Seq<char>,
    pub admin: bool,
}

impl View for UserData {
    type V = Identity;

    open spec fn view(&self) -> Identity {
        Identity { username: self.username@, admin: self.admin }
    }
}

impl View for UserRequestData {
    type V = Seq<char>;

    open spec fn view(&self) -> Seq<char> {
        self.username@
    }
}

pub open spec fn opt_identity(o: Option<UserData>) -> Option<Identity> {
    match o {
        Some(u) => Some(u@),
        None => None,
    }
}

impl UserData {
    /// A copy of this user.
    pub fn duplicate(&self) -> (r: UserData)
        ensures
            r@ == self@,
    {
        UserData { username: self.username.clone(), admin: self.admin }
    }

    /// The request body that names this user.
    pub fn request_data(&self) -> (r: UserRequestData)
        ensures
            r@ == self@.username,
    {
        UserRequestData { username: self.username.clone() }
    }
}

/// The user that a session cookie stands for: its value as a non-admin user
/// name, unless the cookie is absent or holds the invalidation marker.
pub open spec fn identity_of_cookie(cookie: Option<Seq<char>>) -> Option<Identity> {
    match cookie {
        Some(v) => if v == INVALID_COOKIE_VALUE@ {
            None
        } else {
            Some(Identity { username: v, admin: false })
        },
        None => None,
    }
}

/// Resolves the user that the session cookie value `auth_cookie` stands for.
pub fn identity_from_cookie(auth_cookie: Option<String>) -> (r: Option<UserData>)
    ensures
        opt_identity(r) == identity_of_cookie(
            match auth_cookie {
                Some(s) => Some(s@),
                None => None,
            },
        ),
{
    match auth_cookie {
        Some(value) => {
            let invalid = INVALID_COOKIE_VALUE.to_owned();
            if value == invalid {
                None
            } else {
                Some(UserData { username: value, admin: false })
            }
        },
        None => None,
    }
}

/// The outcome of a login, from the user that the identity service resolved
/// once the credential was stored.
pub open spec fn login_outcome_of(resolved: Result<Option<Identity>, Seq<char>>) -> Result<
    Identity,
    Seq<char>,
> {
    match resolved {
        Ok(Some(u)) => Ok(u),
        Ok(None) => Err(NOT_LOGGED_IN_MESSAGE@),
        Err(m) => Err(m),
    }
}

pub open spec fn resolved_view(r: Result<Option<UserData>, String>) -> Result<
    Option<Identity>,
    Seq<char>,
> {
    match r {
        Ok(o) => Ok(opt_identity(o)),
        Err(m) => Err(m@),
    }
}

pub open spec fn login_result_view(r: Result<UserData, String>) -> Result<Identity, Seq<char>> {
    match r {
        Ok(u) => Ok(u@),
        Err(m) => Err(m@),
    }
}

/// Finishes a login: the resolved user, or an error when none was resolved.
pub fn login_outcome(resolved: Result<Option<UserData>, String>) -> (r: Result<UserData, String>)
    ensures
        login_result_view(r) == login_outcome_of(resolved_view(resolved)),
{
    match resolved {
        Ok(Some(u)) => Ok(u),
        Ok(None) => Err(NOT_LOGGED_IN_MESSAGE.to_owned()),
        Err(m) => Err(m),
    }
}

/// The text shown for the published user.
pub open spec fn greeting_of(user: Option<Identity>) -> Seq<char> {
    match user {
        Some(u) => "Hello there, "@ + u.username + "!"@,
        None => "You're a mystery. Please log-in"@,
    }
}

/// The greeting shown for the published user.
pub fn greeting(user: &Option<UserData>) -> (r: String)
    ensures
        r@ == greeting_of(opt_identity(*user)),
{
    match user {
        Some(u) => {
            let mut out = chars_of("Hello there, ");
            let mut name = chars_of(u.username.as_str());
            let mut tail = chars_of("!");
            out.append(&mut name);
            out.append(&mut tail);
            string_of(&out)
        },
        None => "You're a mystery. Please log-in".to_owned(),
    }
}

} // verus!
