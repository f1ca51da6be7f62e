//! The login-attempt state machine. It owns the attempt state, takes the
//! user's requests and the settled results of login, logout and startup
//! reconciliation, tells its driver which remote action to start, and keeps
//! the published identity equal to the identity of the current state.
use vstd::prelude::*;

use crate::identity::{login_result_view, opt_identity, Identity, UserData};
use crate::text::{chars_of, string_of};

verus! {

/// The state of a login attempt.
#[derive(Clone, Debug, PartialEq, Eq)]
pub enum LoginAttemptStatus {
    /// Reconciliation with the stored session has not run yet.
    Initial,
    /// No active session.
    NoUser,
    /// The user asked to log in; the login has not settled.
    NeedsLogin,
    /// The user asked to log out; the logout has not settled.
    NeedsLogout,
    /// The last login failed, for the given reason.
    Failed(String),
    /// An active session of the given user.
    Succeeded(UserData),
}

/// The mathematical value of a [`LoginAttemptStatus`].
pub enum Attempt {
    Initial,
    NoUser,
    NeedsLogin,
    NeedsLogout,
    Failed(Seq<char>),
    Succeeded(Identity),
}

impl View for LoginAttemptStatus {
    type V = Attempt;

    open spec fn view(&self) -> Attempt {
        match self {
            LoginAttemptStatus::Initial => Attempt::Initial,
            LoginAttemptStatus::NoUser => Attempt::NoUser,
            LoginAttemptStatus::NeedsLogin => Attempt::NeedsLogin,
            LoginAttemptStatus::NeedsLogout => Attempt::NeedsLogout,
            LoginAttemptStatus::Failed(m) => Attempt::Failed(m@),
            LoginAttemptStatus::Succeeded(u) => Attempt::Succeeded(u@),
        }
    }
}

/// A request of the user.
#[derive(Clone, Copy, Debug, PartialEq, Eq, Structural)]
pub enum Request {
    Login,
    Logout,
    Reset,
}

/// The remote action that the driver is to start after a transition.
#[derive(Clone, Copy, Debug, PartialEq, Eq, Structural)]
pub enum Effect {
    Nothing,
    CallLogin,
    CallLogout,
}

/// Whether request `r` is an edge out of state `s`.
pub open spec fn request_allowed(s: Attempt, r: Request) -> bool {
    match r {
        Request::Login => s is NoUser || s is Failed,
        Request::Logout => s is Succeeded,
        Request::Reset => s is Failed,
    }
}

/// The state after request `r` in state `s`.
pub open spec fn after_request(s: Attempt, r: Request) -> Attempt {
    if request_allowed(s, r) {
        match r {
            Request::Login => Attempt::NeedsLogin,
            Request::Logout => Attempt::NeedsLogout,
            Request::Reset => Attempt::NoUser,
        }
    } else {
        s
    }
}

/// The action that request `r` in state `s` starts.
pub open spec fn effect_of_request(s: Attempt, r: Request) -> Effect {
    if request_allowed(s, r) {
        match r {
            Request::Login => Effect::CallLogin,
            Request::Logout => Effect::CallLogout,
            Request::Reset => Effect::Nothing,
        }
    } else {
        Effect::Nothing
    }
}

/// The state after a login settles with `result` in state `s`.
pub open spec fn after_login(s: Attempt, result: Result<Identity, Seq<char>>) -> Attempt {
    if s is NeedsLogin {
        match result {
            Ok(u) => Attempt::Succeeded(u),
            Err(m) => Attempt::Failed(m),
        }
    } else {
        s
    }
}

/// The state after a logout settles, whatever its outcome, in state `s`.
pub open spec fn after_logout(s: Attempt) -> Attempt {
    if s is NeedsLogout {
        Attempt::NoUser
    } else {
        s
    }
}

/// The state after startup reconciliation found `found` in state `s`.
pub open spec fn after_reconcile(s: Attempt, found: Option<Identity>) -> Attempt {
    if s is Initial {
        match found {
            Some(u) => Attempt::Succeeded(u),
            None => Attempt::NoUser,
        }
    } else {
        s
    }
}

/// The identity that state `s` publishes.
pub open spec fn projection(s: Attempt) -> Option<Identity> {
    match s {
        Attempt::Succeeded(u) => Some(u),
        _ => None,
    }
}

/// The label shown for a state.
pub open spec fn label_of(s: Attempt) -> Seq<char> {
    match s {
        Attempt::Initial => "No status? But why!?"@,
        Attempt::NoUser => "Nothing to do"@,
        Attempt::NeedsLogin => "Waiting to trigger login..."@,
        Attempt::NeedsLogout => "Waiting to trigger logout..."@,
        Attempt::Failed(m) => "Failed with '"@ + m + "'"@,
        Attempt::Succeeded(u) => "Succeeded for '"@ + u.username + "'"@,
    }
}

fn quoted(prefix: &str, inner: &str) -> (r: String)
    ensures
        r@ == prefix@ + inner@ + "'"@,
{
    let mut out = chars_of(prefix);
    let mut middle = chars_of(inner);
    let mut tail = chars_of("'");
    out.append(&mut middle);
    out.append(&mut tail);
    string_of(&out)
}

impl LoginAttemptStatus {
    /// A copy of this state.
    pub fn duplicate(&self) -> (r: LoginAttemptStatus)
        ensures
            r@ == self@,
    {
        match self {
            LoginAttemptStatus::Initial => LoginAttemptStatus::Initial,
            LoginAttemptStatus::NoUser => LoginAttemptStatus::NoUser,
            LoginAttemptStatus::NeedsLogin => LoginAttemptStatus::NeedsLogin,
            LoginAttemptStatus::NeedsLogout => LoginAttemptStatus::NeedsLogout,
            LoginAttemptStatus::Failed(m) => LoginAttemptStatus::Failed(m.clone()),
            LoginAttemptStatus::Succeeded(u) => LoginAttemptStatus::Succeeded(u.duplicate()),
        }
    }

    /// The displayable label of this state.
    pub fn label(&self) -> (r: String)
        ensures
            r@ == label_of(self@),
    {
        match self {
            LoginAttemptStatus::Initial => "No status? But why!?".to_owned(),
            LoginAttemptStatus::NoUser => "Nothing to do".to_owned(),
            LoginAttemptStatus::NeedsLogin => "Waiting to trigger login...".to_owned(),
            LoginAttemptStatus::NeedsLogout => "Waiting to trigger logout...".to_owned(),
            LoginAttemptStatus::Failed(m) => quoted("Failed with '", m.as_str()),
            LoginAttemptStatus::Succeeded(u) => quoted("Succeeded for '", u.username.as_str()),
        }
    }

    /// The identity that this state publishes.
    pub fn identity(&self) -> (r: Option<UserData>)
        ensures
            opt_identity(r) == projection(self@),
    {
        match self {
            LoginAttemptStatus::Succeeded(u) => Some(u.duplicate()),
            _ => None,
        }
    }
}

/// The state machine and the identity it publishes.
pub struct LoginMachine {
    status: LoginAttemptStatus,
    published: Option<UserData>,
}

impl LoginMachine {
    /// The current state.
    pub closed spec fn state(&self) -> Attempt {
        self.status@
    }

    /// The published identity.
    pub closed spec fn slot(&self) -> Option<Identity> {
        opt_identity(self.published)
    }

    /// The published identity is the one of the current state.
    pub open spec fn wf(&self) -> bool {
        self.slot() == projection(self.state())
    }

    /// A machine in which reconciliation has not run yet.
    pub fn new() -> (m: LoginMachine)
        ensures
            m.wf(),
            m.state() == Attempt::Initial,
    {
        LoginMachine { status: LoginAttemptStatus::Initial, published: None }
    }

    /// The current state.
    pub fn status(&self) -> (r: &LoginAttemptStatus)
        ensures
            r@ == self.state(),
    {
        &self.status
    }

    /// The published identity.
    pub fn published(&self) -> (r: &Option<UserData>)
        ensures
            opt_identity(*r) == self.slot(),
    {
        &self.published
    }

    fn enter(&mut self, next: LoginAttemptStatus)
        ensures
            final(self).state() == next@,
            final(self).wf(),
    {
        self.published = next.identity();
        self.status = next;
    }

    /// Applies request `r`: follows its edge where the current state has one,
    /// and otherwise changes nothing. Returns the action to start.
    pub fn request(&mut self, r: Request) -> (e: Effect)
        requires
            old(self).wf(),
        ensures
            final(self).wf(),
            final(self).state() == after_request(old(self).state(), r),
            e == effect_of_request(old(self).state(), r),
    {
        match (r, &self.status) {
            (Request::Login, LoginAttemptStatus::NoUser) | (
                Request::Login,
                LoginAttemptStatus::Failed(_),
            ) => {
                self.enter(LoginAttemptStatus::NeedsLogin);
                Effect::CallLogin
            },
            (Request::Logout, LoginAttemptStatus::Succeeded(_)) => {
                self.enter(LoginAttemptStatus::NeedsLogout);
                Effect::CallLogout
            },
            (Request::Reset, LoginAttemptStatus::Failed(_)) => {
                self.enter(LoginAttemptStatus::NoUser);
                Effect::Nothing
            },
            _ => Effect::Nothing,
        }
    }

    /// The user asks to log in.
    pub fn request_login(&mut self) -> (e: Effect)
        requires
            old(self).wf(),
        ensures
            final(self).wf(),
            final(self).state() == after_request(old(self).state(), Request::Login),
            e == effect_of_request(old(self).state(), Request::Login),
    {
        self.request(Request::Login)
    }

    /// The user asks to log out.
    pub fn request_logout(&mut self) -> (e: Effect)
        requires
            old(self).wf(),
        ensures
            final(self).wf(),
            final(self).state() == after_request(old(self).state(), Request::Logout),
            e == effect_of_request(old(self).state(), Request::Logout),
    {
        self.request(Request::Logout)
    }

    /// The user acknowledges a failed login.
    pub fn reset(&mut self)
        requires
            old(self).wf(),
        ensures
            final(self).wf(),
            final(self).state() == after_request(old(self).state(), Request::Reset),
    {
        self.request(Request::Reset);
    }

    /// A login settled with `result`; a result that arrives outside
    /// `NeedsLogin` is stale and changes nothing.
    pub fn login_settled(&mut self, result: Result<UserData, String>)
        requires
            old(self).wf(),
        ensures
            final(self).wf(),
            final(self).state() == after_login(old(self).state(), login_result_view(result)),
    {
        if let LoginAttemptStatus::NeedsLogin = self.status {
            match result {
                Ok(u) => self.enter(LoginAttemptStatus::Succeeded(u)),
                Err(m) => self.enter(LoginAttemptStatus::Failed(m)),
            }
        }
    }

    /// A logout settled; success and failure alike end the session. A result
    /// that arrives outside `NeedsLogout` is stale and changes nothing.
    pub fn logout_settled(&mut self, result: Result<(), String>)
        requires
            old(self).wf(),
        ensures
            final(self).wf(),
            final(self).state() == after_logout(old(self).state()),
    {
        if let LoginAttemptStatus::NeedsLogout = self.status {
            self.enter(LoginAttemptStatus::NoUser);
        }
    }

    /// Startup reconciliation found `found`; it seeds the state only while
    /// the machine is still in `Initial`.
    pub fn reconciled(&mut self, found: Option<UserData>)
        requires
            old(self).wf(),
        ensures
            final(self).wf(),
            final(self).state() == after_reconcile(old(self).state(), opt_identity(found)),
    {
        if let LoginAttemptStatus::Initial = self.status {
            match found {
                Some(u) => self.enter(LoginAttemptStatus::Succeeded(u)),
                None => self.enter(LoginAttemptStatus::NoUser),
            }
        }
    }
}

} // verus!
