//! Properties of the login-attempt state machine, proved over its transition
//! functions.
use vstd::prelude::*;

use crate::attempt::{
    after_login, after_logout, after_reconcile, after_request, effect_of_request, projection,
    request_allowed, Attempt, Effect, Request,
};
use crate::identity::Identity;

verus! {

/// A request that is not an edge out of the current state, and a settled
/// result or a reconciliation that arrives in a state that is not waiting for
/// it, leave the state as it was and start no action.
pub proof fn lemma_unlisted_edges_are_noops(
    s: Attempt,
    r: Request,
    login: Result<Identity, Seq<char>>,
    found: Option<Identity>,
)
    ensures
        !request_allowed(s, r) ==> after_request(s, r) == s && effect_of_request(s, r)
            == Effect::Nothing,
        !(s is NeedsLogin) ==> after_login(s, login) == s,
        !(s is NeedsLogout) ==> after_logout(s) == s,
        !(s is Initial) ==> after_reconcile(s, found) == s,
{
}

/// A pending login settles in exactly one of `Succeeded` (on success, with
/// the resolved user) or `Failed` (on error, with its message).
pub proof fn lemma_login_resolves(result: Result<Identity, Seq<char>>)
    ensures
        after_login(Attempt::NeedsLogin, result) is Succeeded != after_login(
            Attempt::NeedsLogin,
            result,
        ) is Failed,
        match result {
            Ok(u) => after_login(Attempt::NeedsLogin, result) == Attempt::Succeeded(u),
            Err(m) => after_login(Attempt::NeedsLogin, result) == Attempt::Failed(m),
        },
{
}

/// A pending logout always settles in `NoUser`.
pub proof fn lemma_logout_resolves()
    ensures
        after_logout(Attempt::NeedsLogout) == Attempt::NoUser,
{
}

/// The published identity is `Some(u)` exactly in state `Succeeded(u)`, and
/// absent in every other state.
pub proof fn lemma_projection_matches_state(s: Attempt, u: Identity)
    ensures
        projection(s) == Some(u) <==> s == Attempt::Succeeded(u),
        !(s is Succeeded) ==> projection(s) is None,
{
}

/// Asking to log in twice in a row starts at most one login, and exactly one
/// when the first request is an edge; once in `NeedsLogin`, a further request
/// changes nothing.
pub proof fn lemma_login_request_idempotent(s: Attempt)
    ensures
        ({
            let s1 = after_request(s, Request::Login);
            let e1 = effect_of_request(s, Request::Login);
            let e2 = effect_of_request(s1, Request::Login);
            &&& after_request(s1, Request::Login) == s1
            &&& e2 == Effect::Nothing
            &&& (s is NoUser || s is Failed) ==> e1 == Effect::CallLogin
            &&& s is NeedsLogin ==> e1 == Effect::Nothing && s1 == s
        }),
{
}

/// Logging in and then out returns to `NoUser`, with nothing published,
/// whatever the logout's outcome.
pub proof fn lemma_login_logout_round_trip(u: Identity)
    ensures
        ({
            let s1 = after_request(Attempt::NoUser, Request::Login);
            let s2 = after_login(s1, Ok(u));
            let s3 = after_request(s2, Request::Logout);
            let s4 = after_logout(s3);
            &&& s1 == Attempt::NeedsLogin
            &&& s2 == Attempt::Succeeded(u)
            &&& projection(s2) == Some(u)
            &&& s3 == Attempt::NeedsLogout
            &&& s4 == Attempt::NoUser
            &&& projection(s4) is None
        }),
{
}

} // verus!
