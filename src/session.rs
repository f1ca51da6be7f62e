//! Startup reconciliation: derives the first resting state from the stored
//! session credential and, where one is stored, from the identity service.
use vstd::prelude::*;

use crate::identity::{opt_identity, Identity, UserData};

verus! {

/// What reconciliation does next.
pub enum ReconcileStep {
    /// Reconciliation is over, with the given user (or none).
    Settled(Option<UserData>),
    /// A credential is stored: ask the identity service who it belongs to.
    FetchIdentity,
}

/// Whether storage reported a stored credential. A storage error counts as
/// no credential.
pub open spec fn credential_found(stored: Result<Option<Seq<char>>, Seq<char>>) -> bool {
    stored matches Ok(Some(_))
}

/// The user that reconciliation settles on once the identity service
/// answered; an error counts as no session.
pub open spec fn reconciled_identity(fetched: Result<Option<Identity>, Seq<char>>) -> Option<
    Identity,
> {
    match fetched {
        Ok(o) => o,
        Err(_) => None,
    }
}

pub open spec fn stored_view(stored: Result<Option<String>, String>) -> Result<
    Option<Seq<char>>,
    Seq<char>,
> {
    match stored {
        Ok(Some(s)) => Ok(Some(s@)),
        Ok(None) => Ok(None),
        Err(e) => Err(e@),
    }
}

pub open spec fn fetched_view(fetched: Result<Option<UserData>, String>) -> Result<
    Option<Identity>,
    Seq<char>,
> {
    match fetched {
        Ok(o) => Ok(opt_identity(o)),
        Err(e) => Err(e@),
    }
}

/// First step of reconciliation, from what storage holds under the session
/// credential key: settle on no user, or ask the identity service.
pub fn reconcile_stored(stored: &Result<Option<String>, String>) -> (r: ReconcileStep)
    ensures
        credential_found(stored_view(*stored)) <==> r is FetchIdentity,
        !credential_found(stored_view(*stored)) ==> (r matches ReconcileStep::Settled(None)),
{
    match stored {
        Ok(Some(_)) => ReconcileStep::FetchIdentity,
        _ => ReconcileStep::Settled(None),
    }
}

/// Last step of reconciliation, from the identity service's answer.
pub fn reconcile_fetched(fetched: Result<Option<UserData>, String>) -> (r: Option<UserData>)
    ensures
        opt_identity(r) == reconciled_identity(fetched_view(fetched)),
{
    match fetched {
        Ok(o) => o,
        Err(_) => None,
    }
}

} // verus!
