//! Client-side login state: parsing the stored session cookie, the login-attempt
//! state machine with its published identity, and the startup reconciliation.
use vstd::prelude::*;

pub mod attempt;
pub mod cookies;
pub mod identity;
pub mod laws;
pub mod session;
pub mod text;

verus! {

} // verus!
