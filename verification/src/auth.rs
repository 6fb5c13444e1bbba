//! What the controller sees of the sign-in store.
//!
//! The store itself (the token on disk, the sign-in request in flight) is
//! kept elsewhere. The controller is handed the token when a session starts
//! and reads the session's names.

use vstd::prelude::*;

verus! {

/// Who is signed in.
#[derive(Debug, PartialEq, Eq)]
pub struct Session {
    pub actor_name: String,
    pub account_slug: String,
}

} // verus!
