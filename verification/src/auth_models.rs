//! Request and response shapes of the authentication subsystem.

use vstd::prelude::*;

verus! {

/// The projection returned to a caller after a successful login or
/// registration: the username together with the issued session identifier.
/// Never persisted; built fresh on each success path.
#[derive(Clone, Debug)]
pub struct User {
    pub username: String,
    pub user_session: String,
}

/// The credential pair a caller submits to log in or register.  The hash is
/// opaque: it is compared by equality and never interpreted.
#[derive(Clone, Debug)]
pub struct LoginRequest {
    pub username: String,
    pub pass_hash: String,
}

} // verus!
