//! The authentication payload shared between client and server.

use vstd::prelude::*;

verus! {

/// Everything needed to authenticate a user: the account name and its
/// passphrase. Owned by whichever process persists it; stored as JSON.
pub struct AuthPayload {
    pub username: String,
    pub passphrase: String,
}

} // verus!
