//! The user record that the store resolves a token's subject to.

use vstd::prelude::*;

use crate::role::UserRole;

verus! {

/// A user as the store holds it. Once resolved for a request, it is the
/// identity on whose behalf the request runs.
///
/// The two times are microseconds since the Unix epoch.
#[derive(Debug)]
pub struct User {
    pub id: String,
    pub name: String,
    pub email: String,
    pub password: String,
    pub role: UserRole,
    pub photo: String,
    pub verified: bool,
    pub created_at: i64,
    pub updated_at: i64,
}

} // verus!
