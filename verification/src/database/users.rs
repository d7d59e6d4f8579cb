//! User records.

use vstd::prelude::*;

verus! {

/// A user name with the stored form of its password.
#[derive(Clone, Debug)]
pub struct UsernameWithPassword {
    pub username: String,
    pub password: Vec<u8>,
}

/// A request to change a password.
#[derive(Clone, Debug)]
pub struct UserPasswordUpdate {
    pub username: String,
    pub old_password: String,
    pub new_password: String,
}

} // verus!
