//! The arguments of the commands that a front end sends to the account
//! system, one struct per command.

use crate::user::User;
use vstd::prelude::*;

verus! {

/// The argument of the command that registers a user.
#[allow(non_snake_case)]
#[derive(Debug)]
pub struct AddUserArgs {
    pub newUser: User,
}

/// The arguments of the command that checks a login.
#[derive(Debug)]
pub struct ValidateLoginArgs {
    pub username: String,
    pub password: String,
}

} // verus!
