//! The records of the `users` table.

use vstd::prelude::*;

verus! {

/// A stored user, as a row of the table gives it.
#[derive(Clone, Debug)]
pub struct User {
    pub id: i32,
    pub name: String,
    pub email: String,
}

/// The name and email of a user to store, as a request body gives them.
#[derive(Clone, Debug)]
pub struct NewUser {
    pub name: String,
    pub email: String,
}

} // verus!
