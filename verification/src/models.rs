//! Plain data records exchanged with the data-access collaborator.
//!
//! The core treats the relational store as an external collaborator; the
//! records it hands back and the inputs handed to it are plain values.

use vstd::prelude::*;

verus! {

/// A user row: identifier, username, email, and the creation timestamp
/// as the store formats it (absent when the row has none).
#[derive(Debug)]
pub struct User {
    pub id: i32,
    pub username: String,
    pub email: String,
    pub created_at: Option<String>,
}

/// The fields a caller supplies to create a user.
#[derive(Debug)]
pub struct CreateUserInput {
    pub username: String,
    pub email: String,
}

} // verus!
