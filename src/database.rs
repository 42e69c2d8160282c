//! Rows as the storage engine hands them over.
use vstd::prelude::*;

verus! {

/// A registered user.
#[derive(Debug, Clone)]
pub struct User {
    pub id: i64,
    pub email: String,
    pub password: String,
    pub username: String,
    pub bio: Option<String>,
    pub image: Option<String>,
}

/// A user as seen by the current viewer.
#[derive(Debug, Clone)]
pub struct Profile {
    pub username: String,
    pub bio: Option<String>,
    pub image: Option<String>,
    /// Whether the current viewer follows this user.
    pub following: bool,
}

} // verus!
