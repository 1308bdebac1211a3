//! Users of the service and the requests that create and find them.
use vstd::prelude::*;
use crate::clock::Timestamp;

verus! {

/// A registered user (one row of the `users` table).
#[derive(Debug, Clone)]
pub struct User {
    pub id: i32,
    pub first_name: String,
    pub last_name: String,
    pub email: String,
    pub password: String,
    pub access_level: i32,
    pub is_deleted: bool,
    pub created_at: Timestamp,
}

/// A user row as inserted into the `users` table.
#[derive(Debug, Clone)]
pub struct NewUser {
    pub first_name: String,
    pub last_name: String,
    pub email: String,
    pub password: String,
    pub access_level: i32,
    pub created_at: Timestamp,
}

/// The columns of a user row to change; `None` leaves a column as it is.
#[derive(Debug, Clone)]
pub struct UpdateUser {
    pub first_name: Option<String>,
    pub last_name: Option<String>,
    pub email: Option<String>,
    pub access_level: Option<i32>,
    pub password: Option<String>,
    pub is_deleted: Option<bool>,
}

/// The body of a login request.
#[derive(Debug, Clone)]
pub struct UserDataSignIn {
    pub email: Option<String>,
    pub password: Option<String>,
}

/// The body of a sign-up request.
#[derive(Debug, Clone)]
pub struct UserDataSignUp {
    pub first_name: Option<String>,
    pub last_name: Option<String>,
    pub email: Option<String>,
    pub password: Option<String>,
}

/// Request for the user registered under `email`.
#[derive(Debug, Clone)]
pub struct GetUser {
    pub email: String,
}

/// Request to register a user; `password` is the hashed password.
#[derive(Debug, Clone)]
pub struct CreateUser {
    pub first_name: String,
    pub last_name: String,
    pub email: String,
    pub password: String,
    pub created_at: Timestamp,
    pub access_level: i32,
}

} // verus!
