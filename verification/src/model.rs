//! Records as the data store holds them.

use vstd::prelude::*;

verus! {

/// A point in time without a time zone, as the store keeps its `created_at`
/// and `updated_at` columns. The library only carries such values through.
#[verifier::external_type_specification]
#[verifier::external_body]
pub struct ExNaiveDateTime(chrono::NaiveDateTime);

/// A registered user. `password` holds the bcrypt hash, never the password.
#[derive(Debug, PartialEq)]
pub struct User {
    pub id: u64,
    pub email: String,
    pub password: String,
    pub firstname: String,
    pub lastname: String,
    pub balance: u64,
    pub created_at: chrono::NaiveDateTime,
    pub updated_at: chrono::NaiveDateTime,
}

/// A spending category of one user, with its own balance.
#[derive(Debug, PartialEq)]
pub struct Category {
    pub id: u64,
    pub user_id: u64,
    pub name: String,
    pub description: Option<String>,
    pub balance: u64,
    pub created_at: chrono::NaiveDateTime,
    pub updated_at: chrono::NaiveDateTime,
}

/// A credit or debit booked by a user against one of their categories.
/// `kind` is the transaction's type as sent by the client (`"DEBIT"`,
/// `"CREDIT"`, or anything else, which counts as a credit when booked).
#[derive(Debug, PartialEq)]
pub struct Transaction {
    pub id: u64,
    pub user_id: u64,
    pub category_id: u64,
    pub kind: String,
    pub amount: u64,
    pub memo: Option<String>,
    pub description: Option<String>,
    pub created_at: chrono::NaiveDateTime,
    pub updated_at: chrono::NaiveDateTime,
}

} // verus!
