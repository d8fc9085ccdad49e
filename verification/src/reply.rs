//! What a handler answers: an HTTP status and a body.

use vstd::prelude::*;
use crate::model::{Category, Transaction};

verus! {

/// The HTTP statuses that the service answers with.
#[derive(Debug, Clone, Copy, PartialEq, Eq, Structural)]
pub enum Status {
    Success,
    Created,
    BadRequest,
    Unauthorized,
    NotFound,
    UnprocessableEntity,
}

impl Status {
    /// The numeric HTTP status code.
    pub open spec fn spec_code(self) -> u16 {
        match self {
            Status::Success => 200,
            Status::Created => 201,
            Status::BadRequest => 400,
            Status::Unauthorized => 401,
            Status::NotFound => 404,
            Status::UnprocessableEntity => 422,
        }
    }

    /// Returns the numeric HTTP status code of this status.
    pub fn code(&self) -> (c: u16)
        ensures
            c == self.spec_code(),
            *self == Status::Success ==> c == 200,
            *self == Status::Created ==> c == 201,
            *self == Status::BadRequest ==> c == 400,
            *self == Status::Unauthorized ==> c == 401,
            *self == Status::NotFound ==> c == 404,
            *self == Status::UnprocessableEntity ==> c == 422,
    {
        match self {
            Status::Success => 200,
            Status::Created => 201,
            Status::BadRequest => 400,
            Status::Unauthorized => 401,
            Status::NotFound => 404,
            Status::UnprocessableEntity => 422,
        }
    }
}

/// The refusals that the service explains to its client.
#[derive(Debug, Clone, Copy, PartialEq, Eq, Structural)]
pub enum ApiError {
    EmailAlreadyExists,
    CategoryNotFound,
    TransactionNotFound,
    Unauthorized,
    InsufficientBalance,
}

impl ApiError {
    /// The `message` field of the JSON error object `{"status": "error", "message": ...}`.
    pub fn message(&self) -> (m: &'static str)
        ensures
            *self == ApiError::EmailAlreadyExists ==> m@ == "Email already exists"@,
            *self == ApiError::CategoryNotFound ==> m@ == "Category not found"@,
            *self == ApiError::TransactionNotFound ==> m@ == "Transaction not found"@,
            *self == ApiError::Unauthorized ==> m@ == "Unauthorized"@,
            *self == ApiError::InsufficientBalance ==> m@ == "Insufficient balance"@,
    {
        match self {
            ApiError::EmailAlreadyExists => "Email already exists",
            ApiError::CategoryNotFound => "Category not found",
            ApiError::TransactionNotFound => "Transaction not found",
            ApiError::Unauthorized => "Unauthorized",
            ApiError::InsufficientBalance => "Insufficient balance",
        }
    }
}

/// The `message` field of the JSON object `{"status": "success", "message": ...}`
/// that answers a successful sign-up.
pub fn user_created_message() -> (m: &'static str)
    ensures
        m@ == "User created successfully"@,
{
    "User created successfully"
}

/// The plain-text answer of `POST /auth/sign-in`.
pub fn sign_in_text() -> (t: &'static str)
    ensures
        t@ == "Sign in"@,
{
    "Sign in"
}

/// The plain-text answer of `GET /api/me`.
pub fn get_profile_text() -> (t: &'static str)
    ensures
        t@ == "Get profile"@,
{
    "Get profile"
}

/// The plain-text answer of `PUT /api/me`.
pub fn update_profile_text() -> (t: &'static str)
    ensures
        t@ == "Update profile"@,
{
    "Update profile"
}

/// The body of a reply, before it is written as JSON.
#[derive(Debug, PartialEq)]
pub enum Body {
    /// `{"status": "error", "message": <the error's message>}`
    Error(ApiError),
    /// `{"status": "success", "message": "User created successfully"}`
    UserCreated,
    /// `{"status": "success"}`
    Deleted,
    /// A category, or `null`.
    Category(Option<Category>),
    /// A list of categories.
    Categories(Vec<Category>),
    /// A transaction, or `null`.
    Transaction(Option<Transaction>),
    /// A list of transactions.
    Transactions(Vec<Transaction>),
}

/// A complete reply of a handler.
#[derive(Debug, PartialEq)]
pub struct Reply {
    pub status: Status,
    pub body: Body,
}

/// The reply that explains a refusal with the given status.
pub open spec fn refusal(status: Status, error: ApiError) -> Reply {
    Reply { status, body: Body::Error(error) }
}

} // verus!
