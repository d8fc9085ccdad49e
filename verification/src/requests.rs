//! Bodies of the requests that the service accepts.

use vstd::prelude::*;

verus! {

/// Body of `POST /auth/sign-up`.
#[derive(Debug, PartialEq)]
pub struct SignUpRequest {
    pub email: String,
    pub password: String,
    pub firstname: String,
    pub lastname: String,
}

/// Body of `POST /api/categories`.
#[derive(Debug, PartialEq)]
pub struct CreateCategoryRequest {
    pub name: String,
    pub description: Option<String>,
    pub balance: u64,
}

/// Body of `PUT /api/categories/{id}`.
#[derive(Debug, PartialEq)]
pub struct UpdateCategoryRequest {
    pub name: String,
    pub description: Option<String>,
    pub balance: u64,
}

/// Body of `POST /api/transactions`; `kind` travels as the JSON field `type`.
#[derive(Debug, PartialEq)]
pub struct CreateTransactionRequest {
    pub category_id: u64,
    pub kind: String,
    pub amount: u64,
    pub memo: Option<String>,
    pub description: Option<String>,
}

/// Body of `PUT /api/transactions/{id}`: only the free-text fields change.
#[derive(Debug, PartialEq)]
pub struct UpdateTransactionRequest {
    pub memo: Option<String>,
    pub description: Option<String>,
}

} // verus!
