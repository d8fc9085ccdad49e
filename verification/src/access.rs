//! Ownership checks: a user sees and changes only their own records.

use vstd::prelude::*;
use crate::model::{Category, Transaction};
use crate::reply::{ApiError, Reply, Status, Body, refusal};

verus! {

/// What a handler makes of a category lookup on behalf of `user_id`:
/// no record is a 404 "Category not found", somebody else's record a
/// 401 "Unauthorized", and the user's own record is handed on.
pub open spec fn category_access(user_id: u64, found: Option<Category>) -> Result<Category, Reply> {
    match found {
        None => Err(refusal(Status::NotFound, ApiError::CategoryNotFound)),
        Some(c) => if c.user_id != user_id {
            Err(refusal(Status::Unauthorized, ApiError::Unauthorized))
        } else {
            Ok(c)
        },
    }
}

/// The same check for a transaction lookup; no record is a 404
/// "Transaction not found".
pub open spec fn transaction_access(user_id: u64, found: Option<Transaction>) -> Result<Transaction, Reply> {
    match found {
        None => Err(refusal(Status::NotFound, ApiError::TransactionNotFound)),
        Some(t) => if t.user_id != user_id {
            Err(refusal(Status::Unauthorized, ApiError::Unauthorized))
        } else {
            Ok(t)
        },
    }
}

/// Checks that the looked-up category exists and belongs to `user_id`.
pub fn authorize_category(user_id: u64, found: Option<Category>) -> (res: Result<Category, Reply>)
    ensures
        res == category_access(user_id, found),
        found is None ==> res == Err::<Category, Reply>(
            Reply { status: Status::NotFound, body: Body::Error(ApiError::CategoryNotFound) },
        ),
        found matches Some(c) ==> (c.user_id != user_id ==> res == Err::<Category, Reply>(
            Reply { status: Status::Unauthorized, body: Body::Error(ApiError::Unauthorized) },
        )) && (c.user_id == user_id ==> res == Ok::<Category, Reply>(c)),
{
    match found {
        None => Err(Reply { status: Status::NotFound, body: Body::Error(ApiError::CategoryNotFound) }),
        Some(c) => {
            if c.user_id != user_id {
                Err(Reply { status: Status::Unauthorized, body: Body::Error(ApiError::Unauthorized) })
            } else {
                Ok(c)
            }
        },
    }
}

/// Checks that the looked-up transaction exists and belongs to `user_id`.
pub fn authorize_transaction(user_id: u64, found: Option<Transaction>) -> (res: Result<Transaction, Reply>)
    ensures
        res == transaction_access(user_id, found),
        found is None ==> res == Err::<Transaction, Reply>(
            Reply { status: Status::NotFound, body: Body::Error(ApiError::TransactionNotFound) },
        ),
        found matches Some(t) ==> (t.user_id != user_id ==> res == Err::<Transaction, Reply>(
            Reply { status: Status::Unauthorized, body: Body::Error(ApiError::Unauthorized) },
        )) && (t.user_id == user_id ==> res == Ok::<Transaction, Reply>(t)),
{
    match found {
        None => Err(Reply { status: Status::NotFound, body: Body::Error(ApiError::TransactionNotFound) }),
        Some(t) => {
            if t.user_id != user_id {
                Err(Reply { status: Status::Unauthorized, body: Body::Error(ApiError::Unauthorized) })
            } else {
                Ok(t)
            }
        },
    }
}

} // verus!
