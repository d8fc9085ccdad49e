//! What each route does, stated directly in terms of the request, the
//! store's answers and the replies: one law per route, over all inputs.

use vstd::prelude::*;
use crate::handler::{Action, Endpoint, Outcome, Phase, Query, next, sign_up_start, start_of};
use crate::model::{Category, Transaction, User};
use crate::reply::{ApiError, Body, Reply, Status};
use crate::requests::{
    CreateCategoryRequest, CreateTransactionRequest, SignUpRequest, UpdateCategoryRequest,
    UpdateTransactionRequest,
};

verus! {

/// A reply that refuses with `status` and the error's message.
pub open spec fn refused(status: Status, error: ApiError) -> Action {
    Action::Reply(Reply { status, body: Body::Error(error) })
}

/// `GET /api/categories` asks the store for the requester's categories and
/// answers every list it gets with 200 and exactly that list.
pub proof fn law_list_categories(user_id: u64, all: Vec<Category>)
    ensures
        ({
            let (h0, a0) = start_of(user_id, Endpoint::ListCategories);
            let (h1, a1) = next(h0, Outcome::Categories(all));
            &&& a0 == Action::Ask(Query::GetAllCategoriesOfUser(user_id))
            &&& a1 == Action::Reply(Reply { status: Status::Success, body: Body::Categories(all) })
            &&& h1.phase is Finished
        }),
{
}

/// `GET /api/transactions` asks the store for the requester's transactions
/// and answers every list it gets with 200 and exactly that list.
pub proof fn law_list_transactions(user_id: u64, all: Vec<Transaction>)
    ensures
        ({
            let (h0, a0) = start_of(user_id, Endpoint::ListTransactions);
            let (h1, a1) = next(h0, Outcome::Transactions(all));
            &&& a0 == Action::Ask(Query::GetAllTransactionsOfUser(user_id))
            &&& a1 == Action::Reply(Reply { status: Status::Success, body: Body::Transactions(all) })
            &&& h1.phase is Finished
        }),
{
}

/// `POST /api/categories` inserts the request body unchanged for the
/// requester and answers 201 with the record read back, or gives up when
/// none is read back.
pub proof fn law_create_category(user_id: u64, data: CreateCategoryRequest, created: Option<Category>)
    ensures
        ({
            let (h0, a0) = start_of(user_id, Endpoint::CreateCategory(data));
            let (h1, a1) = next(h0, Outcome::Category(created));
            &&& a0 == Action::Ask(Query::CreateCategory(user_id, data))
            &&& h1.phase is Finished
            &&& created is None ==> a1 == Action::Abort
            &&& created is Some ==> a1 == Action::Reply(Reply { status: Status::Created, body: Body::Category(created) })
        }),
{
}

/// `GET /api/categories/{id}` looks the category up: 404 when there is none,
/// 401 when it is another user's, else 200 with the record.
pub proof fn law_show_category(user_id: u64, id: u64, found: Option<Category>)
    ensures
        ({
            let (h0, a0) = start_of(user_id, Endpoint::ShowCategory(id));
            let (h1, a1) = next(h0, Outcome::Category(found));
            &&& a0 == Action::Ask(Query::GetCategoryById(id))
            &&& h1.phase is Finished
            &&& match found {
                None => a1 == refused(Status::NotFound, ApiError::CategoryNotFound),
                Some(c) => if c.user_id != user_id {
                    a1 == refused(Status::Unauthorized, ApiError::Unauthorized)
                } else {
                    a1 == Action::Reply(Reply { status: Status::Success, body: Body::Category(found) })
                },
            }
        }),
{
}

/// `PUT /api/categories/{id}`: 404 when there is no such category, 401 when
/// it is another user's; for the owner, the store is asked to overwrite that
/// category with the request body unchanged, and the reply is 200 with
/// whatever the store reads back after the write.
pub proof fn law_update_category(
    user_id: u64,
    id: u64,
    data: UpdateCategoryRequest,
    found: Option<Category>,
    updated: Option<Category>,
)
    ensures
        ({
            let (h0, a0) = start_of(user_id, Endpoint::UpdateCategory(id, data));
            let (h1, a1) = next(h0, Outcome::Category(found));
            let (h2, a2) = next(h1, Outcome::Category(updated));
            &&& a0 == Action::Ask(Query::GetCategoryById(id))
            &&& match found {
                None => a1 == refused(Status::NotFound, ApiError::CategoryNotFound) && h1.phase is Finished,
                Some(c) => if c.user_id != user_id {
                    a1 == refused(Status::Unauthorized, ApiError::Unauthorized) && h1.phase is Finished
                } else {
                &&& a1 == Action::Ask(Query::UpdateCategoryById(c.id, data))
                    &&& a2 == Action::Reply(Reply { status: Status::Success, body: Body::Category(updated) })
                    &&& h2.phase is Finished
                },
            }
        }),
{
}

/// `DELETE /api/categories/{id}`: 404 when there is no such category, 401
/// when it is another user's; only the owner's category is deleted, and only
/// then is the reply 200 `{"status": "success"}`.
pub proof fn law_destroy_category(user_id: u64, id: u64, found: Option<Category>)
    ensures
        ({
            let (h0, a0) = start_of(user_id, Endpoint::DestroyCategory(id));
            let (h1, a1) = next(h0, Outcome::Category(found));
            let (h2, a2) = next(h1, Outcome::Done);
            &&& a0 == Action::Ask(Query::GetCategoryById(id))
            &&& match found {
                None => a1 == refused(Status::NotFound, ApiError::CategoryNotFound) && h1.phase is Finished,
                Some(c) => if c.user_id != user_id {
                    a1 == refused(Status::Unauthorized, ApiError::Unauthorized) && h1.phase is Finished
                } else {
                &&& a1 == Action::Ask(Query::DeleteCategoryById(c.id))
                    &&& a2 == Action::Reply(Reply { status: Status::Success, body: Body::Deleted })
                    &&& h2.phase is Finished
                },
            }
            &&& a1 != Action::Reply(Reply { status: Status::Success, body: Body::Deleted })
        }),
{
}

/// `GET /api/category/{id}/transactions`: 404 when there is no such category,
/// 401 when it is another user's; for the owner, the transactions of that
/// category id are listed with 200, exactly as the store returns them.
pub proof fn law_category_transactions(
    user_id: u64,
    id: u64,
    found: Option<Category>,
    all: Vec<Transaction>,
)
    ensures
        ({
            let (h0, a0) = start_of(user_id, Endpoint::CategoryTransactions(id));
            let (h1, a1) = next(h0, Outcome::Category(found));
            let (h2, a2) = next(h1, Outcome::Transactions(all));
            &&& a0 == Action::Ask(Query::GetCategoryById(id))
            &&& match found {
                None => a1 == refused(Status::NotFound, ApiError::CategoryNotFound) && h1.phase is Finished,
                Some(c) => if c.user_id != user_id {
                    a1 == refused(Status::Unauthorized, ApiError::Unauthorized) && h1.phase is Finished
                } else {
                &&& a1 == Action::Ask(Query::GetAllByCategory(id))
                    &&& a2 == Action::Reply(Reply { status: Status::Success, body: Body::Transactions(all) })
                    &&& h2.phase is Finished
                },
            }
        }),
{
}

/// `GET /api/transactions/{id}`: 404 when there is no such transaction, 401
/// when it is another user's, else 200 with the record.
pub proof fn law_show_transaction(user_id: u64, id: u64, found: Option<Transaction>)
    ensures
        ({
            let (h0, a0) = start_of(user_id, Endpoint::ShowTransaction(id));
            let (h1, a1) = next(h0, Outcome::Transaction(found));
            &&& a0 == Action::Ask(Query::GetTransactionById(id))
            &&& h1.phase is Finished
            &&& match found {
                None => a1 == refused(Status::NotFound, ApiError::TransactionNotFound),
                Some(t) => if t.user_id != user_id {
                    a1 == refused(Status::Unauthorized, ApiError::Unauthorized)
                } else {
                    a1 == Action::Reply(Reply { status: Status::Success, body: Body::Transaction(found) })
                },
            }
        }),
{
}

/// `PUT /api/transactions/{id}`: 404 when there is no such transaction, 401
/// when it is another user's; for the owner, the store is asked to write the
/// request body unchanged to that transaction, and the reply is 200 with the
/// record the store reads back after the write, not the one from before.
pub proof fn law_update_transaction(
    user_id: u64,
    id: u64,
    data: UpdateTransactionRequest,
    found: Option<Transaction>,
    updated: Option<Transaction>,
)
    ensures
        ({
            let (h0, a0) = start_of(user_id, Endpoint::UpdateTransaction(id, data));
            let (h1, a1) = next(h0, Outcome::Transaction(found));
            let (h2, a2) = next(h1, Outcome::Transaction(updated));
            &&& a0 == Action::Ask(Query::GetTransactionById(id))
            &&& match found {
                None => a1 == refused(Status::NotFound, ApiError::TransactionNotFound) && h1.phase is Finished,
                Some(t) => if t.user_id != user_id {
                    a1 == refused(Status::Unauthorized, ApiError::Unauthorized) && h1.phase is Finished
                } else {
                &&& a1 == Action::Ask(Query::UpdateTransactionById(t.id, data))
                    &&& a2 == Action::Reply(Reply { status: Status::Success, body: Body::Transaction(updated) })
                    &&& h2.phase is Finished
                },
            }
        }),
{
}

/// `POST /auth/sign-up` asks whether the email is taken: if it is, 422
/// "Email already exists" and nothing is inserted; if not, the request is
/// handed to the store's insert unchanged and the reply is 201, whatever the
/// insert reports.
pub proof fn law_sign_up(data: SignUpRequest, taken: bool, inserted: bool)
    ensures
        ({
            let (h0, a0) = sign_up_start(data);
            let (h1, a1) = next(h0, Outcome::Flag(taken));
            let (h2, a2) = next(h1, Outcome::Flag(inserted));
            &&& a0 == Action::Ask(Query::HasUserWithEmail(data.email))
            &&& taken ==> a1 == refused(Status::UnprocessableEntity, ApiError::EmailAlreadyExists)
                && h1.phase is Finished
            &&& !taken ==> {
                &&& a1 == Action::Ask(Query::CreateUser(data))
                &&& a2 == Action::Reply(Reply { status: Status::Created, body: Body::UserCreated })
                &&& h2.phase is Finished
            }
        }),
{
}

/// `POST /api/transactions`, up to the insert. The authenticated user's
/// record is fetched (no record: give up), then the category named in the
/// request: 404 when there is none, 401 when it is not that user's, 422 for a
/// `"DEBIT"` larger than the user's or the category's balance. Otherwise the
/// request body is inserted unchanged for that user.
pub proof fn law_create_transaction_checks(
    user_id: u64,
    data: CreateTransactionRequest,
    user: Option<User>,
    found: Option<Category>,
)
    ensures
        ({
            let (h0, a0) = start_of(user_id, Endpoint::CreateTransaction(data));
            let (h1, a1) = next(h0, Outcome::User(user));
            let (h2, a2) = next(h1, Outcome::Category(found));
            &&& a0 == Action::Ask(Query::GetAuthenticatedUser(user_id))
            &&& user is None ==> a1 == Action::Abort && h1.phase is Finished
            &&& match user {
                None => a1 == Action::Abort && h1.phase is Finished,
                Some(u) => {
                    &&& a1 == Action::Ask(Query::GetCategoryById(data.category_id))
                    &&& match found {
                        None => a2 == refused(Status::NotFound, ApiError::CategoryNotFound) && h2.phase is Finished,
                        Some(c) => if c.user_id != u.id {
                            a2 == refused(Status::Unauthorized, ApiError::Unauthorized) && h2.phase is Finished
                        } else if data.kind@ == "DEBIT"@ && (u.balance < data.amount || c.balance < data.amount) {
                            a2 == refused(Status::UnprocessableEntity, ApiError::InsufficientBalance)
                                && h2.phase is Finished
                        } else {
                            a2 == Action::Ask(Query::CreateTransaction(u.id, data))
                        },
                    }
                },
            }
        }),
{
}

/// `POST /api/transactions`, from the insert on, for an accepted booking of
/// `data` by the user record `u` in its own category `c`. No record read
/// back: give up. Otherwise a `"DEBIT"` takes the amount off, anything else
/// adds it: the category's new balance is handed to the store, then the
/// user's, and the reply is 201 with the record read back. A balance that
/// would leave the range of `u64` gives up before any balance is written.
pub proof fn law_create_transaction_booking(
    user_id: u64,
    data: CreateTransactionRequest,
    u: User,
    c: Category,
    created: Option<Transaction>,
)
    requires
        c.user_id == u.id,
        !(data.kind@ == "DEBIT"@ && (u.balance < data.amount || c.balance < data.amount)),
    ensures
        ({
            let (h0, a0) = start_of(user_id, Endpoint::CreateTransaction(data));
            let (h1, a1) = next(h0, Outcome::User(Some(u)));
            let (h2, a2) = next(h1, Outcome::Category(Some(c)));
            let (h3, a3) = next(h2, Outcome::Transaction(created));
            let (h4, a4) = next(h3, Outcome::Done);
            let (h5, a5) = next(h4, Outcome::Done);
            let debit = data.kind@ == "DEBIT"@;
            let new_user: int = if debit { u.balance - data.amount } else { u.balance + data.amount };
            let new_category: int = if debit { c.balance - data.amount } else { c.balance + data.amount };
            let fits = new_user <= u64::MAX && new_category <= u64::MAX;
            &&& created is None ==> a3 == Action::Abort && h3.phase is Finished
            &&& created is Some && !fits ==> a3 == Action::Abort && h3.phase is Finished
            &&& created is Some && fits ==> {
                &&& a3 == Action::Ask(Query::UpdateCategoryBalance(c.id, new_category as u64))
                &&& a4 == Action::Ask(Query::UpdateUserBalance(u.id, new_user as u64))
                &&& a5 == Action::Reply(Reply { status: Status::Created, body: Body::Transaction(created) })
                &&& h5.phase is Finished
            }
        }),
{
}

/// `DELETE /api/transactions/{id}`, up to the delete. The authenticated
/// user's record is fetched (none: give up), then the transaction: 404 when
/// there is none, 401 when it is not the requester's. Then its category (none:
/// give up): a `"CREDIT"` larger than the category's balance is refused with
/// 400; otherwise that transaction is deleted.
pub proof fn law_destroy_transaction_checks(
    user_id: u64,
    id: u64,
    user: Option<User>,
    found: Option<Transaction>,
    category: Option<Category>,
)
    ensures
        ({
            let (h0, a0) = start_of(user_id, Endpoint::DestroyTransaction(id));
            let (h1, a1) = next(h0, Outcome::User(user));
            let (h2, a2) = next(h1, Outcome::Transaction(found));
            let (h3, a3) = next(h2, Outcome::Category(category));
            &&& a0 == Action::Ask(Query::GetAuthenticatedUser(user_id))
            &&& match user {
                None => a1 == Action::Abort && h1.phase is Finished,
                Some(u) => {
                    &&& a1 == Action::Ask(Query::GetTransactionById(id))
                    &&& match found {
                        None => a2 == refused(Status::NotFound, ApiError::TransactionNotFound)
                            && h2.phase is Finished,
                        Some(t) => if t.user_id != user_id {
                            a2 == refused(Status::Unauthorized, ApiError::Unauthorized) && h2.phase is Finished
                        } else {
                            &&& a2 == Action::Ask(Query::GetCategoryById(t.category_id))
                            &&& match category {
                                None => a3 == Action::Abort && h3.phase is Finished,
                                Some(c) => if t.kind@ == "CREDIT"@ && t.amount > c.balance {
                                    a3 == refused(Status::BadRequest, ApiError::InsufficientBalance)
                                        && h3.phase is Finished
                                } else {
                                    a3 == Action::Ask(Query::DeleteTransactionById(t.id))
                                },
                            }
                        },
                    }
                },
            }
        }),
{
}

/// `DELETE /api/transactions/{id}`, from the delete on, for the requester's
/// transaction `t`, the user record `u` and the category `c`. Removing a
/// `"DEBIT"` gives the amount back, anything else takes it back out: the
/// user's new balance is handed to the store, then the category's, and the
/// reply is 200 `{"status": "success"}`. A balance that would leave the range
/// of `u64` gives up at that point.
pub proof fn law_destroy_transaction_removal(user_id: u64, id: u64, u: User, t: Transaction, c: Category)
    requires
        t.user_id == user_id,
        !(t.kind@ == "CREDIT"@ && t.amount > c.balance),
    ensures
        ({
            let (h0, a0) = start_of(user_id, Endpoint::DestroyTransaction(id));
            let (h1, a1) = next(h0, Outcome::User(Some(u)));
            let (h2, a2) = next(h1, Outcome::Transaction(Some(t)));
            let (h3, a3) = next(h2, Outcome::Category(Some(c)));
            let (h4, a4) = next(h3, Outcome::Done);
            let (h5, a5) = next(h4, Outcome::Done);
            let (h6, a6) = next(h5, Outcome::Done);
            let debit = t.kind@ == "DEBIT"@;
            let new_user: int = if debit { u.balance + t.amount } else { u.balance - t.amount };
            let new_category: int = if debit { c.balance + t.amount } else { c.balance - t.amount };
            &&& !(0 <= new_user <= u64::MAX) ==> a4 == Action::Abort && h4.phase is Finished
            &&& 0 <= new_user <= u64::MAX ==> {
                &&& a4 == Action::Ask(Query::UpdateUserBalance(u.id, new_user as u64))
                &&& !(0 <= new_category <= u64::MAX) ==> a5 == Action::Abort && h5.phase is Finished
                &&& 0 <= new_category <= u64::MAX ==> {
                    &&& a5 == Action::Ask(Query::UpdateCategoryBalance(c.id, new_category as u64))
                    &&& a6 == Action::Reply(Reply { status: Status::Success, body: Body::Deleted })
                    &&& h6.phase is Finished
                }
            }
        }),
{
}

/// A handler that is done gives up on anything more it is told.
pub proof fn law_finished_stays_finished(user_id: u64, o: Outcome)
    ensures
        ({
            let (h1, a1) = next(crate::handler::Handler { user_id, phase: Phase::Finished }, o);
            a1 == Action::Abort && h1.phase is Finished
        }),
{
}

/// Whether `o` is the kind of answer that a handler in phase `p` waits for:
/// the answer to the query it asked last (see `Query`). A finished handler
/// waits for nothing.
pub open spec fn awaited(p: Phase, o: Outcome) -> bool {
    match p {
        Phase::SignUpCheck { .. } | Phase::SignUpCreate => o is Flag,
        Phase::CategoryList => o is Categories,
        Phase::CategoryTransactionsList { .. } | Phase::TransactionList => o is Transactions,
        Phase::TransactionCreateUser { .. } | Phase::TransactionDestroyUser { .. } => o is User,
        Phase::CategoryCreate | Phase::CategoryShowFind | Phase::CategoryUpdateFind { .. }
        | Phase::CategoryUpdateWrite { .. } | Phase::CategoryDestroyFind
        | Phase::CategoryTransactionsFind { .. } | Phase::TransactionCreateFind { .. }
        | Phase::TransactionDestroyCategory { .. } => o is Category,
        Phase::TransactionCreateInsert { .. } | Phase::TransactionShowFind
        | Phase::TransactionUpdateFind { .. } | Phase::TransactionUpdateWrite { .. }
        | Phase::TransactionDestroyFind { .. } => o is Transaction,
        Phase::CategoryDestroyWrite { .. } | Phase::TransactionCreateCategoryBalance { .. }
        | Phase::TransactionCreateUserBalance { .. } | Phase::TransactionDestroyDelete { .. }
        | Phase::TransactionDestroyUserBalance { .. } | Phase::TransactionDestroyCategoryBalance { .. } =>
            o is Done,
        Phase::Finished => false,
    }
}

/// An answer of another kind than the one a handler waits for makes it give
/// up, without a reply and without asking anything more.
pub proof fn law_unexpected_answer_gives_up(h: crate::handler::Handler, o: Outcome)
    requires
        !awaited(h.phase, o),
    ensures
        next(h, o).1 == Action::Abort,
        next(h, o).0.phase is Finished,
{
}

} // verus!
