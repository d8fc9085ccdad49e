//! The request handlers of the service as state machines.
//!
//! A handler never touches the data store itself. It answers each step with an
//! [`Action`]: a [`Query`] for the store, a [`Reply`] for the client, or
//! `Abort` where the service gives up on the request (a lookup that must
//! succeed found nothing, or a balance left the range of `u64`). The caller
//! runs the query and hands the [`Outcome`] back to [`Handler::step`].

use vstd::prelude::*;
use crate::model::{Category, Transaction, User};
use crate::requests::{
    CreateCategoryRequest, CreateTransactionRequest, SignUpRequest, UpdateCategoryRequest,
    UpdateTransactionRequest,
};
use crate::reply::{ApiError, Body, Reply, Status, refusal};
use crate::access::{authorize_category, authorize_transaction, category_access, transaction_access};
use crate::ledger::{
    book, unbook, is_debit, is_credit, refuses_debit, refuses_removal, as_balance, booked, unbooked,
    debit_refused, removal_refused, spec_is_debit, spec_is_credit,
};

verus! {

/// The operations that a handler asks of the data store.
#[derive(Debug, PartialEq)]
pub enum Query {
    /// Is there a user with this email? Answered by `Outcome::Flag`.
    HasUserWithEmail(String),
    /// Insert a user (password hashed on the way). Answered by `Outcome::Flag` (inserted or not).
    CreateUser(SignUpRequest),
    /// All categories of a user. Answered by `Outcome::Categories`.
    GetAllCategoriesOfUser(u64),
    /// Insert a category for a user and read it back. Answered by `Outcome::Category`.
    CreateCategory(u64, CreateCategoryRequest),
    /// The category with this id. Answered by `Outcome::Category`.
    GetCategoryById(u64),
    /// Overwrite name, description and balance of a category and read it back.
    /// Answered by `Outcome::Category`.
    UpdateCategoryById(u64, UpdateCategoryRequest),
    /// Delete a category. Answered by `Outcome::Done`.
    DeleteCategoryById(u64),
    /// `UPDATE categories SET balance = balance + ? WHERE id = ?` with the given
    /// value. Answered by `Outcome::Done`.
    UpdateCategoryBalance(u64, u64),
    /// All transactions of a user. Answered by `Outcome::Transactions`.
    GetAllTransactionsOfUser(u64),
    /// Insert a transaction for a user and read it back. Answered by `Outcome::Transaction`.
    CreateTransaction(u64, CreateTransactionRequest),
    /// The transaction with this id. Answered by `Outcome::Transaction`.
    GetTransactionById(u64),
    /// Overwrite memo and description of a transaction and read it back.
    /// Answered by `Outcome::Transaction`.
    UpdateTransactionById(u64, UpdateTransactionRequest),
    /// Delete a transaction. Answered by `Outcome::Done`.
    DeleteTransactionById(u64),
    /// All transactions of a category. Answered by `Outcome::Transactions`.
    GetAllByCategory(u64),
    /// The user record of the authenticated user. Answered by `Outcome::User`.
    GetAuthenticatedUser(u64),
    /// Set a user's balance to the given value. Answered by `Outcome::Done`.
    UpdateUserBalance(u64, u64),
}

/// What the data store answered.
#[derive(Debug, PartialEq)]
pub enum Outcome {
    Flag(bool),
    Done,
    Categories(Vec<Category>),
    Category(Option<Category>),
    Transactions(Vec<Transaction>),
    Transaction(Option<Transaction>),
    User(Option<User>),
}

/// What a handler does next.
#[derive(Debug, PartialEq)]
pub enum Action {
    Ask(Query),
    Reply(Reply),
    /// The service gives up on the request without a reply.
    Abort,
}

/// The routes under `/api`, which act on behalf of an authenticated user.
#[derive(Debug, PartialEq)]
pub enum Endpoint {
    /// `GET /api/categories`
    ListCategories,
    /// `POST /api/categories`
    CreateCategory(CreateCategoryRequest),
    /// `GET /api/categories/{id}`
    ShowCategory(u64),
    /// `PUT /api/categories/{id}`
    UpdateCategory(u64, UpdateCategoryRequest),
    /// `DELETE /api/categories/{id}`
    DestroyCategory(u64),
    /// `GET /api/category/{id}/transactions`
    CategoryTransactions(u64),
    /// `GET /api/transactions`
    ListTransactions,
    /// `POST /api/transactions`
    CreateTransaction(CreateTransactionRequest),
    /// `GET /api/transactions/{id}`
    ShowTransaction(u64),
    /// `PUT /api/transactions/{id}`
    UpdateTransaction(u64, UpdateTransactionRequest),
    /// `DELETE /api/transactions/{id}`
    DestroyTransaction(u64),
}

/// Where a handler stands: what it waits for and what it has learned so far.
#[derive(Debug, PartialEq)]
pub enum Phase {
    SignUpCheck { data: SignUpRequest },
    SignUpCreate,
    CategoryList,
    CategoryCreate,
    CategoryShowFind,
    CategoryUpdateFind { data: UpdateCategoryRequest },
    CategoryUpdateWrite { category: Category },
    CategoryDestroyFind,
    CategoryDestroyWrite { category: Category },
    CategoryTransactionsFind { id: u64 },
    CategoryTransactionsList { id: u64, category: Category },
    TransactionList,
    TransactionCreateUser { data: CreateTransactionRequest },
    TransactionCreateFind { user: User, data: CreateTransactionRequest },
    TransactionCreateInsert { user: User, category: Category, debit: bool, amount: u64 },
    TransactionCreateCategoryBalance { user: User, category: Category, transaction: Transaction, user_balance: u64 },
    TransactionCreateUserBalance { user: User, category: Category, transaction: Transaction },
    TransactionShowFind,
    TransactionUpdateFind { data: UpdateTransactionRequest },
    TransactionUpdateWrite { transaction: Transaction },
    TransactionDestroyUser { id: u64 },
    TransactionDestroyFind { user: User },
    TransactionDestroyCategory { user: User, transaction: Transaction },
    TransactionDestroyDelete { user: User, transaction: Transaction, category: Category },
    TransactionDestroyUserBalance { user: User, transaction: Transaction, category: Category },
    TransactionDestroyCategoryBalance { user: User, transaction: Transaction, category: Category },
    Finished,
}

/// A handler run on behalf of the user `user_id` (unused by sign-up).
#[derive(Debug, PartialEq)]
pub struct Handler {
    pub user_id: u64,
    pub phase: Phase,
}

/// The handler is done, with this last action.
pub open spec fn finish(user_id: u64, action: Action) -> (Handler, Action) {
    (Handler { user_id, phase: Phase::Finished }, action)
}

/// The handler goes on to `phase` and asks `query`.
pub open spec fn ask(user_id: u64, phase: Phase, query: Query) -> (Handler, Action) {
    (Handler { user_id, phase }, Action::Ask(query))
}

/// A reply with a status and a body.
pub open spec fn answer(status: Status, body: Body) -> Action {
    Action::Reply(Reply { status, body })
}

/// The first step of `POST /auth/sign-up`.
pub open spec fn sign_up_start(data: SignUpRequest) -> (Handler, Action) {
    ask(0, Phase::SignUpCheck { data }, Query::HasUserWithEmail(data.email))
}

/// The first step of a route under `/api` for the user `user_id`.
pub open spec fn start_of(user_id: u64, endpoint: Endpoint) -> (Handler, Action) {
    match endpoint {
        Endpoint::ListCategories =>
            ask(user_id, Phase::CategoryList, Query::GetAllCategoriesOfUser(user_id)),
        Endpoint::CreateCategory(data) =>
            ask(user_id, Phase::CategoryCreate, Query::CreateCategory(user_id, data)),
        Endpoint::ShowCategory(id) =>
            ask(user_id, Phase::CategoryShowFind, Query::GetCategoryById(id)),
        Endpoint::UpdateCategory(id, data) =>
            ask(user_id, Phase::CategoryUpdateFind { data }, Query::GetCategoryById(id)),
        Endpoint::DestroyCategory(id) =>
            ask(user_id, Phase::CategoryDestroyFind, Query::GetCategoryById(id)),
        Endpoint::CategoryTransactions(id) =>
            ask(user_id, Phase::CategoryTransactionsFind { id }, Query::GetCategoryById(id)),
        Endpoint::ListTransactions =>
            ask(user_id, Phase::TransactionList, Query::GetAllTransactionsOfUser(user_id)),
        Endpoint::CreateTransaction(data) =>
            ask(user_id, Phase::TransactionCreateUser { data }, Query::GetAuthenticatedUser(user_id)),
        Endpoint::ShowTransaction(id) =>
            ask(user_id, Phase::TransactionShowFind, Query::GetTransactionById(id)),
        Endpoint::UpdateTransaction(id, data) =>
            ask(user_id, Phase::TransactionUpdateFind { data }, Query::GetTransactionById(id)),
        Endpoint::DestroyTransaction(id) =>
            ask(user_id, Phase::TransactionDestroyUser { id }, Query::GetAuthenticatedUser(user_id)),
    }
}

/// The steps of the category routes.
pub open spec fn next_category(h: Handler, o: Outcome) -> (Handler, Action) {
    let u = h.user_id;
    match h.phase {
        Phase::CategoryList => match o {
            Outcome::Categories(all) => finish(u, answer(Status::Success, Body::Categories(all))),
            _ => finish(u, Action::Abort),
        },
        Phase::CategoryCreate => match o {
            Outcome::Category(Some(c)) => finish(u, answer(Status::Created, Body::Category(Some(c)))),
            _ => finish(u, Action::Abort),
        },
        Phase::CategoryShowFind => match o {
            Outcome::Category(found) => match category_access(u, found) {
                Err(r) => finish(u, Action::Reply(r)),
                Ok(c) => finish(u, answer(Status::Success, Body::Category(Some(c)))),
            },
            _ => finish(u, Action::Abort),
        },
        Phase::CategoryUpdateFind { data } => match o {
            Outcome::Category(found) => match category_access(u, found) {
                Err(r) => finish(u, Action::Reply(r)),
                Ok(c) => ask(u, Phase::CategoryUpdateWrite { category: c }, Query::UpdateCategoryById(c.id, data)),
            },
            _ => finish(u, Action::Abort),
        },
        Phase::CategoryUpdateWrite { category } => match o {
            Outcome::Category(updated) => finish(u, answer(Status::Success, Body::Category(updated))),
            _ => finish(u, Action::Abort),
        },
        Phase::CategoryDestroyFind => match o {
            Outcome::Category(found) => match category_access(u, found) {
                Err(r) => finish(u, Action::Reply(r)),
                Ok(c) => ask(u, Phase::CategoryDestroyWrite { category: c }, Query::DeleteCategoryById(c.id)),
            },
            _ => finish(u, Action::Abort),
        },
        Phase::CategoryDestroyWrite { category } => match o {
            Outcome::Done => finish(u, answer(Status::Success, Body::Deleted)),
            _ => finish(u, Action::Abort),
        },
        Phase::CategoryTransactionsFind { id } => match o {
            Outcome::Category(found) => match category_access(u, found) {
                Err(r) => finish(u, Action::Reply(r)),
                Ok(c) => ask(u, Phase::CategoryTransactionsList { id, category: c }, Query::GetAllByCategory(id)),
            },
            _ => finish(u, Action::Abort),
        },
        Phase::CategoryTransactionsList { id, category } => match o {
            Outcome::Transactions(all) => finish(u, answer(Status::Success, Body::Transactions(all))),
            _ => finish(u, Action::Abort),
        },
        _ => finish(u, Action::Abort),
    }
}

/// The steps of `POST /api/transactions`.
pub open spec fn next_transaction_create(h: Handler, o: Outcome) -> (Handler, Action) {
    let u = h.user_id;
    match h.phase {
        Phase::TransactionCreateUser { data } => match o {
            Outcome::User(Some(user)) =>
                ask(u, Phase::TransactionCreateFind { user, data }, Query::GetCategoryById(data.category_id)),
            _ => finish(u, Action::Abort),
        },
        Phase::TransactionCreateFind { user, data } => match o {
            Outcome::Category(found) => match category_access(user.id, found) {
                Err(r) => finish(u, Action::Reply(r)),
                Ok(c) => {
                    let debit = spec_is_debit(data.kind@);
                    if debit_refused(debit, data.amount, user.balance, c.balance) {
                        finish(u, Action::Reply(refusal(Status::UnprocessableEntity, ApiError::InsufficientBalance)))
                    } else {
                        ask(
                            u,
                            Phase::TransactionCreateInsert { user, category: c, debit, amount: data.amount },
                            Query::CreateTransaction(user.id, data),
                        )
                    }
                },
            },
            _ => finish(u, Action::Abort),
        },
        Phase::TransactionCreateInsert { user, category, debit, amount } => match o {
            Outcome::Transaction(Some(t)) => {
                let user_balance = as_balance(booked(user.balance as int, debit, amount as int));
                let category_balance = as_balance(booked(category.balance as int, debit, amount as int));
                if user_balance is Some && category_balance is Some {
                    ask(
                        u,
                        Phase::TransactionCreateCategoryBalance {
                            user,
                            category,
                            transaction: t,
                            user_balance: user_balance->0,
                        },
                        Query::UpdateCategoryBalance(category.id, category_balance->0),
                    )
                } else {
                    finish(u, Action::Abort)
                }
            },
            _ => finish(u, Action::Abort),
        },
        Phase::TransactionCreateCategoryBalance { user, category, transaction, user_balance } => match o {
            Outcome::Done => ask(
                u,
                Phase::TransactionCreateUserBalance { user, category, transaction },
                Query::UpdateUserBalance(user.id, user_balance),
            ),
            _ => finish(u, Action::Abort),
        },
        Phase::TransactionCreateUserBalance { user, category, transaction } => match o {
            Outcome::Done => finish(u, answer(Status::Created, Body::Transaction(Some(transaction)))),
            _ => finish(u, Action::Abort),
        },
        _ => finish(u, Action::Abort),
    }
}

/// The steps of `DELETE /api/transactions/{id}`.
pub open spec fn next_transaction_destroy(h: Handler, o: Outcome) -> (Handler, Action) {
    let u = h.user_id;
    match h.phase {
        Phase::TransactionDestroyUser { id } => match o {
            Outcome::User(Some(user)) =>
                ask(u, Phase::TransactionDestroyFind { user }, Query::GetTransactionById(id)),
            _ => finish(u, Action::Abort),
        },
        Phase::TransactionDestroyFind { user } => match o {
            Outcome::Transaction(found) => match transaction_access(u, found) {
                Err(r) => finish(u, Action::Reply(r)),
                Ok(t) => ask(
                    u,
                    Phase::TransactionDestroyCategory { user, transaction: t },
                    Query::GetCategoryById(t.category_id),
                ),
            },
            _ => finish(u, Action::Abort),
        },
        Phase::TransactionDestroyCategory { user, transaction } => match o {
            Outcome::Category(Some(c)) =>
                if removal_refused(spec_is_credit(transaction.kind@), transaction.amount, c.balance) {
                    finish(u, Action::Reply(refusal(Status::BadRequest, ApiError::InsufficientBalance)))
                } else {
                    ask(
                        u,
                        Phase::TransactionDestroyDelete { user, transaction, category: c },
                        Query::DeleteTransactionById(transaction.id),
                    )
                },
            _ => finish(u, Action::Abort),
        },
        Phase::TransactionDestroyDelete { user, transaction, category } => match o {
            Outcome::Done => {
                let balance = as_balance(
                    unbooked(user.balance as int, spec_is_debit(transaction.kind@), transaction.amount as int),
                );
                if balance is Some {
                    ask(
                        u,
                        Phase::TransactionDestroyUserBalance { user, transaction, category },
                        Query::UpdateUserBalance(user.id, balance->0),
                    )
                } else {
                    finish(u, Action::Abort)
                }
            },
            _ => finish(u, Action::Abort),
        },
        Phase::TransactionDestroyUserBalance { user, transaction, category } => match o {
            Outcome::Done => {
                let balance = as_balance(
                    unbooked(category.balance as int, spec_is_debit(transaction.kind@), transaction.amount as int),
                );
                if balance is Some {
                    ask(
                        u,
                        Phase::TransactionDestroyCategoryBalance { user, transaction, category },
                        Query::UpdateCategoryBalance(category.id, balance->0),
                    )
                } else {
                    finish(u, Action::Abort)
                }
            },
            _ => finish(u, Action::Abort),
        },
        Phase::TransactionDestroyCategoryBalance { user, transaction, category } => match o {
            Outcome::Done => finish(u, answer(Status::Success, Body::Deleted)),
            _ => finish(u, Action::Abort),
        },
        _ => finish(u, Action::Abort),
    }
}

/// The other steps: sign-up, and listing, showing and updating transactions.
pub open spec fn next_other(h: Handler, o: Outcome) -> (Handler, Action) {
    let u = h.user_id;
    match h.phase {
        Phase::SignUpCheck { data } => match o {
            Outcome::Flag(true) =>
                finish(u, Action::Reply(refusal(Status::UnprocessableEntity, ApiError::EmailAlreadyExists))),
            Outcome::Flag(false) => ask(u, Phase::SignUpCreate, Query::CreateUser(data)),
            _ => finish(u, Action::Abort),
        },
        Phase::SignUpCreate => match o {
            Outcome::Flag(_) => finish(u, answer(Status::Created, Body::UserCreated)),
            _ => finish(u, Action::Abort),
        },
        Phase::TransactionList => match o {
            Outcome::Transactions(all) => finish(u, answer(Status::Success, Body::Transactions(all))),
            _ => finish(u, Action::Abort),
        },
        Phase::TransactionShowFind => match o {
            Outcome::Transaction(found) => match transaction_access(u, found) {
                Err(r) => finish(u, Action::Reply(r)),
                Ok(t) => finish(u, answer(Status::Success, Body::Transaction(Some(t)))),
            },
            _ => finish(u, Action::Abort),
        },
        Phase::TransactionUpdateFind { data } => match o {
            Outcome::Transaction(found) => match transaction_access(u, found) {
                Err(r) => finish(u, Action::Reply(r)),
                Ok(t) => ask(
                    u,
                    Phase::TransactionUpdateWrite { transaction: t },
                    Query::UpdateTransactionById(t.id, data),
                ),
            },
            _ => finish(u, Action::Abort),
        },
        Phase::TransactionUpdateWrite { transaction } => match o {
            Outcome::Transaction(updated) => finish(u, answer(Status::Success, Body::Transaction(updated))),
            _ => finish(u, Action::Abort),
        },
        _ => finish(u, Action::Abort),
    }
}

/// The phases of the category routes.
pub open spec fn is_category_phase(p: Phase) -> bool {
    ||| p is CategoryList
    ||| p is CategoryCreate
    ||| p is CategoryShowFind
    ||| p is CategoryUpdateFind
    ||| p is CategoryUpdateWrite
    ||| p is CategoryDestroyFind
    ||| p is CategoryDestroyWrite
    ||| p is CategoryTransactionsFind
    ||| p is CategoryTransactionsList
}

/// The phases of `POST /api/transactions`.
pub open spec fn is_create_phase(p: Phase) -> bool {
    ||| p is TransactionCreateUser
    ||| p is TransactionCreateFind
    ||| p is TransactionCreateInsert
    ||| p is TransactionCreateCategoryBalance
    ||| p is TransactionCreateUserBalance
}

/// The phases of `DELETE /api/transactions/{id}`.
pub open spec fn is_destroy_phase(p: Phase) -> bool {
    ||| p is TransactionDestroyUser
    ||| p is TransactionDestroyFind
    ||| p is TransactionDestroyCategory
    ||| p is TransactionDestroyDelete
    ||| p is TransactionDestroyUserBalance
    ||| p is TransactionDestroyCategoryBalance
}

/// One step of a handler: from where it stands and what the store answered,
/// to where it stands next and what it does. A finished handler, or an
/// answer of the wrong kind, ends in `Abort`.
pub open spec fn next(h: Handler, o: Outcome) -> (Handler, Action) {
    if is_category_phase(h.phase) {
        next_category(h, o)
    } else if is_create_phase(h.phase) {
        next_transaction_create(h, o)
    } else if is_destroy_phase(h.phase) {
        next_transaction_destroy(h, o)
    } else {
        next_other(h, o)
    }
}

impl Handler {
    /// Starts `POST /auth/sign-up`: first ask whether the email is taken.
    pub fn sign_up(data: SignUpRequest) -> (res: (Handler, Action))
        ensures
            res == sign_up_start(data),
    {
        let email = data.email.clone();
        (Handler { user_id: 0, phase: Phase::SignUpCheck { data } }, Action::Ask(Query::HasUserWithEmail(email)))
    }

    /// Starts a route under `/api` on behalf of the user `user_id`.
    pub fn start(user_id: u64, endpoint: Endpoint) -> (res: (Handler, Action))
        ensures
            res == start_of(user_id, endpoint),
    {
        let (phase, query) = match endpoint {
            Endpoint::ListCategories => (Phase::CategoryList, Query::GetAllCategoriesOfUser(user_id)),
            Endpoint::CreateCategory(data) => (Phase::CategoryCreate, Query::CreateCategory(user_id, data)),
            Endpoint::ShowCategory(id) => (Phase::CategoryShowFind, Query::GetCategoryById(id)),
            Endpoint::UpdateCategory(id, data) => (Phase::CategoryUpdateFind { data }, Query::GetCategoryById(id)),
            Endpoint::DestroyCategory(id) => (Phase::CategoryDestroyFind, Query::GetCategoryById(id)),
            Endpoint::CategoryTransactions(id) => (Phase::CategoryTransactionsFind { id }, Query::GetCategoryById(id)),
            Endpoint::ListTransactions => (Phase::TransactionList, Query::GetAllTransactionsOfUser(user_id)),
            Endpoint::CreateTransaction(data) => (Phase::TransactionCreateUser { data }, Query::GetAuthenticatedUser(user_id)),
            Endpoint::ShowTransaction(id) => (Phase::TransactionShowFind, Query::GetTransactionById(id)),
            Endpoint::UpdateTransaction(id, data) => (Phase::TransactionUpdateFind { data }, Query::GetTransactionById(id)),
            Endpoint::DestroyTransaction(id) => (Phase::TransactionDestroyUser { id }, Query::GetAuthenticatedUser(user_id)),
        };
        (Handler { user_id, phase }, Action::Ask(query))
    }

    /// Takes the store's answer to the last query and decides what comes next.
    pub fn step(self, outcome: Outcome) -> (res: (Handler, Action))
        ensures
            res == next(self, outcome),
    {
        let Handler { user_id, phase } = self;
        if phase.is_category_phase() {
            step_category(user_id, phase, outcome)
        } else if phase.is_create_phase() {
            step_transaction_create(user_id, phase, outcome)
        } else if phase.is_destroy_phase() {
            step_transaction_destroy(user_id, phase, outcome)
        } else {
            step_other(user_id, phase, outcome)
        }
    }

    /// Tells whether the handler is done.
    pub fn is_finished(&self) -> (b: bool)
        ensures
            b == (self.phase is Finished),
    {
        match self.phase {
            Phase::Finished => true,
            _ => false,
        }
    }
}

impl Phase {
    fn is_category_phase(&self) -> (b: bool)
        ensures
            b == is_category_phase(*self),
    {
        match self {
            Phase::CategoryList | Phase::CategoryCreate | Phase::CategoryShowFind
            | Phase::CategoryUpdateFind { .. } | Phase::CategoryUpdateWrite { .. }
            | Phase::CategoryDestroyFind | Phase::CategoryDestroyWrite { .. }
            | Phase::CategoryTransactionsFind { .. } | Phase::CategoryTransactionsList { .. } => true,
            _ => false,
        }
    }

    fn is_create_phase(&self) -> (b: bool)
        ensures
            b == is_create_phase(*self),
    {
        match self {
            Phase::TransactionCreateUser { .. } | Phase::TransactionCreateFind { .. }
            | Phase::TransactionCreateInsert { .. } | Phase::TransactionCreateCategoryBalance { .. }
            | Phase::TransactionCreateUserBalance { .. } => true,
            _ => false,
        }
    }

    fn is_destroy_phase(&self) -> (b: bool)
        ensures
            b == is_destroy_phase(*self),
    {
        match self {
            Phase::TransactionDestroyUser { .. } | Phase::TransactionDestroyFind { .. }
            | Phase::TransactionDestroyCategory { .. } | Phase::TransactionDestroyDelete { .. }
            | Phase::TransactionDestroyUserBalance { .. } | Phase::TransactionDestroyCategoryBalance { .. } => true,
            _ => false,
        }
    }
}

fn done(user_id: u64, action: Action) -> (res: (Handler, Action))
    ensures
        res == finish(user_id, action),
{
    (Handler { user_id, phase: Phase::Finished }, action)
}

fn next_query(user_id: u64, phase: Phase, query: Query) -> (res: (Handler, Action))
    ensures
        res == ask(user_id, phase, query),
{
    (Handler { user_id, phase }, Action::Ask(query))
}

fn respond(user_id: u64, status: Status, body: Body) -> (res: (Handler, Action))
    ensures
        res == finish(user_id, answer(status, body)),
{
    (Handler { user_id, phase: Phase::Finished }, Action::Reply(Reply { status, body }))
}

fn step_category(user_id: u64, phase: Phase, o: Outcome) -> (res: (Handler, Action))
    ensures
        res == next_category(Handler { user_id, phase }, o),
{
    match phase {
        Phase::CategoryList => match o {
            Outcome::Categories(all) => respond(user_id, Status::Success, Body::Categories(all)),
            _ => done(user_id, Action::Abort),
        },
        Phase::CategoryCreate => match o {
            Outcome::Category(Some(c)) => respond(user_id, Status::Created, Body::Category(Some(c))),
            _ => done(user_id, Action::Abort),
        },
        Phase::CategoryShowFind => match o {
            Outcome::Category(found) => match authorize_category(user_id, found) {
                Err(r) => done(user_id, Action::Reply(r)),
                Ok(c) => respond(user_id, Status::Success, Body::Category(Some(c))),
            },
            _ => done(user_id, Action::Abort),
        },
        Phase::CategoryUpdateFind { data } => match o {
            Outcome::Category(found) => match authorize_category(user_id, found) {
                Err(r) => done(user_id, Action::Reply(r)),
                Ok(c) => {
                    let id = c.id;
                    next_query(user_id, Phase::CategoryUpdateWrite { category: c }, Query::UpdateCategoryById(id, data))
                },
            },
            _ => done(user_id, Action::Abort),
        },
        Phase::CategoryUpdateWrite { category } => match o {
            Outcome::Category(updated) => respond(user_id, Status::Success, Body::Category(updated)),
            _ => done(user_id, Action::Abort),
        },
        Phase::CategoryDestroyFind => match o {
            Outcome::Category(found) => match authorize_category(user_id, found) {
                Err(r) => done(user_id, Action::Reply(r)),
                Ok(c) => {
                    let id = c.id;
                    next_query(user_id, Phase::CategoryDestroyWrite { category: c }, Query::DeleteCategoryById(id))
                },
            },
            _ => done(user_id, Action::Abort),
        },
        Phase::CategoryDestroyWrite { category } => match o {
            Outcome::Done => respond(user_id, Status::Success, Body::Deleted),
            _ => done(user_id, Action::Abort),
        },
        Phase::CategoryTransactionsFind { id } => match o {
            Outcome::Category(found) => match authorize_category(user_id, found) {
                Err(r) => done(user_id, Action::Reply(r)),
                Ok(c) => next_query(
                    user_id,
                    Phase::CategoryTransactionsList { id, category: c },
                    Query::GetAllByCategory(id),
                ),
            },
            _ => done(user_id, Action::Abort),
        },
        Phase::CategoryTransactionsList { id, category } => match o {
            Outcome::Transactions(all) => respond(user_id, Status::Success, Body::Transactions(all)),
            _ => done(user_id, Action::Abort),
        },
        _ => done(user_id, Action::Abort),
    }
}

fn step_transaction_create(user_id: u64, phase: Phase, o: Outcome) -> (res: (Handler, Action))
    ensures
        res == next_transaction_create(Handler { user_id, phase }, o),
{
    match phase {
        Phase::TransactionCreateUser { data } => match o {
            Outcome::User(Some(user)) => {
                let category_id = data.category_id;
                next_query(user_id, Phase::TransactionCreateFind { user, data }, Query::GetCategoryById(category_id))
            },
            _ => done(user_id, Action::Abort),
        },
        Phase::TransactionCreateFind { user, data } => match o {
            Outcome::Category(found) => match authorize_category(user.id, found) {
                Err(r) => done(user_id, Action::Reply(r)),
                Ok(c) => {
                    let debit = is_debit(&data.kind);
                    if refuses_debit(debit, data.amount, user.balance, c.balance) {
                        done(
                            user_id,
                            Action::Reply(
                                Reply { status: Status::UnprocessableEntity, body: Body::Error(ApiError::InsufficientBalance) },
                            ),
                        )
                    } else {
                        let amount = data.amount;
                        let owner = user.id;
                        next_query(
                            user_id,
                            Phase::TransactionCreateInsert { user, category: c, debit, amount },
                            Query::CreateTransaction(owner, data),
                        )
                    }
                },
            },
            _ => done(user_id, Action::Abort),
        },
        Phase::TransactionCreateInsert { user, category, debit, amount } => match o {
            Outcome::Transaction(Some(t)) => {
                let user_balance = book(user.balance, debit, amount);
                let category_balance = book(category.balance, debit, amount);
                match (user_balance, category_balance) {
                    (Some(ub), Some(cb)) => {
                        let category_id = category.id;
                        next_query(
                            user_id,
                            Phase::TransactionCreateCategoryBalance { user, category, transaction: t, user_balance: ub },
                            Query::UpdateCategoryBalance(category_id, cb),
                        )
                    },
                    _ => done(user_id, Action::Abort),
                }
            },
            _ => done(user_id, Action::Abort),
        },
        Phase::TransactionCreateCategoryBalance { user, category, transaction, user_balance } => match o {
            Outcome::Done => {
                let owner = user.id;
                next_query(
                    user_id,
                    Phase::TransactionCreateUserBalance { user, category, transaction },
                    Query::UpdateUserBalance(owner, user_balance),
                )
            },
            _ => done(user_id, Action::Abort),
        },
        Phase::TransactionCreateUserBalance { user, category, transaction } => match o {
            Outcome::Done => respond(user_id, Status::Created, Body::Transaction(Some(transaction))),
            _ => done(user_id, Action::Abort),
        },
        _ => done(user_id, Action::Abort),
    }
}

fn step_transaction_destroy(user_id: u64, phase: Phase, o: Outcome) -> (res: (Handler, Action))
    ensures
        res == next_transaction_destroy(Handler { user_id, phase }, o),
{
    match phase {
        Phase::TransactionDestroyUser { id } => match o {
            Outcome::User(Some(user)) =>
                next_query(user_id, Phase::TransactionDestroyFind { user }, Query::GetTransactionById(id)),
            _ => done(user_id, Action::Abort),
        },
        Phase::TransactionDestroyFind { user } => match o {
            Outcome::Transaction(found) => match authorize_transaction(user_id, found) {
                Err(r) => done(user_id, Action::Reply(r)),
                Ok(t) => {
                    let category_id = t.category_id;
                    next_query(
                        user_id,
                        Phase::TransactionDestroyCategory { user, transaction: t },
                        Query::GetCategoryById(category_id),
                    )
                },
            },
            _ => done(user_id, Action::Abort),
        },
        Phase::TransactionDestroyCategory { user, transaction } => match o {
            Outcome::Category(Some(c)) => {
                let credit = is_credit(&transaction.kind);
                if refuses_removal(credit, transaction.amount, c.balance) {
                    done(
                        user_id,
                        Action::Reply(
                            Reply { status: Status::BadRequest, body: Body::Error(ApiError::InsufficientBalance) },
                        ),
                    )
                } else {
                    let id = transaction.id;
                    next_query(
                        user_id,
                        Phase::TransactionDestroyDelete { user, transaction, category: c },
                        Query::DeleteTransactionById(id),
                    )
                }
            },
            _ => done(user_id, Action::Abort),
        },
        Phase::TransactionDestroyDelete { user, transaction, category } => match o {
            Outcome::Done => {
                let debit = is_debit(&transaction.kind);
                match unbook(user.balance, debit, transaction.amount) {
                    Some(balance) => {
                        let owner = user.id;
                        next_query(
                            user_id,
                            Phase::TransactionDestroyUserBalance { user, transaction, category },
                            Query::UpdateUserBalance(owner, balance),
                        )
                    },
                    None => done(user_id, Action::Abort),
                }
            },
            _ => done(user_id, Action::Abort),
        },
        Phase::TransactionDestroyUserBalance { user, transaction, category } => match o {
            Outcome::Done => {
                let debit = is_debit(&transaction.kind);
                match unbook(category.balance, debit, transaction.amount) {
                    Some(balance) => {
                        let category_id = category.id;
                        next_query(
                            user_id,
                            Phase::TransactionDestroyCategoryBalance { user, transaction, category },
                            Query::UpdateCategoryBalance(category_id, balance),
                        )
                    },
                    None => done(user_id, Action::Abort),
                }
            },
            _ => done(user_id, Action::Abort),
        },
        Phase::TransactionDestroyCategoryBalance { user, transaction, category } => match o {
            Outcome::Done => respond(user_id, Status::Success, Body::Deleted),
            _ => done(user_id, Action::Abort),
        },
        _ => done(user_id, Action::Abort),
    }
}

fn step_other(user_id: u64, phase: Phase, o: Outcome) -> (res: (Handler, Action))
    ensures
        res == next_other(Handler { user_id, phase }, o),
{
    match phase {
        Phase::SignUpCheck { data } => match o {
            Outcome::Flag(taken) => {
                if taken {
                    done(
                        user_id,
                        Action::Reply(
                            Reply { status: Status::UnprocessableEntity, body: Body::Error(ApiError::EmailAlreadyExists) },
                        ),
                    )
                } else {
                    next_query(user_id, Phase::SignUpCreate, Query::CreateUser(data))
                }
            },
            _ => done(user_id, Action::Abort),
        },
        Phase::SignUpCreate => match o {
            Outcome::Flag(_) => respond(user_id, Status::Created, Body::UserCreated),
            _ => done(user_id, Action::Abort),
        },
        Phase::TransactionList => match o {
            Outcome::Transactions(all) => respond(user_id, Status::Success, Body::Transactions(all)),
            _ => done(user_id, Action::Abort),
        },
        Phase::TransactionShowFind => match o {
            Outcome::Transaction(found) => match authorize_transaction(user_id, found) {
                Err(r) => done(user_id, Action::Reply(r)),
                Ok(t) => respond(user_id, Status::Success, Body::Transaction(Some(t))),
            },
            _ => done(user_id, Action::Abort),
        },
        Phase::TransactionUpdateFind { data } => match o {
            Outcome::Transaction(found) => match authorize_transaction(user_id, found) {
                Err(r) => done(user_id, Action::Reply(r)),
                Ok(t) => {
                    let id = t.id;
                    next_query(user_id, Phase::TransactionUpdateWrite { transaction: t }, Query::UpdateTransactionById(id, data))
                },
            },
            _ => done(user_id, Action::Abort),
        },
        Phase::TransactionUpdateWrite { transaction } => match o {
            Outcome::Transaction(updated) => respond(user_id, Status::Success, Body::Transaction(updated)),
            _ => done(user_id, Action::Abort),
        },
        _ => done(user_id, Action::Abort),
    }
}

} // verus!
