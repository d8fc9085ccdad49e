//! What holds of every run of every handler: ownership is checked before a
//! record is changed, every request is settled after a bounded number of
//! store queries, and removing a transaction hands the store the balances
//! from before its booking.

use vstd::prelude::*;
use crate::handler::{Action, Endpoint, Handler, Outcome, Phase, Query, next, sign_up_start, start_of};
use crate::ledger::spec_is_debit;
use crate::model::{Category, Transaction, User};
use crate::requests::SignUpRequest;
use crate::reply::{Body, Status};

verus! {

/// The records that a handler keeps between steps belong to the user on whose
/// behalf it acts: the requester, or, while booking a transaction, the
/// authenticated user record that the store returned.
pub open spec fn vouched(h: Handler) -> bool {
    match h.phase {
        Phase::CategoryUpdateWrite { category } => category.user_id == h.user_id,
        Phase::CategoryDestroyWrite { category } => category.user_id == h.user_id,
        Phase::CategoryTransactionsList { id, category } => category.user_id == h.user_id,
        Phase::TransactionCreateInsert { user, category, debit, amount } => category.user_id == user.id,
        Phase::TransactionCreateCategoryBalance { user, category, transaction, user_balance } =>
            category.user_id == user.id,
        Phase::TransactionCreateUserBalance { user, category, transaction } => category.user_id == user.id,
        Phase::TransactionUpdateWrite { transaction } => transaction.user_id == h.user_id,
        Phase::TransactionDestroyCategory { user, transaction } => transaction.user_id == h.user_id,
        Phase::TransactionDestroyDelete { user, transaction, category } => transaction.user_id == h.user_id,
        Phase::TransactionDestroyUserBalance { user, transaction, category } => transaction.user_id == h.user_id,
        Phase::TransactionDestroyCategoryBalance { user, transaction, category } =>
            transaction.user_id == h.user_id,
        _ => true,
    }
}

/// An action that the handler `h` (as it stands after emitting it) may take:
/// lookups by id and sign-up queries are always allowed; queries that list or
/// insert name the requester; a query that changes or lists the contents of a
/// particular category or transaction names a record that the handler holds
/// and has found to belong to the acting user (for a balance update after a
/// removal: the category of the requester's own transaction); a user's
/// balance is only set on the authenticated user's record.
pub open spec fn authorized(h: Handler, a: Action) -> bool {
    match a {
        Action::Ask(q) => match q {
            Query::GetAllCategoriesOfUser(x) => x == h.user_id,
            Query::GetAllTransactionsOfUser(x) => x == h.user_id,
            Query::CreateCategory(x, _) => x == h.user_id,
            Query::GetAuthenticatedUser(x) => x == h.user_id,
            Query::UpdateCategoryById(x, _) => match h.phase {
                Phase::CategoryUpdateWrite { category } => category.id == x && category.user_id == h.user_id,
                _ => false,
            },
            Query::DeleteCategoryById(x) => match h.phase {
                Phase::CategoryDestroyWrite { category } => category.id == x && category.user_id == h.user_id,
                _ => false,
            },
            Query::GetAllByCategory(x) => match h.phase {
                Phase::CategoryTransactionsList { id, category } => id == x && category.user_id == h.user_id,
                _ => false,
            },
            Query::CreateTransaction(x, data) => match h.phase {
                Phase::TransactionCreateInsert { user, category, debit, amount } =>
                    user.id == x && category.user_id == x,
                _ => false,
            },
            Query::UpdateTransactionById(x, _) => match h.phase {
                Phase::TransactionUpdateWrite { transaction } =>
                    transaction.id == x && transaction.user_id == h.user_id,
                _ => false,
            },
            Query::DeleteTransactionById(x) => match h.phase {
                Phase::TransactionDestroyDelete { user, transaction, category } =>
                    transaction.id == x && transaction.user_id == h.user_id,
                _ => false,
            },
            Query::UpdateCategoryBalance(x, _) => match h.phase {
                Phase::TransactionCreateCategoryBalance { user, category, transaction, user_balance } =>
                    category.id == x && category.user_id == user.id,
                Phase::TransactionDestroyCategoryBalance { user, transaction, category } =>
                    category.id == x && transaction.user_id == h.user_id,
                _ => false,
            },
            Query::UpdateUserBalance(x, _) => match h.phase {
                Phase::TransactionCreateUserBalance { user, category, transaction } =>
                    user.id == x && category.user_id == user.id,
                Phase::TransactionDestroyUserBalance { user, transaction, category } =>
                    user.id == x && transaction.user_id == h.user_id,
                _ => false,
            },
            Query::HasUserWithEmail(_) => true,
            Query::CreateUser(_) => true,
            Query::GetCategoryById(_) => true,
            Query::GetTransactionById(_) => true,
        },
        _ => true,
    }
}

/// Every route under `/api` starts with an authorized query, in a state that
/// holds only records of the acting user.
pub proof fn lemma_start_authorized(user_id: u64, endpoint: Endpoint)
    ensures
        vouched(start_of(user_id, endpoint).0),
        authorized(start_of(user_id, endpoint).0, start_of(user_id, endpoint).1),
{
}

/// Sign-up starts with an email lookup and is settled after at most two
/// answers of the store.
pub proof fn lemma_sign_up_start(data: SignUpRequest)
    ensures
        vouched(sign_up_start(data).0),
        authorized(sign_up_start(data).0, sign_up_start(data).1),
        sign_up_start(data).1 is Ask,
        steps_left(sign_up_start(data).0.phase) == 2,
{
}

/// Whatever the store answers, a handler that holds only records of the
/// acting user still does after the step, and the action it takes is
/// authorized: no record of another user is ever changed, deleted, or listed
/// through its category.
pub proof fn lemma_step_authorized(h: Handler, o: Outcome)
    requires
        vouched(h),
    ensures
        vouched(next(h, o).0),
        authorized(next(h, o).0, next(h, o).1),
{
}

/// How many more answers of the store a handler waits for at most.
pub open spec fn steps_left(p: Phase) -> nat {
    match p {
        Phase::Finished => 0,
        Phase::SignUpCheck { .. } => 2,
        Phase::CategoryUpdateFind { .. } => 2,
        Phase::CategoryDestroyFind => 2,
        Phase::CategoryTransactionsFind { .. } => 2,
        Phase::TransactionUpdateFind { .. } => 2,
        Phase::TransactionCreateUser { .. } => 5,
        Phase::TransactionCreateFind { .. } => 4,
        Phase::TransactionCreateInsert { .. } => 3,
        Phase::TransactionCreateCategoryBalance { .. } => 2,
        Phase::TransactionDestroyUser { .. } => 6,
        Phase::TransactionDestroyFind { .. } => 5,
        Phase::TransactionDestroyCategory { .. } => 4,
        Phase::TransactionDestroyDelete { .. } => 3,
        Phase::TransactionDestroyUserBalance { .. } => 2,
        _ => 1,
    }
}

/// A handler that is not finished gets closer to the end with every answer,
/// and it is finished exactly when its action is not a query: it has replied
/// or given up.
pub proof fn lemma_step_progress(h: Handler, o: Outcome)
    requires
        !(h.phase is Finished),
    ensures
        steps_left(next(h, o).0.phase) < steps_left(h.phase),
        (next(h, o).0.phase is Finished) <==> !(next(h, o).1 is Ask),
{
}

/// Every route under `/api` is settled, by a reply or by giving up, after at
/// most six answers of the store: it starts with a query and has at most six
/// answers to wait for.
pub proof fn lemma_start_bounded(user_id: u64, endpoint: Endpoint)
    ensures
        start_of(user_id, endpoint).1 is Ask,
        1 <= steps_left(start_of(user_id, endpoint).0.phase) <= 6,
{
}

/// Removing a transaction hands the store the balances from before booking
/// it. Book `t` for the user record `user` in `category`; the handler hands
/// the store a new category balance and a new user balance. If the removal
/// later finds these balances (and the same transaction), the values it hands
/// the store are the balances from before the booking, whatever the
/// transaction's type. This is a statement about those values only: the
/// category balance query adds its value to the stored balance
/// (`Query::UpdateCategoryBalance`), so the stored category balance is not
/// restored by a real run; the user balance, which is set, is.
pub proof fn lemma_removal_undoes_booking(
    user_id: u64,
    user: User,
    category: Category,
    t: Transaction,
    later_user: User,
    later_category: Category,
)
    requires
        ({
            let booking = Handler {
                user_id,
                phase: Phase::TransactionCreateInsert {
                    user,
                    category,
                    debit: spec_is_debit(t.kind@),
                    amount: t.amount,
                },
            };
            let (after, action) = next(booking, Outcome::Transaction(Some(t)));
            &&& action == Action::Ask(Query::UpdateCategoryBalance(category.id, later_category.balance))
            &&& after.phase matches Phase::TransactionCreateCategoryBalance { user_balance, .. }
                && user_balance == later_user.balance
        }),
    ensures
        ({
            let removing = Handler {
                user_id,
                phase: Phase::TransactionDestroyDelete { user: later_user, transaction: t, category: later_category },
            };
            let (after, action) = next(removing, Outcome::Done);
            &&& action == Action::Ask(Query::UpdateUserBalance(later_user.id, user.balance))
            &&& next(after, Outcome::Done).1 == Action::Ask(
                Query::UpdateCategoryBalance(later_category.id, category.balance),
            )
        }),
{
}

/// The emails of the users table after the action `a`: a sign-up insert adds
/// the request's email as a new row; nothing else that sign-up asks changes
/// the table.
pub open spec fn emails_after(emails: Seq<Seq<char>>, a: Action) -> Seq<Seq<char>> {
    match a {
        Action::Ask(Query::CreateUser(d)) => emails.push(d.email@),
        _ => emails,
    }
}

/// Sign-up keeps emails unique. Let the users table hold the emails `emails`,
/// no two equal, and let the store answer the email question truthfully
/// (is there a row with exactly this email?). The store is locked for the
/// whole run, so the table does not change between the question and the
/// insert. Then the table after the sign-up's insert, if it asks for one,
/// still holds no two equal emails, and whatever the insert reports, the
/// handler asks nothing more.
pub proof fn lemma_sign_up_keeps_emails_unique(data: SignUpRequest, emails: Seq<Seq<char>>, inserted: bool)
    requires
        emails.no_duplicates(),
    ensures
        ({
            let (checking, asked) = sign_up_start(data);
            let (creating, decided) = next(checking, Outcome::Flag(emails.contains(data.email@)));
            &&& asked == Action::Ask(Query::HasUserWithEmail(data.email))
            &&& emails_after(emails, decided).no_duplicates()
            &&& !(next(creating, Outcome::Flag(inserted)).1 is Ask)
        }),
{
    if !emails.contains(data.email@) {
        let grown = emails.push(data.email@);
        assert forall|i: int, j: int| 0 <= i < grown.len() && 0 <= j < grown.len() && i != j implies grown[i]
            != grown[j] by {
            if i == emails.len() as int {
                assert(grown[j] == emails[j]);
            } else if j == emails.len() as int {
                assert(grown[i] == emails[i]);
            }
        }
    }
}

/// The rows of a categories table that belong to `user_id`, in table order.
pub open spec fn rows_of(table: Seq<Category>, user_id: u64) -> Seq<Category> {
    table.filter(|c: Category| c.user_id == user_id)
}

/// The status and the listed categories of a reply that lists categories.
pub open spec fn category_listing(a: Action) -> Option<(Status, Seq<Category>)> {
    match a {
        Action::Reply(r) => match r.body {
            Body::Categories(all) => Some((r.status, all@)),
            _ => None,
        },
        _ => None,
    }
}

/// Listing categories shows the requester's rows and nothing of anybody
/// else. The route asks for the requester's categories only; let the store
/// answer, from two states of the data, with the requester's rows in table
/// order. If the two states hold the same rows for the requester (any other
/// row of any table may differ), the two replies are the same 200 listing,
/// and every category listed belongs to the requester.
pub proof fn lemma_category_listing_shows_only_own_rows(
    user_id: u64,
    table1: Seq<Category>,
    table2: Seq<Category>,
    answer1: Vec<Category>,
    answer2: Vec<Category>,
)
    requires
        answer1@ == rows_of(table1, user_id),
        answer2@ == rows_of(table2, user_id),
        rows_of(table1, user_id) == rows_of(table2, user_id),
    ensures
        ({
            let (listing, asked) = start_of(user_id, Endpoint::ListCategories);
            let reply1 = next(listing, Outcome::Categories(answer1)).1;
            let reply2 = next(listing, Outcome::Categories(answer2)).1;
            &&& asked == Action::Ask(Query::GetAllCategoriesOfUser(user_id))
            &&& category_listing(reply1) == Some((Status::Success, rows_of(table1, user_id)))
            &&& category_listing(reply1) == category_listing(reply2)
            &&& forall|i: int| 0 <= i < answer1@.len() ==> (#[trigger] answer1@[i]).user_id == user_id
        }),
{
    broadcast use vstd::seq_lib::group_filter_ensures;
    assert forall|i: int| 0 <= i < answer1@.len() implies (#[trigger] answer1@[i]).user_id == user_id by {
        table1.lemma_filter_pred(|c: Category| c.user_id == user_id, i);
    }
}

} // verus!
