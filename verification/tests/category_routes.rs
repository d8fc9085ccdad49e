use budget_api::handler::{Action, Endpoint, Handler, Outcome, Query};
use budget_api::model::{Category, Transaction};
use budget_api::reply::{ApiError, Body, Reply, Status};
use budget_api::requests::{CreateCategoryRequest, UpdateCategoryRequest};

fn moment() -> chrono::NaiveDateTime {
    chrono::DateTime::from_timestamp(1_700_000_000, 0).unwrap().naive_utc()
}

fn category(id: u64, user_id: u64, balance: u64) -> Category {
    Category {
        id,
        user_id,
        name: format!("category {}", id),
        description: None,
        balance,
        created_at: moment(),
        updated_at: moment(),
    }
}

fn transaction(id: u64, user_id: u64, category_id: u64) -> Transaction {
    Transaction {
        id,
        user_id,
        category_id,
        kind: "CREDIT".to_string(),
        amount: 5,
        memo: None,
        description: None,
        created_at: moment(),
        updated_at: moment(),
    }
}

fn refusal(status: Status, error: ApiError) -> Action {
    Action::Reply(Reply { status, body: Body::Error(error) })
}

#[test]
fn list_categories_asks_for_the_requesters_categories() {
    let (h, a) = Handler::start(7, Endpoint::ListCategories);
    assert_eq!(a, Action::Ask(Query::GetAllCategoriesOfUser(7)));
    let (h, a) = h.step(Outcome::Categories(vec![category(1, 7, 10), category(2, 7, 0)]));
    assert_eq!(
        a,
        Action::Reply(Reply { status: Status::Success, body: Body::Categories(vec![category(1, 7, 10), category(2, 7, 0)]) })
    );
    assert!(h.is_finished());
}

#[test]
fn create_category_inserts_for_the_requester_and_answers_created() {
    let data = CreateCategoryRequest { name: "Food".to_string(), description: Some("groceries".to_string()), balance: 300 };
    let (h, a) = Handler::start(7, Endpoint::CreateCategory(data));
    let expected = CreateCategoryRequest { name: "Food".to_string(), description: Some("groceries".to_string()), balance: 300 };
    assert_eq!(a, Action::Ask(Query::CreateCategory(7, expected)));
    let (h, a) = h.step(Outcome::Category(Some(category(4, 7, 300))));
    assert_eq!(a, Action::Reply(Reply { status: Status::Created, body: Body::Category(Some(category(4, 7, 300))) }));
    assert!(h.is_finished());
}

#[test]
fn create_category_gives_up_when_the_new_record_cannot_be_read_back() {
    let data = CreateCategoryRequest { name: "Food".to_string(), description: None, balance: 0 };
    let (h, _) = Handler::start(7, Endpoint::CreateCategory(data));
    let (h, a) = h.step(Outcome::Category(None));
    assert_eq!(a, Action::Abort);
    assert!(h.is_finished());
}

#[test]
fn show_category_missing_is_not_found() {
    let (h, a) = Handler::start(7, Endpoint::ShowCategory(3));
    assert_eq!(a, Action::Ask(Query::GetCategoryById(3)));
    let (h, a) = h.step(Outcome::Category(None));
    assert_eq!(a, refusal(Status::NotFound, ApiError::CategoryNotFound));
    assert!(h.is_finished());
}

#[test]
fn show_category_of_another_user_is_unauthorized() {
    let (h, _) = Handler::start(7, Endpoint::ShowCategory(3));
    let (_, a) = h.step(Outcome::Category(Some(category(3, 8, 50))));
    assert_eq!(a, refusal(Status::Unauthorized, ApiError::Unauthorized));
}

#[test]
fn show_own_category_answers_it() {
    let (h, _) = Handler::start(7, Endpoint::ShowCategory(3));
    let (_, a) = h.step(Outcome::Category(Some(category(3, 7, 50))));
    assert_eq!(a, Action::Reply(Reply { status: Status::Success, body: Body::Category(Some(category(3, 7, 50))) }));
}

#[test]
fn update_own_category_writes_and_answers_the_stored_record() {
    let data = UpdateCategoryRequest { name: "Rent".to_string(), description: None, balance: 900 };
    let (h, _) = Handler::start(7, Endpoint::UpdateCategory(3, data));
    let (h, a) = h.step(Outcome::Category(Some(category(3, 7, 50))));
    let expected = UpdateCategoryRequest { name: "Rent".to_string(), description: None, balance: 900 };
    assert_eq!(a, Action::Ask(Query::UpdateCategoryById(3, expected)));
    let (h, a) = h.step(Outcome::Category(Some(category(3, 7, 900))));
    assert_eq!(a, Action::Reply(Reply { status: Status::Success, body: Body::Category(Some(category(3, 7, 900))) }));
    assert!(h.is_finished());
}

#[test]
fn update_category_of_another_user_changes_nothing() {
    let data = UpdateCategoryRequest { name: "Rent".to_string(), description: None, balance: 900 };
    let (h, _) = Handler::start(7, Endpoint::UpdateCategory(3, data));
    let (h, a) = h.step(Outcome::Category(Some(category(3, 9, 50))));
    assert_eq!(a, refusal(Status::Unauthorized, ApiError::Unauthorized));
    assert!(h.is_finished());
}

#[test]
fn update_missing_category_is_not_found() {
    let data = UpdateCategoryRequest { name: "Rent".to_string(), description: None, balance: 900 };
    let (h, _) = Handler::start(7, Endpoint::UpdateCategory(3, data));
    let (_, a) = h.step(Outcome::Category(None));
    assert_eq!(a, refusal(Status::NotFound, ApiError::CategoryNotFound));
}

#[test]
fn update_category_answers_null_when_the_record_is_gone_afterwards() {
    let data = UpdateCategoryRequest { name: "Rent".to_string(), description: None, balance: 900 };
    let (h, _) = Handler::start(7, Endpoint::UpdateCategory(3, data));
    let (h, _) = h.step(Outcome::Category(Some(category(3, 7, 50))));
    let (_, a) = h.step(Outcome::Category(None));
    assert_eq!(a, Action::Reply(Reply { status: Status::Success, body: Body::Category(None) }));
}

#[test]
fn destroy_own_category_deletes_it() {
    let (h, a) = Handler::start(7, Endpoint::DestroyCategory(3));
    assert_eq!(a, Action::Ask(Query::GetCategoryById(3)));
    let (h, a) = h.step(Outcome::Category(Some(category(3, 7, 50))));
    assert_eq!(a, Action::Ask(Query::DeleteCategoryById(3)));
    let (h, a) = h.step(Outcome::Done);
    assert_eq!(a, Action::Reply(Reply { status: Status::Success, body: Body::Deleted }));
    assert!(h.is_finished());
}

#[test]
fn destroy_category_of_another_user_is_unauthorized() {
    let (h, _) = Handler::start(7, Endpoint::DestroyCategory(3));
    let (_, a) = h.step(Outcome::Category(Some(category(3, 1, 50))));
    assert_eq!(a, refusal(Status::Unauthorized, ApiError::Unauthorized));
}

#[test]
fn category_transactions_lists_by_the_requested_id() {
    let (h, _) = Handler::start(7, Endpoint::CategoryTransactions(3));
    let (h, a) = h.step(Outcome::Category(Some(category(3, 7, 50))));
    assert_eq!(a, Action::Ask(Query::GetAllByCategory(3)));
    let (_, a) = h.step(Outcome::Transactions(vec![transaction(11, 7, 3)]));
    assert_eq!(
        a,
        Action::Reply(Reply { status: Status::Success, body: Body::Transactions(vec![transaction(11, 7, 3)]) })
    );
}

#[test]
fn category_transactions_of_another_user_are_not_listed() {
    let (h, _) = Handler::start(7, Endpoint::CategoryTransactions(3));
    let (_, a) = h.step(Outcome::Category(Some(category(3, 2, 50))));
    assert_eq!(a, refusal(Status::Unauthorized, ApiError::Unauthorized));
}

#[test]
fn category_transactions_of_missing_category_is_not_found() {
    let (h, _) = Handler::start(7, Endpoint::CategoryTransactions(3));
    let (_, a) = h.step(Outcome::Category(None));
    assert_eq!(a, refusal(Status::NotFound, ApiError::CategoryNotFound));
}

#[test]
fn an_answer_of_the_wrong_kind_gives_up() {
    let (h, _) = Handler::start(7, Endpoint::ShowCategory(3));
    let (h, a) = h.step(Outcome::Done);
    assert_eq!(a, Action::Abort);
    assert!(h.is_finished());
    let (h, a) = h.step(Outcome::Category(Some(category(3, 7, 50))));
    assert_eq!(a, Action::Abort);
    assert!(h.is_finished());
}

#[test]
fn category_listing_shows_only_the_requesters_rows() {
    let table = vec![category(1, 7, 10), category(2, 8, 20), category(3, 7, 30)];
    let other_table = vec![category(1, 7, 10), category(9, 9, 99), category(3, 7, 30)];
    let own = |t: &Vec<Category>| t.iter().filter(|c| c.user_id == 7).map(|c| category(c.id, c.user_id, c.balance)).collect::<Vec<_>>();
    let (h1, _) = Handler::start(7, Endpoint::ListCategories);
    let (_, a1) = h1.step(Outcome::Categories(own(&table)));
    let (h2, _) = Handler::start(7, Endpoint::ListCategories);
    let (_, a2) = h2.step(Outcome::Categories(own(&other_table)));
    assert_eq!(a1, a2);
    assert_eq!(
        a1,
        Action::Reply(Reply { status: Status::Success, body: Body::Categories(vec![category(1, 7, 10), category(3, 7, 30)]) })
    );
}
