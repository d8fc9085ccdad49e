use budget_api::accounts::{new_user_from_hash, prepare_new_user};
use budget_api::handler::{Action, Handler, Outcome, Query};
use budget_api::ledger::{book, is_credit, is_debit, refuses_debit, refuses_removal, unbook};
use budget_api::reply::{get_profile_text, sign_in_text, update_profile_text, user_created_message, ApiError, Body, Reply, Status};
use budget_api::requests::SignUpRequest;

fn sign_up_request() -> SignUpRequest {
    SignUpRequest {
        email: "ada@example.com".to_string(),
        password: "correct horse".to_string(),
        firstname: "Ada".to_string(),
        lastname: "Lovelace".to_string(),
    }
}

#[test]
fn sign_up_with_a_taken_email_is_refused() {
    let (h, a) = Handler::sign_up(sign_up_request());
    assert_eq!(a, Action::Ask(Query::HasUserWithEmail("ada@example.com".to_string())));
    let (h, a) = h.step(Outcome::Flag(true));
    assert_eq!(
        a,
        Action::Reply(Reply { status: Status::UnprocessableEntity, body: Body::Error(ApiError::EmailAlreadyExists) })
    );
    assert!(h.is_finished());
}

#[test]
fn sign_up_with_a_free_email_creates_the_user() {
    let (h, _) = Handler::sign_up(sign_up_request());
    let (h, a) = h.step(Outcome::Flag(false));
    assert_eq!(a, Action::Ask(Query::CreateUser(sign_up_request())));
    let (h, a) = h.step(Outcome::Flag(true));
    assert_eq!(a, Action::Reply(Reply { status: Status::Created, body: Body::UserCreated }));
    assert!(h.is_finished());
}

#[test]
fn sign_up_answers_created_even_when_the_insert_reports_failure() {
    let (h, _) = Handler::sign_up(sign_up_request());
    let (h, _) = h.step(Outcome::Flag(false));
    let (_, a) = h.step(Outcome::Flag(false));
    assert_eq!(a, Action::Reply(Reply { status: Status::Created, body: Body::UserCreated }));
}

#[test]
fn prepared_user_holds_a_bcrypt_hash_of_the_password() {
    let user = prepare_new_user(sign_up_request()).expect("hashing works here");
    assert_eq!(user.email, "ada@example.com");
    assert_eq!(user.firstname, "Ada");
    assert_eq!(user.lastname, "Lovelace");
    assert_ne!(user.password_hash, "correct horse");
    assert_eq!(user.password_hash.chars().count(), 60);
    assert!(user.password_hash.starts_with("$2b$12$"));
    assert!(bcrypt::verify("correct horse", &user.password_hash).unwrap());
    assert!(!bcrypt::verify("wrong horse", &user.password_hash).unwrap());
}

#[test]
fn transaction_types_are_matched_exactly() {
    assert!(is_debit(&"DEBIT".to_string()));
    assert!(!is_debit(&"debit".to_string()));
    assert!(!is_debit(&"CREDIT".to_string()));
    assert!(is_credit(&"CREDIT".to_string()));
    assert!(!is_credit(&"Credit".to_string()));
    assert!(!is_credit(&"".to_string()));
}

#[test]
fn booking_and_removal_formulas() {
    assert_eq!(book(100, true, 30), Some(70));
    assert_eq!(book(100, false, 30), Some(130));
    assert_eq!(book(10, true, 30), None);
    assert_eq!(book(u64::MAX, false, 1), None);
    assert_eq!(unbook(70, true, 30), Some(100));
    assert_eq!(unbook(130, false, 30), Some(100));
    assert_eq!(unbook(10, false, 30), None);
    assert_eq!(unbook(u64::MAX, true, 1), None);
}

#[test]
fn removal_undoes_booking_for_every_kind() {
    for debit in [true, false] {
        for (balance, amount) in [(0u64, 0u64), (100, 30), (30, 30), (5, u64::MAX - 5)] {
            if let Some(after) = book(balance, debit, amount) {
                assert_eq!(unbook(after, debit, amount), Some(balance));
            }
        }
    }
}

#[test]
fn debit_checks() {
    assert!(refuses_debit(true, 30, 29, 100));
    assert!(refuses_debit(true, 30, 100, 29));
    assert!(!refuses_debit(true, 30, 30, 30));
    assert!(!refuses_debit(false, 30, 0, 0));
    assert!(refuses_removal(true, 30, 29));
    assert!(!refuses_removal(true, 30, 30));
    assert!(!refuses_removal(false, 30, 0));
}

#[test]
fn status_codes_and_messages() {
    assert_eq!(Status::Success.code(), 200);
    assert_eq!(Status::Created.code(), 201);
    assert_eq!(Status::BadRequest.code(), 400);
    assert_eq!(Status::Unauthorized.code(), 401);
    assert_eq!(Status::NotFound.code(), 404);
    assert_eq!(Status::UnprocessableEntity.code(), 422);
    assert_eq!(ApiError::EmailAlreadyExists.message(), "Email already exists");
    assert_eq!(ApiError::CategoryNotFound.message(), "Category not found");
    assert_eq!(ApiError::TransactionNotFound.message(), "Transaction not found");
    assert_eq!(ApiError::Unauthorized.message(), "Unauthorized");
    assert_eq!(ApiError::InsufficientBalance.message(), "Insufficient balance");
    assert_eq!(user_created_message(), "User created successfully");
}

#[test]
fn record_from_a_hash_keeps_the_fields_and_stores_the_hash() {
    let hash = "$2b$12$abcdefghijklmnopqrstuvABCDEFGHIJKLMNOPQRSTUVWXYZ01234".to_string();
    let user = new_user_from_hash(sign_up_request(), Ok(hash.clone())).unwrap();
    assert_eq!(user.email, "ada@example.com");
    assert_eq!(user.firstname, "Ada");
    assert_eq!(user.lastname, "Lovelace");
    assert_eq!(user.password_hash, hash);
}

#[test]
fn record_from_a_failed_hash_is_none() {
    let failed = Err(bcrypt::BcryptError::CostNotAllowed(3));
    assert!(new_user_from_hash(sign_up_request(), failed).is_none());
}

#[test]
fn fixed_text_routes() {
    assert_eq!(sign_in_text(), "Sign in");
    assert_eq!(get_profile_text(), "Get profile");
    assert_eq!(update_profile_text(), "Update profile");
}

#[test]
fn sign_up_never_inserts_a_taken_email() {
    let taken = vec!["ada@example.com".to_string(), "bob@example.com".to_string()];
    for (email, expect_insert) in [("ada@example.com", false), ("cy@example.com", true)] {
        let mut data = sign_up_request();
        data.email = email.to_string();
        let (h, _) = Handler::sign_up(data);
        let (h, a) = h.step(Outcome::Flag(taken.iter().any(|e| e == email)));
        assert_eq!(matches!(a, Action::Ask(Query::CreateUser(_))), expect_insert);
        let (_, last) = h.step(Outcome::Flag(true));
        assert!(!matches!(last, Action::Ask(_)));
    }
}
