//! Sign-up: turning a sign-up request into the record that is stored.

use vstd::prelude::*;
use crate::requests::SignUpRequest;

verus! {

/// The error type of the bcrypt crate.
#[verifier::external_type_specification]
#[verifier::external_body]
pub struct ExBcryptError(bcrypt::BcryptError);

/// What every string that `bcrypt::hash` returns with the default cost looks
/// like: the prefix `$2b$12$` followed by 22 salt and 31 hash characters.
pub open spec fn is_bcrypt_default_cost_hash(h: Seq<char>) -> bool {
    h.len() == 60 && h.subrange(0, 7) == "$2b$12$"@
}

/// The 2b-format string that `bcrypt::hash_with_salt(password, 12, salt)`
/// yields for the UTF-8 bytes of `password` and a 16-byte `salt`: the
/// deterministic bcrypt hash of that password with that salt at cost 12.
pub uninterp spec fn bcrypt_hash_with_salt(password: Seq<char>, salt: Seq<u8>) -> Seq<char>;

/// Calls `bcrypt::hash(password, bcrypt::DEFAULT_COST)`.
///
/// The crate draws a 16-byte salt from the operating system's random source
/// and formats the hash of `password` with that salt at cost 12. So a
/// successful result is the salted hash of exactly this password for some
/// salt, in the 2b format: `$2b$12$`, 22 salt and 31 hash characters. Which
/// salt is drawn, and when the random source fails (the only failure at this
/// cost), is left unsaid.
#[verifier::external_body]
fn bcrypt_hash(password: &str) -> (res: Result<String, bcrypt::BcryptError>)
    ensures
        res matches Ok(h) ==> is_bcrypt_default_cost_hash(h@),
        res matches Ok(h) ==> exists|salt: Seq<u8>|
            salt.len() == 16 && #[trigger] bcrypt_hash_with_salt(password@, salt) == h@,
{
    bcrypt::hash(password, bcrypt::DEFAULT_COST)
}

/// A user as it is inserted into the store: the password replaced by its hash.
#[derive(Debug, PartialEq)]
pub struct NewUser {
    pub email: String,
    pub password_hash: String,
    pub firstname: String,
    pub lastname: String,
}

/// Hashes the password of a sign-up request with bcrypt (default cost, a
/// random salt) and keeps the other fields. `None` when the hashing fails (the random source
/// failed); the service then gives up on the request.
pub fn prepare_new_user(user: SignUpRequest) -> (res: Option<NewUser>)
    ensures
        res matches Some(u) ==> {
            &&& u.email == user.email
            &&& u.firstname == user.firstname
            &&& u.lastname == user.lastname
            &&& is_bcrypt_default_cost_hash(u.password_hash@)
            &&& exists|salt: Seq<u8>|
                salt.len() == 16 && #[trigger] bcrypt_hash_with_salt(user.password@, salt) == u.password_hash@
        },
{
    let hashed = bcrypt_hash(user.password.as_str());
    new_user_from_hash(user, hashed)
}

/// The record to insert for a sign-up request, given what hashing its
/// password gave: the hash replaces the password, the other fields are kept.
pub open spec fn user_with_hash(user: SignUpRequest, password_hash: String) -> NewUser {
    NewUser { email: user.email, password_hash, firstname: user.firstname, lastname: user.lastname }
}

/// Builds the record to insert from a sign-up request and the outcome of
/// hashing its password: the record with the hash on success, `None` when
/// the hashing failed.
pub fn new_user_from_hash(user: SignUpRequest, hashed: Result<String, bcrypt::BcryptError>) -> (res: Option<NewUser>)
    ensures
        res == match hashed {
            Ok(h) => Some(user_with_hash(user, h)),
            Err(_) => None::<NewUser>,
        },
        hashed is Err ==> res is None,
        hashed matches Ok(h) ==> res matches Some(u) && {
            &&& u.email == user.email
            &&& u.password_hash == h
            &&& u.firstname == user.firstname
            &&& u.lastname == user.lastname
        },
{
    match hashed {
        Ok(password_hash) => Some(NewUser {
            email: user.email,
            password_hash,
            firstname: user.firstname,
            lastname: user.lastname,
        }),
        Err(_) => None,
    }
}

} // verus!
