//! Verified core of a small personal-budget web service: users, spending
//! categories that carry a balance, and credit/debit transactions.
//!
//! Every HTTP handler of the service is written here as a state machine
//! (`handler`): it asks the data store for one thing at a time and decides,
//! from each answer, what to ask next or what to reply. The balance rules live
//! in `ledger`, the ownership checks in `access`, the replies in `reply`.
//! `routes` states, route by route, what each handler does over all inputs;
//! `guarantees` holds the properties shared by all of them.

pub mod model;
pub mod requests;
pub mod reply;
pub mod access;
pub mod ledger;
pub mod accounts;
pub mod handler;
pub mod guarantees;
pub mod routes;
