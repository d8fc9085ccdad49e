//! Balance rules: how booking and removing a transaction moves a balance.

use vstd::prelude::*;

verus! {

/// A transaction of type `"DEBIT"` takes money out of the balances.
pub open spec fn spec_is_debit(kind: Seq<char>) -> bool {
    kind == "DEBIT"@
}

/// A transaction of type `"CREDIT"` puts money into the balances.
pub open spec fn spec_is_credit(kind: Seq<char>) -> bool {
    kind == "CREDIT"@
}

/// Tells whether a transaction type is `"DEBIT"` (exactly, case included).
pub fn is_debit(kind: &String) -> (b: bool)
    ensures
        b == spec_is_debit(kind@),
        b == (kind@ == "DEBIT"@),
{
    let debit = String::from_str("DEBIT");
    *kind == debit
}

/// Tells whether a transaction type is `"CREDIT"` (exactly, case included).
pub fn is_credit(kind: &String) -> (b: bool)
    ensures
        b == spec_is_credit(kind@),
        b == (kind@ == "CREDIT"@),
{
    let credit = String::from_str("CREDIT");
    *kind == credit
}

/// The balance after booking a transaction of `amount`: a debit subtracts,
/// anything else adds.
pub open spec fn booked(balance: int, debit: bool, amount: int) -> int {
    if debit { balance - amount } else { balance + amount }
}

/// The balance after removing a booked transaction of `amount`: a debit is
/// added back, anything else is taken back out.
pub open spec fn unbooked(balance: int, debit: bool, amount: int) -> int {
    if debit { balance + amount } else { balance - amount }
}

/// A computed balance as a stored one: `None` where it does not fit in a
/// `u64` (below zero, or too large), where the computation cannot be done.
pub open spec fn as_balance(v: int) -> Option<u64> {
    if 0 <= v <= u64::MAX { Some(v as u64) } else { None }
}

/// Books a transaction on a balance; `None` where the result does not fit
/// in a `u64`.
pub fn book(balance: u64, debit: bool, amount: u64) -> (res: Option<u64>)
    ensures
        res == as_balance(booked(balance as int, debit, amount as int)),
        debit && amount <= balance ==> res == Some((balance - amount) as u64),
        debit && amount > balance ==> res is None,
        !debit && balance + amount <= u64::MAX ==> res == Some((balance + amount) as u64),
        !debit && balance + amount > u64::MAX ==> res is None,
{
    if debit {
        balance.checked_sub(amount)
    } else {
        balance.checked_add(amount)
    }
}

/// Removes a booked transaction from a balance; `None` where the result does
/// not fit in a `u64`.
pub fn unbook(balance: u64, debit: bool, amount: u64) -> (res: Option<u64>)
    ensures
        res == as_balance(unbooked(balance as int, debit, amount as int)),
        debit && balance + amount <= u64::MAX ==> res == Some((balance + amount) as u64),
        debit && balance + amount > u64::MAX ==> res is None,
        !debit && amount <= balance ==> res == Some((balance - amount) as u64),
        !debit && amount > balance ==> res is None,
{
    if debit {
        balance.checked_add(amount)
    } else {
        balance.checked_sub(amount)
    }
}

/// A new debit is refused when it exceeds the user's balance or the
/// category's balance.
pub open spec fn debit_refused(debit: bool, amount: u64, user_balance: u64, category_balance: u64) -> bool {
    debit && (user_balance < amount || category_balance < amount)
}

/// Tells whether a new transaction must be refused for lack of balance.
pub fn refuses_debit(debit: bool, amount: u64, user_balance: u64, category_balance: u64) -> (b: bool)
    ensures
        b == debit_refused(debit, amount, user_balance, category_balance),
        b == (debit && (user_balance < amount || category_balance < amount)),
{
    debit && (user_balance < amount || category_balance < amount)
}

/// Removing a credit is refused when its amount exceeds the category's
/// balance.
pub open spec fn removal_refused(credit: bool, amount: u64, category_balance: u64) -> bool {
    credit && amount > category_balance
}

/// Tells whether removing a transaction must be refused for lack of balance.
pub fn refuses_removal(credit: bool, amount: u64, category_balance: u64) -> (b: bool)
    ensures
        b == removal_refused(credit, amount, category_balance),
        b == (credit && amount > category_balance),
{
    credit && amount > category_balance
}

/// Removing a transaction right after booking it gives back the balance
/// that it was booked on, for every kind of transaction.
pub proof fn lemma_unbook_undoes_book(balance: u64, debit: bool, amount: u64)
    requires
        as_balance(booked(balance as int, debit, amount as int)) is Some,
    ensures
        ({
            let after = as_balance(booked(balance as int, debit, amount as int))->0;
            as_balance(unbooked(after as int, debit, amount as int)) == Some(balance)
        }),
{
}

/// A debit that is not refused can always be booked: neither the user's nor
/// the category's balance goes below zero.
pub proof fn lemma_accepted_debit_never_overdraws(amount: u64, user_balance: u64, category_balance: u64)
    requires
        !debit_refused(true, amount, user_balance, category_balance),
    ensures
        as_balance(booked(user_balance as int, true, amount as int)) == Some((user_balance - amount) as u64),
        as_balance(booked(category_balance as int, true, amount as int)) == Some((category_balance - amount) as u64),
{
}

/// A credit can be removed from a category right after it was booked there:
/// the removal check does not refuse it.
pub proof fn lemma_fresh_credit_is_removable(category_balance: u64, amount: u64)
    requires
        as_balance(booked(category_balance as int, false, amount as int)) is Some,
    ensures
        !removal_refused(true, amount, as_balance(booked(category_balance as int, false, amount as int))->0),
{
}

} // verus!
