//! The answers of the HTTP handlers that are not steps of a longer flow.
use vstd::prelude::*;
use crate::errors::{redisRejection, redis_failure_text, RedisFailure, Rejection, INTERNAL_SERVER_ERROR, NOT_FOUND};
use crate::prestamo::{loan_error_text, LoanError};
use crate::usuario::UserError;

verus! {

/// The answer to a path that no handler serves: 404.
pub fn pageNotFound() -> (res: Rejection)
    ensures
        res@ == (NOT_FOUND, "Page not found!"@),
{
    Rejection::new(NOT_FOUND, "Page not found!")
}

/// The answer to a logout: `Done` once the session is deleted, else 500
/// with the store's failure.
pub fn logoutOutcome(r: &Result<(), RedisFailure>) -> (res: Result<String, Rejection>)
    ensures
        match r {
            Ok(()) => res matches Ok(t) && t@ == "Done"@,
            Err(f) => res matches Err(e) && e@ == (INTERNAL_SERVER_ERROR, redis_failure_text(*f)),
        },
{
    match r {
        Ok(()) => Ok(String::from_str("Done")),
        Err(f) => Err(redisRejection(f)),
    }
}

/// The answer to enabling a confirmed account.
pub fn confirmUserOutcome(r: &Result<u64, UserError>) -> (res: Result<String, Rejection>)
    ensures
        r is Ok ==> (res matches Ok(t) && t@ == "User has been enabled"@),
        r is Err ==> (res matches Err(e) && e@ == (INTERNAL_SERVER_ERROR,
            "There has been an error while activating the user. Contact us for further information"@)),
{
    match r {
        Ok(_) => Ok(String::from_str("User has been enabled")),
        Err(_) => Err(Rejection::new(
            INTERNAL_SERVER_ERROR,
            "There has been an error while activating the user. Contact us for further information",
        )),
    }
}

/// The answer to storing a restored password.
pub fn restorePwdOutcome(r: &Result<u64, UserError>) -> (res: Result<String, Rejection>)
    ensures
        r is Ok ==> (res matches Ok(t) && t@ == "Password has been updated"@),
        r is Err ==> (res matches Err(e) && e@ == (INTERNAL_SERVER_ERROR,
            "There has been an error while activating the user. Contact us for further information"@)),
{
    match r {
        Ok(_) => Ok(String::from_str("Password has been updated")),
        Err(_) => Err(Rejection::new(
            INTERNAL_SERVER_ERROR,
            "There has been an error while activating the user. Contact us for further information",
        )),
    }
}

/// The answer where a handler could not read an account it needs: 500 with
/// the error's text.
pub open spec fn user_fetch_rejection(e: UserError) -> (u16, Seq<char>) {
    match e {
        UserError::MultithreadError => (INTERNAL_SERVER_ERROR, "Thread failed to execute task until completion"@),
        UserError::DbError(_) => (INTERNAL_SERVER_ERROR, "There was an error while executing a database query"@),
    }
}

/// The answer where a handler could not read the user of a session: 500
/// with the error's text.
pub fn userFetchRejection(e: &UserError) -> (res: Rejection)
    ensures
        res@ == user_fetch_rejection(*e),
{
    Rejection { status: INTERNAL_SERVER_ERROR, message: e.message() }
}

/// The answer where a handler could not list or read loans: 500 with the
/// error's text.
pub fn loanFetchRejection(e: &LoanError) -> (res: Rejection)
    ensures
        res@ == (INTERNAL_SERVER_ERROR, loan_error_text(*e)),
{
    Rejection { status: INTERNAL_SERVER_ERROR, message: e.message() }
}

/// The answer where the list of accepted currencies could not be written.
pub fn currenciesFailure() -> (res: Rejection)
    ensures
        res@ == (INTERNAL_SERVER_ERROR, "There was an error while fetching the data. Try again later"@),
{
    Rejection::new(INTERNAL_SERVER_ERROR, "There was an error while fetching the data. Try again later")
}

} // verus!
