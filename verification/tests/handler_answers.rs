use loanme_webapi::errors::{DbFailure, RedisFailure};
use loanme_webapi::prestamo::LoanError;
use loanme_webapi::routes::{
    confirmUserOutcome, currenciesFailure, loanFetchRejection, logoutOutcome, pageNotFound, restorePwdOutcome,
    userFetchRejection,
};
use loanme_webapi::usuario::UserError;

fn db_error() -> UserError {
    UserError::DbError(DbFailure::Other { text: String::from("broken pipe") })
}

#[test]
fn unknown_pages() {
    let r = pageNotFound();
    assert_eq!((r.status, r.message.as_str()), (404, "Page not found!"));
}

#[test]
fn logout_answers() {
    assert_eq!(logoutOutcome(&Ok(())).unwrap(), "Done");
    let failure = RedisFailure { kind: String::from("ResponseError"), detail: Some(String::from("no such key")) };
    let r = logoutOutcome(&Err(failure)).unwrap_err();
    assert_eq!((r.status, r.message.as_str()), (500, "ResponseError: no such key"));
}

#[test]
fn confirmation_answers() {
    assert_eq!(confirmUserOutcome(&Ok(1)).unwrap(), "User has been enabled");
    let r = confirmUserOutcome(&Err(db_error())).unwrap_err();
    assert_eq!(
        (r.status, r.message.as_str()),
        (500, "There has been an error while activating the user. Contact us for further information")
    );
}

#[test]
fn restore_answers() {
    assert_eq!(restorePwdOutcome(&Ok(1)).unwrap(), "Password has been updated");
    let r = restorePwdOutcome(&Err(UserError::MultithreadError)).unwrap_err();
    assert_eq!(r.status, 500);
}

#[test]
fn fetch_failures() {
    let r = userFetchRejection(&db_error());
    assert_eq!((r.status, r.message.as_str()), (500, "There was an error while executing a database query"));
    let r = userFetchRejection(&UserError::MultithreadError);
    assert_eq!((r.status, r.message.as_str()), (500, "Thread failed to execute task until completion"));
    let r = loanFetchRejection(&LoanError::InvalidDate);
    assert_eq!((r.status, r.message.as_str()), (500, "The provided date is invalid"));
    let r = currenciesFailure();
    assert_eq!((r.status, r.message.as_str()), (500, "There was an error while fetching the data. Try again later"));
}
