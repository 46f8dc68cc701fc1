use loanme_webapi::misc::Moment;
use loanme_webapi::errors::{DbFailure, RedisFailure};
use loanme_webapi::loans::{createLoanOffer, createLoanRequest, CreateLoanAction, CreateLoanEvent, CreateLoanState};
use loanme_webapi::payments::{addTxn, TxnAction, TxnEvent, TxnState};
use loanme_webapi::prestamo::{LoanError, Prestamo};
use loanme_webapi::prestamo_txn::PrestamoTxn;
use loanme_webapi::usuario::{TipoUsuario, UserError, Usuario};

fn user(id: i64, tipo: Option<TipoUsuario>) -> Usuario {
    Usuario {
        id,
        email: String::from("x@example.com"),
        nombrecompleto: String::from("X"),
        nombreusuario: String::from("x"),
        contrasenna: String::from("$h"),
        idwallet: None,
        tipousuario: tipo,
        habilitado: true,
    }
}

fn loan(plazo: i64, lender: Option<i64>, borrower: Option<i64>) -> Prestamo {
    Prestamo {
        id: 0,
        fechaCreacion: Moment { secs: 0, nanos: 0 },
        plazoPago: plazo,
        intervaloPago: String::from("mensual"),
        riesgo: 1,
        fkPrestatario: borrower,
        fkPrestamista: lender,
    }
}

// Far in the future, so the deadline lies after any clock reading.
const LATER: i64 = 9_000_000_000_000;

fn txn() -> PrestamoTxn {
    PrestamoTxn { fkPrestamo: 5, txnId: String::from("0xabc") }
}

#[test]
fn offer_by_a_lender_is_stored_dated() {
    let (s, a) = createLoanOffer(
        CreateLoanState::Start,
        CreateLoanEvent::Begin { loan: loan(LATER, None, None), sessionId: String::from("S2") },
    );
    assert!(matches!(&a, CreateLoanAction::FetchSessionUser(k) if k == "sessionIdS2"));
    let (s, a) = createLoanOffer(s, CreateLoanEvent::SessionUser(Ok(String::from("lena"))));
    assert!(matches!(&a, CreateLoanAction::LookupUser(n) if n == "lena"));
    let (s, a) = createLoanOffer(s, CreateLoanEvent::UserFound(Ok(user(30, Some(TipoUsuario::Prestamista)))));
    match &a {
        CreateLoanAction::InsertLoan { loan, creatorId } => {
            assert_eq!(*creatorId, 30);
            assert!(loan.fechaCreacion.secs > 1_600_000_000 && loan.fechaCreacion.secs < LATER);
            assert_eq!((loan.plazoPago, loan.riesgo), (LATER, 1));
            assert_eq!((loan.fkPrestamista, loan.fkPrestatario), (Some(30), None));
        },
        _ => panic!("expected the loan to be stored"),
    }
    let (s, a) = createLoanOffer(s, CreateLoanEvent::Inserted(Ok(())));
    assert!(matches!(s, CreateLoanState::Finished));
    assert!(matches!(&a, CreateLoanAction::Reply(Ok(t)) if t == "Done"));
}

#[test]
fn loan_creation_refusals() {
    let await_user = |plazo| CreateLoanState::AwaitUser { loan: loan(plazo, None, None) };
    let (_, a) = createLoanOffer(await_user(LATER), CreateLoanEvent::UserFound(Ok(user(31, Some(TipoUsuario::Prestatario)))));
    match a {
        CreateLoanAction::Reply(Err(r)) => {
            assert_eq!((r.status, r.message.as_str()), (403, "User is unauthorized for this operation (expected: ?, found: ?)"))
        },
        _ => panic!(),
    }
    let (_, a) = createLoanRequest(await_user(LATER), CreateLoanEvent::UserFound(Ok(user(31, None))));
    match a {
        CreateLoanAction::Reply(Err(r)) => assert_eq!((r.status, r.message.as_str()), (400, "User provided has an invalid type None")),
        _ => panic!(),
    }
    let (_, a) = createLoanRequest(await_user(1_000), CreateLoanEvent::UserFound(Ok(user(31, Some(TipoUsuario::Prestatario)))));
    match a {
        CreateLoanAction::Reply(Err(r)) => assert_eq!((r.status, r.message.as_str()), (400, "The provided date is invalid")),
        _ => panic!(),
    }
    let (_, a) = createLoanRequest(await_user(LATER), CreateLoanEvent::UserFound(Ok(user(31, Some(TipoUsuario::Prestatario)))));
    // Parties named in the request are replaced by the creator alone.
    let (_, a) = createLoanRequest(
        CreateLoanState::AwaitUser { loan: loan(LATER, Some(99), Some(98)) },
        CreateLoanEvent::UserFound(Ok(user(31, Some(TipoUsuario::Prestatario)))),
    );
    match a {
        CreateLoanAction::InsertLoan { loan, creatorId } => {
            assert_eq!((creatorId, loan.fkPrestamista, loan.fkPrestatario), (31, None, Some(31)))
        },
        _ => panic!(),
    }
    let (_, a) = createLoanOffer(await_user(LATER), CreateLoanEvent::UserFound(Err(UserError::MultithreadError)));
    match a {
        CreateLoanAction::Reply(Err(r)) => {
            assert_eq!((r.status, r.message.as_str()), (500, "Thread failed to execute task until completion"))
        },
        _ => panic!(),
    }
    let failure = RedisFailure { kind: String::from("IoError"), detail: Some(String::from("gone")) };
    let (_, a) = createLoanOffer(
        CreateLoanState::AwaitSessionUser { loan: loan(LATER, None, None) },
        CreateLoanEvent::SessionUser(Err(failure)),
    );
    match a {
        CreateLoanAction::Reply(Err(r)) => assert_eq!((r.status, r.message.as_str()), (500, "IoError: gone")),
        _ => panic!(),
    }
}

#[test]
fn payment_by_a_party_is_stored() {
    let (s, a) = addTxn(TxnState::Start, TxnEvent::Begin { txn: txn(), sessionId: String::from("S3") });
    assert!(matches!(&a, TxnAction::FetchSessionUser(k) if k == "sessionIdS3"));
    let (s, a) = addTxn(s, TxnEvent::SessionUser(Ok(String::from("bea"))));
    assert!(matches!(&a, TxnAction::LookupUser(n) if n == "bea"));
    let (s, a) = addTxn(s, TxnEvent::UserFound(Ok(user(41, Some(TipoUsuario::Prestatario)))));
    assert!(matches!(a, TxnAction::FetchLoan(5)));
    let (s, a) = addTxn(s, TxnEvent::LoanFound(Ok(loan(LATER, Some(30), Some(41)))));
    assert!(matches!(&a, TxnAction::InsertTxn(t) if t.fkPrestamo == 5 && t.txnId == "0xabc"));
    let (s, a) = addTxn(s, TxnEvent::Inserted(Ok(1)));
    assert!(matches!(s, TxnState::Finished));
    assert!(matches!(&a, TxnAction::Reply(Ok(t)) if t == "Done"));
}

#[test]
fn payment_refusals() {
    let await_user = || TxnState::AwaitUser { txn: txn() };
    let (_, a) = addTxn(await_user(), TxnEvent::UserFound(Ok(user(1, Some(TipoUsuario::Administrador)))));
    match a {
        TxnAction::Reply(Err(r)) => assert_eq!((r.status, r.message.as_str()), (400, "User provided has an invalid type Some(Administrador)")),
        _ => panic!(),
    }
    let await_loan = |u| TxnState::AwaitLoan { usuario: u, txn: txn() };
    let (_, a) = addTxn(await_loan(user(30, Some(TipoUsuario::Prestamista))), TxnEvent::LoanFound(Ok(loan(LATER, Some(30), None))));
    match a {
        TxnAction::Reply(Err(r)) => assert_eq!(r.status, 403),
        _ => panic!(),
    }
    let (_, a) = addTxn(await_loan(user(41, Some(TipoUsuario::Prestatario))), TxnEvent::LoanFound(Ok(loan(LATER, None, Some(41)))));
    match a {
        TxnAction::Reply(Err(r)) => assert_eq!(r.status, 403),
        _ => panic!(),
    }
    let (_, a) = addTxn(await_loan(user(41, None)), TxnEvent::LoanFound(Ok(loan(LATER, None, None))));
    assert!(matches!(a, TxnAction::InsertTxn(_)));
    let failed = LoanError::DbError(DbFailure::Other { text: String::from("x") });
    let (_, a) = addTxn(TxnState::AwaitInsert, TxnEvent::Inserted(Err(failed)));
    match a {
        TxnAction::Reply(Err(r)) => {
            assert_eq!((r.status, r.message.as_str()), (500, "There was an error while executing a database query"))
        },
        _ => panic!(),
    }
}
