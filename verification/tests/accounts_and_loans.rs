use loanme_webapi::misc::Moment;
use loanme_webapi::errors::DbFailure;
use loanme_webapi::perfil_crediticio::{creditLookupRejection, creditUpdateOutcome, PerfilCrediticio};
use loanme_webapi::prestamo::{checkLoanCreation, loanRejection, LoanError, Prestamo};
use loanme_webapi::prestamo_propuesta::{PrestamoPropuesta, ProposalRole};
use loanme_webapi::prestamo_txn::{getAcceptedCurrencies, AcceptedBlockchains, InputTxn, PrestamoTxn};
use loanme_webapi::usuario::{
    checkPasswordOutcome, userLookupRejection, userUpdateOutcome, TipoUsuario, UserError, Usuario,
};

fn user(id: i64, tipo: Option<TipoUsuario>) -> Usuario {
    Usuario {
        id,
        email: String::from("ana@example.com"),
        nombrecompleto: String::from("Ana Diaz"),
        nombreusuario: String::from("ana"),
        contrasenna: String::from("secreto"),
        idwallet: None,
        tipousuario: tipo,
        habilitado: true,
    }
}

fn loan(lender: Option<i64>, borrower: Option<i64>, plazo: i64) -> Prestamo {
    Prestamo {
        id: 9,
        fechaCreacion: Moment { secs: 0, nanos: 0 },
        plazoPago: plazo,
        intervaloPago: String::from("mensual"),
        riesgo: 2,
        fkPrestatario: borrower,
        fkPrestamista: lender,
    }
}

const FAR_FUTURE: i64 = 32503680000; // 3000-01-01

#[test]
fn hashed_password_validates_only_the_same_password() {
    let mut u = user(1, Some(TipoUsuario::Prestatario));
    let phc = u.generatePwd().unwrap();
    assert_eq!(u.contrasenna, phc);
    assert!(phc.starts_with("$argon2"));
    let candidate = user(1, None);
    assert_eq!(candidate.validatePwd(phc.clone()).unwrap(), true);
    let mut wrong = user(1, None);
    wrong.contrasenna = String::from("otro");
    assert_eq!(wrong.validatePwd(phc).unwrap(), false);
}

#[test]
fn malformed_hash_fails_the_check() {
    let u = user(1, None);
    assert!(matches!(u.validatePwd(String::from("not a phc")), Err(UserError::MultithreadError)));
    assert!(matches!(u.validatePwd(String::new()), Err(UserError::MultithreadError)));
}

#[test]
fn two_hashes_of_one_password_differ() {
    let mut a = user(1, None);
    let mut b = user(1, None);
    assert_ne!(a.generatePwd().unwrap(), b.generatePwd().unwrap());
}

#[test]
fn user_lookup_answers() {
    let r = userLookupRejection(&UserError::MultithreadError);
    assert_eq!((r.status, r.message.as_str()), (500, "There was an error while processing your request"));
    let r = userLookupRejection(&UserError::DbError(DbFailure::RowNotFound { text: String::from("none") }));
    assert_eq!((r.status, r.message.as_str()), (400, "User does not exist"));
    let r = userLookupRejection(&UserError::DbError(DbFailure::Other { text: String::from("pool timed out") }));
    assert_eq!((r.status, r.message.as_str()), (500, "pool timed out"));
}

#[test]
fn password_check_answers() {
    assert!(checkPasswordOutcome(&Ok(true)).is_ok());
    let r = checkPasswordOutcome(&Ok(false)).unwrap_err();
    assert_eq!((r.status, r.message.as_str()), (401, "Wrong password"));
    let r = checkPasswordOutcome(&Err(UserError::MultithreadError)).unwrap_err();
    assert_eq!(r.status, 500);
    assert_eq!(userUpdateOutcome(&Ok(1), "DONE").unwrap(), "DONE");
    let r = userUpdateOutcome(&Err(UserError::DbError(DbFailure::Other { text: String::new() })), "DONE").unwrap_err();
    assert_eq!((r.status, r.message.as_str()), (500, "There was an error while executing a database query"));
    assert_eq!(UserError::MultithreadError.message(), "Thread failed to execute task until completion");
}

#[test]
fn clone_keeps_the_account() {
    let mut u = user(4, Some(TipoUsuario::Prestamista));
    u.idwallet = Some(String::from("w"));
    let c = u.clone();
    assert_eq!(c.id, 4);
    assert_eq!(c.idwallet.as_deref(), Some("w"));
    assert_eq!(c.tipousuario, Some(TipoUsuario::Prestamista));
    assert_eq!(TipoUsuario::default(), TipoUsuario::Prestatario);
}

fn profile() -> PerfilCrediticio {
    PerfilCrediticio {
        id: 3,
        fkUsuario: 1,
        dni: String::from("12345678"),
        historialCrediticio: Some(String::from("h")),
        extractoBancario: None,
        comprobanteDeIngreso: Some(String::from("c")),
        descripcionFinanciera: None,
    }
}

#[test]
fn credit_changes_replace_given_documents_only() {
    let mut p = profile();
    let change = PerfilCrediticio {
        id: 0,
        fkUsuario: 0,
        dni: String::from("ignored"),
        historialCrediticio: None,
        extractoBancario: Some(String::from("e")),
        comprobanteDeIngreso: Some(String::from("c2")),
        descripcionFinanciera: None,
    };
    p.applyChanges(&change);
    assert_eq!((p.id, p.fkUsuario, p.dni.as_str()), (3, 1, "12345678"));
    assert_eq!(p.historialCrediticio.as_deref(), Some("h"));
    assert_eq!(p.extractoBancario.as_deref(), Some("e"));
    assert_eq!(p.comprobanteDeIngreso.as_deref(), Some("c2"));
    assert_eq!(p.descripcionFinanciera, None);
    p.applyChanges(&change);
    assert_eq!(p.comprobanteDeIngreso.as_deref(), Some("c2"));
    let empty = PerfilCrediticio { historialCrediticio: None, comprobanteDeIngreso: None, ..profile() };
    let mut q = profile();
    q.applyChanges(&empty);
    assert_eq!(q.historialCrediticio.as_deref(), Some("h"));
}

#[test]
fn credit_answers() {
    let r = creditLookupRejection(&DbFailure::RowNotFound { text: String::new() });
    assert_eq!((r.status, r.message.as_str()), (400, "Credit history does not exist"));
    let r = creditLookupRejection(&DbFailure::Other { text: String::from("t") });
    assert_eq!((r.status, r.message.as_str()), (500, "t"));
    assert_eq!(creditUpdateOutcome(1).unwrap(), "Done");
    let r = creditUpdateOutcome(0).unwrap_err();
    assert_eq!((r.status, r.message.as_str()), (400, "There was an error while updating the credit data"));
    assert_eq!(creditUpdateOutcome(5).unwrap_err().status, 500);
}

#[test]
fn loan_offers_are_made_by_lenders_with_a_future_deadline() {
    let mut l = loan(None, None, FAR_FUTURE);
    assert!(l.createLoanOffer(&user(1, Some(TipoUsuario::Prestamista))).is_ok());
    assert!(l.fechaCreacion.secs > 1_600_000_000 && l.fechaCreacion.secs < FAR_FUTURE);
    assert!(l.fechaCreacion.nanos < 2_000_000_000);

    let mut l = loan(None, None, 1000);
    assert!(matches!(l.createLoanOffer(&user(1, Some(TipoUsuario::Prestamista))), Err(LoanError::InvalidDate)));

    let mut l = loan(None, None, FAR_FUTURE);
    let e = l.createLoanOffer(&user(1, Some(TipoUsuario::Prestatario))).unwrap_err();
    assert!(matches!(e, LoanError::UserUnauthorized {
        expected: Some(TipoUsuario::Prestamista),
        found: Some(TipoUsuario::Prestatario)
    }));
    assert_eq!(l.fechaCreacion, Moment { secs: 0, nanos: 0 });
    let e = l.createLoanOffer(&user(1, Some(TipoUsuario::Administrador))).unwrap_err();
    assert!(matches!(e, LoanError::InvalidUserType { found: Some(TipoUsuario::Administrador) }));
    let e = l.createLoanOffer(&user(1, None)).unwrap_err();
    assert!(matches!(e, LoanError::InvalidUserType { found: None }));
}

#[test]
fn loan_requests_are_made_by_borrowers() {
    let mut l = loan(None, None, FAR_FUTURE);
    assert!(l.createLoanRequest(&user(1, Some(TipoUsuario::Prestatario))).is_ok());
    let mut l = loan(None, None, FAR_FUTURE);
    let e = l.createLoanRequest(&user(1, Some(TipoUsuario::Prestamista))).unwrap_err();
    assert!(matches!(e, LoanError::UserUnauthorized {
        expected: Some(TipoUsuario::Prestatario),
        found: Some(TipoUsuario::Prestamista)
    }));
}

#[test]
fn loan_creation_rule() {
    assert!(checkLoanCreation(Some(TipoUsuario::Prestamista), TipoUsuario::Prestamista, 10, 11).is_ok());
    assert!(matches!(
        checkLoanCreation(Some(TipoUsuario::Prestamista), TipoUsuario::Prestamista, 11, 11),
        Err(LoanError::InvalidDate)
    ));
    assert!(matches!(
        checkLoanCreation(Some(TipoUsuario::Prestatario), TipoUsuario::Prestamista, 0, 11),
        Err(LoanError::UserUnauthorized { .. })
    ));
}

#[test]
fn loan_error_answers() {
    let r = loanRejection(&LoanError::InvalidUserType { found: Some(TipoUsuario::Administrador) });
    assert_eq!((r.status, r.message.as_str()), (400, "User provided has an invalid type Some(Administrador)"));
    let r = loanRejection(&LoanError::InvalidUserType { found: None });
    assert_eq!(r.message, "User provided has an invalid type None");
    let r = loanRejection(&LoanError::UserUnauthorized { expected: None, found: None });
    assert_eq!((r.status, r.message.as_str()), (403, "User is unauthorized for this operation (expected: ?, found: ?)"));
    let r = loanRejection(&LoanError::InvalidDate);
    assert_eq!((r.status, r.message.as_str()), (400, "The provided date is invalid"));
    assert_eq!(loanRejection(&LoanError::InvalidUser).status, 400);
    let r = loanRejection(&LoanError::DbError(DbFailure::Other { text: String::new() }));
    assert_eq!((r.status, r.message.as_str()), (500, "There was an error while executing a database query"));
}

#[test]
fn loan_creator() {
    assert_eq!(loan(Some(4), Some(5), 0).loanCreatorId(), Some(4));
    assert_eq!(loan(None, Some(5), 0).loanCreatorId(), Some(5));
    assert_eq!(loan(Some(4), None, 0).loanCreatorId(), Some(4));
    assert_eq!(loan(None, None, 0).loanCreatorId(), None);
}

#[test]
fn proposals() {
    let request = loan(None, Some(5), FAR_FUTURE);
    let offer = loan(Some(4), None, FAR_FUTURE);
    assert_eq!(
        PrestamoPropuesta::proposeCompleteLoan(&user(1, Some(TipoUsuario::Prestamista)), &request).unwrap(),
        ProposalRole::Lender
    );
    assert_eq!(
        PrestamoPropuesta::proposeCompleteLoan(&user(1, Some(TipoUsuario::Prestatario)), &offer).unwrap(),
        ProposalRole::Borrower
    );
    assert!(matches!(
        PrestamoPropuesta::proposeCompleteLoan(&user(5, Some(TipoUsuario::Prestamista)), &request),
        Err(LoanError::InvalidUser)
    ));
    assert!(matches!(
        PrestamoPropuesta::proposeCompleteLoan(&user(1, Some(TipoUsuario::Prestamista)), &offer),
        Err(LoanError::UserUnauthorized { expected: None, found: Some(TipoUsuario::Prestamista) })
    ));
    assert!(matches!(
        PrestamoPropuesta::proposeCompleteLoan(&user(1, Some(TipoUsuario::Prestatario)), &request),
        Err(LoanError::UserUnauthorized { expected: None, found: Some(TipoUsuario::Prestatario) })
    ));
    assert!(matches!(
        PrestamoPropuesta::proposeCompleteLoan(&user(1, Some(TipoUsuario::Administrador)), &request),
        Err(LoanError::InvalidUserType { found: Some(TipoUsuario::Administrador) })
    ));
    assert!(matches!(
        PrestamoPropuesta::proposeCompleteLoan(&user(1, None), &request),
        Err(LoanError::InvalidUserType { found: None })
    ));
}

#[test]
fn accepted_currencies_in_order() {
    assert_eq!(
        getAcceptedCurrencies(),
        vec![
            AcceptedBlockchains::Monero,
            AcceptedBlockchains::Bitcoin,
            AcceptedBlockchains::BitcoinTestnet,
            AcceptedBlockchains::Ethereum,
            AcceptedBlockchains::EthereumTestnet
        ]
    );
    assert_eq!(AcceptedBlockchains::default(), AcceptedBlockchains::Monero);
}

#[test]
fn payments() {
    let txn = InputTxn { txn: PrestamoTxn { fkPrestamo: 9, txnId: String::from("0xabc") } }.txn;
    let full = loan(Some(4), Some(5), FAR_FUTURE);
    assert!(txn.addTxn(&user(4, Some(TipoUsuario::Prestamista)), &full).is_ok());
    assert!(txn.addTxn(&user(5, Some(TipoUsuario::Prestatario)), &full).is_ok());
    assert!(txn.addTxn(&user(5, None), &loan(None, None, 0)).is_ok());
    assert!(matches!(
        txn.addTxn(&user(4, Some(TipoUsuario::Prestamista)), &loan(Some(4), None, 0)),
        Err(LoanError::UserUnauthorized { expected: None, found: Some(TipoUsuario::Prestamista) })
    ));
    assert!(matches!(
        txn.addTxn(&user(5, Some(TipoUsuario::Prestatario)), &loan(None, Some(5), 0)),
        Err(LoanError::UserUnauthorized { expected: None, found: Some(TipoUsuario::Prestatario) })
    ));
    assert!(matches!(
        txn.addTxn(&user(1, Some(TipoUsuario::Administrador)), &full),
        Err(LoanError::InvalidUserType { found: Some(TipoUsuario::Administrador) })
    ));
    assert!(matches!(
        PrestamoTxn::authorizeTxnUser(&user(1, Some(TipoUsuario::Administrador))),
        Err(LoanError::InvalidUserType { .. })
    ));
    assert!(PrestamoTxn::authorizeTxnUser(&user(1, Some(TipoUsuario::Prestamista))).is_ok());
}
