use loanme_webapi::misc::Moment;
use loanme_webapi::errors::{DbFailure, RedisFailure};
use loanme_webapi::loans::{
    completeLoan, proposeCompleteLoan, CompleteAction, CompleteEvent, CompleteState, ProposeAction, ProposeEvent, ProposeState,
};
use loanme_webapi::prestamo_propuesta::PrestamoPropuesta;
use loanme_webapi::mail::{Mail, MailError};
use loanme_webapi::prestamo::{LoanError, Prestamo};
use loanme_webapi::usuario::{TipoUsuario, UserError, Usuario};

fn user(id: i64, tipo: TipoUsuario) -> Usuario {
    Usuario {
        id,
        email: String::from("x@example.com"),
        nombrecompleto: String::from("X"),
        nombreusuario: String::from("x"),
        contrasenna: String::from("$h"),
        idwallet: None,
        tipousuario: Some(tipo),
        habilitado: true,
    }
}

fn loan(lender: Option<i64>, borrower: Option<i64>) -> Prestamo {
    Prestamo {
        id: 5,
        fechaCreacion: Moment { secs: 1_700_000_000, nanos: 0 },
        plazoPago: 1_800_000_000,
        intervaloPago: String::from("mensual"),
        riesgo: 2,
        fkPrestatario: borrower,
        fkPrestamista: lender,
    }
}

fn reply(a: ProposeAction) -> Result<String, (u16, String)> {
    match a {
        ProposeAction::Reply(r) => r.map_err(|e| (e.status, e.message)),
        other => panic!("expected an answer, got {:?}", other),
    }
}

#[test]
fn lender_takes_up_a_request() {
    let (s, a) = proposeCompleteLoan(
        ProposeState::Start,
        ProposeEvent::Begin { loanId: 5, walletId: Some(String::from("W")), sessionId: String::from("S1") },
    );
    assert!(matches!(&a, ProposeAction::FetchSessionUser(k) if k == "sessionIdS1"));
    let (s, a) = proposeCompleteLoan(s, ProposeEvent::SessionUser(Ok(String::from("lena"))));
    assert!(matches!(&a, ProposeAction::LookupUser(n) if n == "lena"));
    let (s, a) = proposeCompleteLoan(s, ProposeEvent::UserFound(Ok(user(30, TipoUsuario::Prestamista))));
    assert!(matches!(a, ProposeAction::FetchLoan(5)));
    let (s, a) = proposeCompleteLoan(s, ProposeEvent::LoanFound(Ok(loan(None, Some(40)))));
    assert!(matches!(a, ProposeAction::StoreProposal { fkPrestamo: 5, walletId: None, fkUsuario: 30 }));
    let (s, a) = proposeCompleteLoan(s, ProposeEvent::Stored(Ok(())));
    assert!(matches!(a, ProposeAction::FetchLoan(5)));
    let (s, a) = proposeCompleteLoan(s, ProposeEvent::LoanFound(Ok(loan(None, Some(40)))));
    assert!(matches!(a, ProposeAction::LookupCreator(40)));
    let (s, a) = proposeCompleteLoan(s, ProposeEvent::CreatorFound(Ok(user(40, TipoUsuario::Prestatario))));
    match &a {
        ProposeAction::SendMail(Mail::LoanProposal(creator, proposer, loanId)) => {
            assert_eq!((creator.id, proposer.id, *loanId), (40, 30, 5));
        },
        other => panic!("expected the proposal mail, got {:?}", other),
    }
    let (s, a) = proposeCompleteLoan(s, ProposeEvent::MailSent(Ok(())));
    assert!(matches!(s, ProposeState::Finished));
    assert_eq!(reply(a), Ok(String::from("Done")));
}

#[test]
fn borrower_proposal_keeps_the_wallet() {
    let state = ProposeState::AwaitLoan {
        usuario: user(41, TipoUsuario::Prestatario),
        loanId: 5,
        walletId: Some(String::from("W")),
    };
    let (_, a) = proposeCompleteLoan(state, ProposeEvent::LoanFound(Ok(loan(Some(30), None))));
    match a {
        ProposeAction::StoreProposal { fkPrestamo, walletId, fkUsuario } => {
            assert_eq!((fkPrestamo, walletId.as_deref(), fkUsuario), (5, Some("W"), 41))
        },
        _ => panic!(),
    }
    let (_, a) = proposeCompleteLoan(ProposeState::AwaitStoredLoan { usuario: user(41, TipoUsuario::Prestatario) }, ProposeEvent::LoanFound(Ok(loan(Some(30), Some(41)))));
    assert!(matches!(a, ProposeAction::LookupCreator(30)));
    // A borrower's proposal on an offer: the creator is the lender.
    let (_, a) = proposeCompleteLoan(
        ProposeState::AwaitStoredLoan { usuario: user(41, TipoUsuario::Prestatario) },
        ProposeEvent::LoanFound(Ok(loan(Some(30), None))),
    );
    assert!(matches!(a, ProposeAction::LookupCreator(30)));
    let (_, a) = proposeCompleteLoan(
        ProposeState::AwaitStoredLoan { usuario: user(41, TipoUsuario::Prestatario) },
        ProposeEvent::LoanFound(Ok(loan(None, None))),
    );
    assert_eq!(reply(a), Err((500, String::from("This should not have happened."))));
}

#[test]
fn refused_proposals() {
    let await_loan = |u: Usuario| ProposeState::AwaitLoan { usuario: u, loanId: 5, walletId: None };
    let (_, a) = proposeCompleteLoan(await_loan(user(40, TipoUsuario::Prestamista)), ProposeEvent::LoanFound(Ok(loan(None, Some(40)))));
    assert_eq!(reply(a), Err((400, String::from("The provided user can not take part in this loan"))));
    let (_, a) = proposeCompleteLoan(await_loan(user(30, TipoUsuario::Prestamista)), ProposeEvent::LoanFound(Ok(loan(Some(31), None))));
    assert_eq!(reply(a), Err((403, String::from("User is unauthorized for this operation (expected: ?, found: ?)"))));
    let (_, a) = proposeCompleteLoan(await_loan(user(30, TipoUsuario::Administrador)), ProposeEvent::LoanFound(Ok(loan(None, Some(40)))));
    assert_eq!(reply(a), Err((400, String::from("User provided has an invalid type Some(Administrador)"))));
    let missing = LoanError::DbError(DbFailure::RowNotFound { text: String::from("gone") });
    let (_, a) = proposeCompleteLoan(await_loan(user(30, TipoUsuario::Prestamista)), ProposeEvent::LoanFound(Err(missing)));
    assert_eq!(reply(a), Err((500, String::from("There was an error while executing a database query"))));
    let (_, a) = proposeCompleteLoan(ProposeState::AwaitStore { usuario: user(30, TipoUsuario::Prestamista), loanId: 5 }, ProposeEvent::Stored(Err(LoanError::InvalidDate)));
    assert_eq!(reply(a), Err((400, String::from("The provided date is invalid"))));
    let (_, a) = proposeCompleteLoan(ProposeState::AwaitCreator { usuario: user(30, TipoUsuario::Prestamista), loanId: 5 }, ProposeEvent::CreatorFound(Err(UserError::MultithreadError)));
    assert_eq!(reply(a), Err((500, String::from("Thread failed to execute task until completion"))));
    let (_, a) = proposeCompleteLoan(ProposeState::AwaitSend, ProposeEvent::MailSent(Err(MailError::Test)));
    assert_eq!(reply(a), Err((500, String::from("Email service test."))));
    let failure = RedisFailure { kind: String::from("IoError"), detail: None };
    let (_, a) = proposeCompleteLoan(
        ProposeState::AwaitSessionUser { loanId: 5, walletId: None },
        ProposeEvent::SessionUser(Err(failure)),
    );
    assert_eq!(reply(a), Err((500, String::from("IoError: No further detail provided"))));
}

#[test]
fn proposal_mail_names_proposer_and_loan() {
    let mut creator = user(40, TipoUsuario::Prestatario);
    creator.nombrecompleto = String::from("Bea Ruiz");
    creator.email = String::from("bea@example.com");
    let mut proposer = user(30, TipoUsuario::Prestamista);
    proposer.nombreusuario = String::from("lena");
    let m = Mail::LoanProposal(creator, proposer, 1234);
    let (to, subject, body) = m.content().unwrap();
    assert_eq!(to, "Bea Ruiz <bea@example.com>");
    assert_eq!(subject, "Loan proposal");
    assert_eq!(body, "User lena proposes to complete your loan 1234");
    let env = m.prepare().unwrap();
    assert_eq!(env.to.mailbox().email.to_string(), "bea@example.com");
    let mut keep = Mail::LoanProposal(user(1, TipoUsuario::Prestatario), user(2, TipoUsuario::Prestamista), 7);
    assert!(keep.save().is_none());
    assert!(matches!(keep, Mail::LoanProposal(_, _, 7)));
}

fn complete_reply(a: CompleteAction) -> Result<String, (u16, String)> {
    match a {
        CompleteAction::Reply(r) => r.map_err(|e| (e.status, e.message)),
        other => panic!("expected an answer, got {:?}", other),
    }
}

#[test]
fn accepting_a_lenders_proposal_completes_the_request() {
    let proposal = PrestamoPropuesta { fkPrestamo: 5, walletId: String::new(), fkUsuario: 30 };
    let (s, a) = completeLoan(CompleteState::Start, CompleteEvent::Begin(proposal));
    assert!(matches!(a, CompleteAction::LookupUserById(30)));
    let (s, a) = completeLoan(s, CompleteEvent::UserFound(Ok(user(30, TipoUsuario::Prestamista))));
    assert!(matches!(a, CompleteAction::FetchLoan(5)));
    let (s, a) = completeLoan(s, CompleteEvent::LoanFound(Ok(loan(None, Some(40)))));
    match &a {
        CompleteAction::UpdateLoan(l) => assert_eq!((l.id, l.fkPrestamista, l.fkPrestatario), (5, Some(30), Some(40))),
        other => panic!("expected the update, got {:?}", other),
    }
    let (s, a) = completeLoan(s, CompleteEvent::Updated(Ok(())));
    assert!(matches!(a, CompleteAction::ClearProposals(5)));
    let (s, a) = completeLoan(s, CompleteEvent::Cleared(Ok(())));
    assert!(matches!(a, CompleteAction::LookupUserById(30)));
    let (s, a) = completeLoan(s, CompleteEvent::UserFound(Ok(user(30, TipoUsuario::Prestamista))));
    match &a {
        CompleteAction::SendMail(m) => {
            assert!(matches!(m, Mail::LoanProposalAccepted(u, 5) if u.id == 30));
            assert_eq!(m.content().unwrap().2, "Your proposal to complete loan 5 was accepted");
        },
        other => panic!("expected the mail, got {:?}", other),
    }
    let (s, a) = completeLoan(s, CompleteEvent::MailSent(Ok(())));
    assert!(matches!(s, CompleteState::Finished));
    assert_eq!(complete_reply(a), Ok(String::from("Done")));
}

#[test]
fn refused_completions() {
    let await_loan = |u: Usuario| CompleteState::AwaitLoan { usuario: u, loanId: 5, fkUsuario: 30 };
    let (_, a) = completeLoan(await_loan(user(40, TipoUsuario::Prestatario)), CompleteEvent::LoanFound(Ok(loan(Some(30), Some(41)))));
    assert_eq!(complete_reply(a), Err((403, String::from("User is unauthorized for this operation (expected: ?, found: ?)"))));
    let (_, a) = completeLoan(await_loan(user(30, TipoUsuario::Prestamista)), CompleteEvent::LoanFound(Ok(loan(Some(30), None))));
    assert_eq!(complete_reply(a), Err((400, String::from("The provided user can not take part in this loan"))));
    let (_, a) = completeLoan(
        CompleteState::AwaitUser { loanId: 5, fkUsuario: 30 },
        CompleteEvent::UserFound(Err(UserError::MultithreadError)),
    );
    assert_eq!(complete_reply(a), Err((500, String::from("Thread failed to execute task until completion"))));
    let (_, a) = completeLoan(
        CompleteState::AwaitClear { fkUsuario: 30, loanId: 5 },
        CompleteEvent::Cleared(Err(LoanError::DbError(DbFailure::Other { text: String::from("x") }))),
    );
    assert_eq!(complete_reply(a), Err((500, String::from("There was an error while executing a database query"))));
    let (_, a) = completeLoan(CompleteState::AwaitSend, CompleteEvent::MailSent(Err(MailError::Test)));
    assert_eq!(complete_reply(a), Err((500, String::from("Email service test."))));
}
