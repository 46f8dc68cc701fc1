use loanme_webapi::errors::{DbFailure, RedisFailure, Rejection};
use loanme_webapi::mail::{Mail, MailError};
use loanme_webapi::misc::generateRnd;
use loanme_webapi::perfil_crediticio::PerfilCrediticio;
use loanme_webapi::prestamo::LoanError;
use loanme_webapi::prestamo_propuesta::PrestamoPropuesta;
use loanme_webapi::profile::{
    changeCredit, changePwd, changePwdWithCheck, changePwdWithSalt, requestRestorePwd, ChangeCreditAction, ChangeCreditEvent, ChangeCreditState, ChangePwdAction,
    ChangePwdEvent, ChangePwdState, RestoreRequestAction, RestoreRequestEvent, RestoreRequestState,
};
use loanme_webapi::user_info::{getUserInfo, UserInfoAction, UserInfoEvent, UserInfoState};
use loanme_webapi::usuario::{TipoUsuario, UserError, Usuario};

fn user(name: &str, pwd: &str) -> Usuario {
    Usuario {
        id: 7,
        email: String::from("ana@example.com"),
        nombrecompleto: String::from("Ana Diaz"),
        nombreusuario: String::from(name),
        contrasenna: String::from(pwd),
        idwallet: None,
        tipousuario: Some(TipoUsuario::Prestamista),
        habilitado: true,
    }
}

fn profile(id: i64, hist: Option<&str>, desc: Option<&str>) -> PerfilCrediticio {
    PerfilCrediticio {
        id,
        fkUsuario: 7,
        dni: String::from("12345678"),
        historialCrediticio: hist.map(String::from),
        extractoBancario: None,
        comprobanteDeIngreso: None,
        descripcionFinanciera: desc.map(String::from),
    }
}

fn rejected(r: Result<String, Rejection>) -> (u16, String) {
    let e = r.unwrap_err();
    (e.status, e.message)
}

#[test]
fn change_pwd_walkthrough() {
    let (s, a) = changePwd(ChangePwdState::Start, ChangePwdEvent::Begin { payload: user("ana", "old"), hasNewPwd: true });
    assert!(matches!(&a, ChangePwdAction::LookupUser(n) if n == "ana"));
    let found = user("ana", "old").hashedWith(&Usuario::newSalt());
    let stored = found.contrasenna.clone();
    let (s, a) = changePwd(s, ChangePwdEvent::UserFound(Ok(found)));
    match &a {
        ChangePwdAction::CheckPassword { candidate, phc } => {
            assert_eq!(candidate.contrasenna, "old");
            assert_eq!(phc, &stored);
        },
        _ => panic!("expected a password check"),
    }
    let (s, a) = changePwdWithCheck(s);
    assert!(matches!(a, ChangePwdAction::ReadNewPassword));
    let (s, a) = changePwd(s, ChangePwdEvent::NewPassword(String::from("new")));
    let hashed = match a {
        ChangePwdAction::HashPassword(u) => {
            assert_eq!((u.nombreusuario.as_str(), u.contrasenna.as_str(), u.id), ("ana", "new", 7));
            u
        },
        _ => panic!("expected hashing"),
    };
    let salt = Usuario::newSalt();
    let hashed = hashed.hashedWith(&salt);
    let phc = hashed.contrasenna.clone();
    assert!(phc.starts_with("$argon2"));
    let (s, a) = changePwd(s, ChangePwdEvent::Hashed { salt, usuario: hashed });
    assert!(matches!(&a, ChangePwdAction::UpdateUser(u) if u.contrasenna == phc && u.email == "ana@example.com"));
    let (s, a) = changePwd(s, ChangePwdEvent::Updated(Ok(1)));
    assert!(matches!(s, ChangePwdState::Finished));
    assert!(matches!(&a, ChangePwdAction::Reply(Ok(t)) if t == "DONE"));
}

#[test]
fn change_pwd_refusals() {
    let await_user = || ChangePwdState::AwaitUser { payload: user("ana", "old"), hasNewPwd: true };
    let (_, a) = changePwd(await_user(), ChangePwdEvent::UserFound(Err(UserError::DbError(DbFailure::RowNotFound { text: String::new() }))));
    match a {
        ChangePwdAction::Reply(r) => assert_eq!(rejected(r), (400, String::from("User does not exist"))),
        _ => panic!(),
    }
    let found = || user("ana", "right").hashedWith(&Usuario::newSalt());
    let await_pwd = |has, given: &str| ChangePwdState::AwaitPwd { usuario: found(), candidate: user("ana", given), hasNewPwd: has };
    let (_, a) = changePwdWithCheck(await_pwd(true, "wrong"));
    match a {
        ChangePwdAction::Reply(r) => assert_eq!(rejected(r), (401, String::from("Wrong password"))),
        _ => panic!(),
    }
    let (_, a) = changePwdWithCheck(await_pwd(false, "right"));
    match a {
        ChangePwdAction::Reply(r) => assert_eq!(rejected(r), (400, String::from("new password has to be provided"))),
        _ => panic!(),
    }
    let unparsable = ChangePwdState::AwaitPwd { usuario: user("ana", "not a phc string"), candidate: user("ana", "x"), hasNewPwd: true };
    let (_, a) = changePwdWithCheck(unparsable);
    match a {
        ChangePwdAction::Reply(r) => {
            assert_eq!(rejected(r), (500, String::from("There was an error while processing your request")))
        },
        _ => panic!(),
    }
    let (_, a) = changePwd(ChangePwdState::AwaitUpdate, ChangePwdEvent::Updated(Err(UserError::MultithreadError)));
    match a {
        ChangePwdAction::Reply(r) => {
            assert_eq!(rejected(r), (500, String::from("Thread failed to execute task until completion")))
        },
        _ => panic!(),
    }
}

#[test]
fn change_credit_walkthrough() {
    let change = profile(0, None, Some("salario fijo"));
    let (s, a) = changeCredit(
        ChangeCreditState::Start,
        ChangeCreditEvent::Begin { perfil: Some(change), sessionId: String::from("S9") },
    );
    assert!(matches!(&a, ChangeCreditAction::FetchSessionUser(k) if k == "sessionIdS9"));
    let (s, a) = changeCredit(s, ChangeCreditEvent::SessionUser(Ok(String::from("ana"))));
    assert!(matches!(&a, ChangeCreditAction::LookupUser(n) if n == "ana"));
    let (s, a) = changeCredit(s, ChangeCreditEvent::UserFound(Ok(user("ana", "$h"))));
    assert!(matches!(a, ChangeCreditAction::FetchCredit(7)));
    let stored = profile(3, Some("historial.pdf"), Some("antes"));
    let (s, a) = changeCredit(s, ChangeCreditEvent::CreditFound(Ok(stored)));
    match &a {
        ChangeCreditAction::UpdateCredit(p) => {
            assert_eq!(p.id, 3);
            assert_eq!(p.historialCrediticio.as_deref(), Some("historial.pdf"));
            assert_eq!(p.descripcionFinanciera.as_deref(), Some("salario fijo"));
            assert_eq!(p.extractoBancario, None);
        },
        _ => panic!("expected an update"),
    }
    let (s, a) = changeCredit(s, ChangeCreditEvent::Updated(Ok(1)));
    assert!(matches!(s, ChangeCreditState::Finished));
    assert!(matches!(&a, ChangeCreditAction::Reply(Ok(t)) if t == "Done"));
}

#[test]
fn change_credit_refusals() {
    let (_, a) = changeCredit(ChangeCreditState::Start, ChangeCreditEvent::Begin { perfil: None, sessionId: String::from("S9") });
    match a {
        ChangeCreditAction::Reply(r) => assert_eq!(rejected(r), (400, String::from("New credit data has to be provided"))),
        _ => panic!(),
    }
    let await_credit = || ChangeCreditState::AwaitCredit { change: profile(0, None, None) };
    let (_, a) = changeCredit(await_credit(), ChangeCreditEvent::CreditFound(Err(DbFailure::RowNotFound { text: String::new() })));
    match a {
        ChangeCreditAction::Reply(r) => assert_eq!(rejected(r), (400, String::from("Credit history does not exist"))),
        _ => panic!(),
    }
    let (_, a) = changeCredit(ChangeCreditState::AwaitUpdate, ChangeCreditEvent::Updated(Ok(0)));
    match a {
        ChangeCreditAction::Reply(r) => {
            assert_eq!(rejected(r), (400, String::from("There was an error while updating the credit data")))
        },
        _ => panic!(),
    }
    let (_, a) = changeCredit(ChangeCreditState::AwaitUpdate, ChangeCreditEvent::Updated(Ok(2)));
    match a {
        ChangeCreditAction::Reply(r) => assert_eq!(rejected(r), (500, String::from("This should not have happened."))),
        _ => panic!(),
    }
    let failure = RedisFailure { kind: String::from("IoError"), detail: Some(String::from("down")) };
    let (_, a) = changeCredit(
        ChangeCreditState::AwaitSessionUser { change: profile(0, None, None) },
        ChangeCreditEvent::SessionUser(Err(failure)),
    );
    match a {
        ChangeCreditAction::Reply(r) => assert_eq!(rejected(r), (500, String::from("IoError: down"))),
        _ => panic!(),
    }
}

#[test]
fn restore_request_walkthrough() {
    let (s, a) = requestRestorePwd(RestoreRequestState::Start, RestoreRequestEvent::Begin(String::from("ana")));
    assert!(matches!(&a, RestoreRequestAction::LookupUser(n) if n == "ana"));
    let (s, a) = requestRestorePwd(s, RestoreRequestEvent::UserFound(Ok(user("ana", "$h"))));
    assert!(matches!(a, RestoreRequestAction::MakeId));
    let id = generateRnd(64);
    let (s, a) = requestRestorePwd(s, RestoreRequestEvent::IdMade(id.clone()));
    match &a {
        RestoreRequestAction::StoreUser { key, usuario, ttl } => {
            assert_eq!(key, &format!("restoreId{}", id));
            assert_eq!(usuario.nombreusuario, "ana");
            assert_eq!(*ttl, 900);
        },
        _ => panic!("expected the account to be kept"),
    }
    let (s, a) = requestRestorePwd(s, RestoreRequestEvent::Stored(Ok(())));
    assert!(matches!(&a, RestoreRequestAction::SendMail(Mail::PwdRestore(u, sent)) if *sent == id && u.nombreusuario == "ana"));
    let (s, a) = requestRestorePwd(s, RestoreRequestEvent::MailSent(Ok(())));
    assert!(matches!(s, RestoreRequestState::Finished));
    assert!(matches!(&a, RestoreRequestAction::Reply(Ok(t)) if t == "Done"));
}

#[test]
fn restore_request_refusals() {
    let (_, a) = requestRestorePwd(RestoreRequestState::AwaitUser, RestoreRequestEvent::UserFound(Err(UserError::MultithreadError)));
    match a {
        RestoreRequestAction::Reply(r) => {
            assert_eq!(rejected(r), (500, String::from("There was an error while processing your request")))
        },
        _ => panic!(),
    }
    let failure = RedisFailure { kind: String::from("IoError"), detail: None };
    let (_, a) = requestRestorePwd(
        RestoreRequestState::AwaitStore { usuario: user("ana", "$h"), id: String::from("AB") },
        RestoreRequestEvent::Stored(Err(failure)),
    );
    match a {
        RestoreRequestAction::Reply(r) => {
            assert_eq!(rejected(r), (500, String::from("IoError: No further detail provided")))
        },
        _ => panic!(),
    }
    let (_, a) = requestRestorePwd(RestoreRequestState::AwaitSend, RestoreRequestEvent::MailSent(Err(MailError::Test)));
    assert!(matches!(a, RestoreRequestAction::ReplySendFailure(MailError::Test)));
}

fn proposal(loan: i64, proposer: i64) -> PrestamoPropuesta {
    PrestamoPropuesta { fkPrestamo: loan, walletId: String::from("wallet"), fkUsuario: proposer }
}

#[test]
fn user_info_walkthrough() {
    let (s, a) = getUserInfo(UserInfoState::Start, UserInfoEvent::Begin(String::from("S9")));
    assert!(matches!(&a, UserInfoAction::FetchSessionUser(k) if k == "sessionIdS9"));
    let (s, a) = getUserInfo(s, UserInfoEvent::SessionUser(Ok(String::from("ana"))));
    assert!(matches!(&a, UserInfoAction::LookupUser(n) if n == "ana"));
    let (s, a) = getUserInfo(s, UserInfoEvent::UserFound(Ok(user("ana", "$h"))));
    assert!(matches!(a, UserInfoAction::FetchCredit(7)));
    let (s, a) = getUserInfo(s, UserInfoEvent::CreditFound(Ok(profile(3, None, None))));
    assert!(matches!(a, UserInfoAction::FetchLoans(7)));
    let (s, a) = getUserInfo(s, UserInfoEvent::LoansListed(Ok(())));
    assert!(matches!(a, UserInfoAction::FetchProposals(7)));
    let (s, a) = getUserInfo(s, UserInfoEvent::ProposalsFound(Ok(vec![proposal(11, 21), proposal(12, 22)])));
    assert!(matches!(a, UserInfoAction::LookupProposer(21)));
    let (s, a) = getUserInfo(s, UserInfoEvent::ProposerFound(user("bruno", "$b")));
    assert!(matches!(a, UserInfoAction::LookupProposer(22)));
    let (s, a) = getUserInfo(s, UserInfoEvent::ProposerFound(user("carla", "$c")));
    assert!(matches!(s, UserInfoState::Finished));
    match a {
        UserInfoAction::Reply(Ok(info)) => {
            assert_eq!(info.usuario.nombreusuario, "ana");
            assert_eq!(info.perfil.id, 3);
            let shown: Vec<(i64, String)> =
                info.loanProposals.iter().map(|p| (p.fkPrestamo, p.usuario.nombreusuario.clone())).collect();
            assert_eq!(shown, vec![(11, String::from("bruno")), (12, String::from("carla"))]);
        },
        _ => panic!("expected the page"),
    }
}

#[test]
fn user_info_without_proposals_and_refusals() {
    let await_proposals = || UserInfoState::AwaitProposals { usuario: user("ana", "$h"), perfil: profile(3, None, None) };
    let (_, a) = getUserInfo(await_proposals(), UserInfoEvent::ProposalsFound(Ok(Vec::new())));
    assert!(matches!(&a, UserInfoAction::Reply(Ok(info)) if info.loanProposals.is_empty()));
    let (_, a) = getUserInfo(await_proposals(), UserInfoEvent::ProposalsFound(Err(LoanError::InvalidDate)));
    match a {
        UserInfoAction::Reply(Err(r)) => assert_eq!((r.status, r.message.as_str()), (400, "The provided date is invalid")),
        _ => panic!(),
    }
    let (_, a) = getUserInfo(UserInfoState::AwaitUser, UserInfoEvent::UserFound(Err(UserError::DbError(DbFailure::RowNotFound { text: String::new() }))));
    match a {
        UserInfoAction::Reply(Err(r)) => {
            assert_eq!((r.status, r.message.as_str()), (500, "There was an error while executing a database query"))
        },
        _ => panic!(),
    }
    let (_, a) = getUserInfo(
        UserInfoState::AwaitCredit { usuario: user("ana", "$h") },
        UserInfoEvent::CreditFound(Err(DbFailure::RowNotFound { text: String::from("no rows returned by a query that expected to return at least one row") })),
    );
    match a {
        UserInfoAction::Reply(Err(r)) => assert_eq!(
            (r.status, r.message.as_str()),
            (500, "no rows returned by a query that expected to return at least one row")
        ),
        _ => panic!(),
    }
    let (_, a) = getUserInfo(
        UserInfoState::AwaitLoans { usuario: user("ana", "$h"), perfil: profile(3, None, None) },
        UserInfoEvent::LoansListed(Err(LoanError::DbError(DbFailure::Other { text: String::from("x") }))),
    );
    match a {
        UserInfoAction::Reply(Err(r)) => {
            assert_eq!((r.status, r.message.as_str()), (500, "There was an error while executing a database query"))
        },
        _ => panic!(),
    }
}

#[test]
fn change_pwd_hashing_step() {
    let state = ChangePwdState::AwaitHash { usuario: user("ana", "nueva") };
    let (s, a) = changePwdWithSalt(state, Usuario::newSalt());
    assert!(matches!(s, ChangePwdState::AwaitUpdate));
    match a {
        ChangePwdAction::UpdateUser(u) => {
            let mut check = user("ana", "nueva");
            assert_eq!(check.validatePwd(u.contrasenna.clone()).unwrap(), true);
            check.contrasenna = String::from("otra");
            assert_eq!(check.validatePwd(u.contrasenna).unwrap(), false);
        },
        _ => panic!(),
    }
}
