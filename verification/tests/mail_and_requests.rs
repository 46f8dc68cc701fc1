use loanme_webapi::misc::{generateRnd, Moment};
use loanme_webapi::auth::{isPublicPath, validationLayer, GuardAction, GuardEvent, GuardState};
use loanme_webapi::errors::{DbFailure, RedisFailure};
use loanme_webapi::login::{login, loginWithCheck, LoginAction, LoginEvent, LoginState};
use loanme_webapi::mail::{mailLookup, mailRejection, Mail, MailError, MailKind};
use loanme_webapi::perfil_crediticio::PerfilCrediticio;
use loanme_webapi::register::{register, registerWithSalt, RegisterAction, RegisterEvent, RegisterState};
use loanme_webapi::session::Session;
use loanme_webapi::usuario::{TipoUsuario, UserError, Usuario};

fn user(name: &str, email: &str) -> Usuario {
    Usuario {
        id: 1,
        email: String::from(email),
        nombrecompleto: String::from("Ana Diaz"),
        nombreusuario: String::from(name),
        contrasenna: String::from("secreto"),
        idwallet: None,
        tipousuario: Some(TipoUsuario::Prestatario),
        habilitado: true,
    }
}

#[test]
fn mail_lookup_names() {
    let (k, key) = mailLookup("confirmationId", "AB").unwrap();
    assert_eq!((k, key.as_str()), (MailKind::SignupConfirm, "confirmationIdAB"));
    let (k, key) = mailLookup("restoreId", "AB").unwrap();
    assert_eq!((k, key.as_str()), (MailKind::PwdRestore, "restoreIdAB"));
    assert!(mailLookup("other", "AB").is_none());
}

#[test]
fn saved_mail_is_found_under_its_key() {
    let mut m = Mail::SignupConfirm(user("ana", "ana@example.com"), String::new());
    let (key, ttl) = m.save().unwrap();
    let id = match &m {
        Mail::SignupConfirm(_, id) => id.clone(),
        _ => unreachable!(),
    };
    assert_eq!(id.len(), 56);
    assert_eq!(ttl, 3600);
    let (kind, lookup_key) = mailLookup("confirmationId", &id).unwrap();
    assert_eq!(lookup_key, key);
    match Mail::get(kind, user("ana", "ana@example.com"), &id) {
        Mail::SignupConfirm(u, found) => {
            assert_eq!(u.nombreusuario, "ana");
            assert_eq!(found, id);
        },
        _ => panic!("wrong kind"),
    }
    let mut r = Mail::PwdRestore(user("ana", "a@b.c"), String::new());
    let (key, ttl) = r.save().unwrap();
    assert!(key.starts_with("restoreId"));
    assert_eq!(ttl, 900);
    let mut t = Mail::Test;
    assert!(t.save().is_none());
}

#[test]
fn mail_content_and_envelope() {
    let m = Mail::PwdRestore(user("ana", "ana@example.com"), String::from("ID42"));
    let (to, subject, body) = m.content().unwrap();
    assert_eq!(to, "Ana Diaz <ana@example.com>");
    assert_eq!(subject, "Restore pwd");
    assert_eq!(body, "ID42");
    let env = m.prepare().unwrap();
    assert_eq!(env.to.mailbox().email.to_string(), "ana@example.com");
    assert_eq!(env.from.mailbox().email.to_string(), "no-reply@loanMe.com");
    assert_eq!(env.body, "ID42");
    assert_eq!(env.to.text(), "Ana Diaz <ana@example.com>");
    assert_eq!(env.from.text(), "loanMe <no-reply@loanMe.com>");
    let m = Mail::SignupConfirm(user("ana", "ana@example.com"), String::from("X"));
    assert_eq!(m.content().unwrap().1, "Confirm your signup in order to use your account");
    let bad = Mail::SignupConfirm(user("ana", "not-an-address"), String::from("X"));
    assert!(matches!(bad.prepare(), Err(MailError::AddressError(_))));
    assert!(matches!(Mail::Test.prepare(), Err(MailError::Test)));
    assert!(matches!(Mail::Test.content(), Err(MailError::Test)));
}

#[test]
fn mail_error_answers() {
    let r = mailRejection(&MailError::Test);
    assert_eq!((r.status, r.message.as_str()), (204, "test"));
    assert_eq!(MailError::Test.message(), "Email service test.");
    let bad = Mail::SignupConfirm(user("ana", "nope"), String::from("X")).prepare().unwrap_err();
    assert_eq!(mailRejection(&bad).status, 500);
    assert_eq!(bad.message(), "There was an error while parsing the email address");
}

#[test]
fn public_paths() {
    assert!(isPublicPath("/auth/register"));
    assert!(isPublicPath("/auth/login"));
    assert!(isPublicPath("/auth/confirmUser/ABC"));
    assert!(isPublicPath("/profile/requestRestorePwd"));
    assert!(isPublicPath("/profile/restorePwd/XYZ"));
    assert!(!isPublicPath("/auth/logout"));
    assert!(!isPublicPath("/loans/getLoanOffers"));
}

fn request(path: &str, auth: Option<&str>) -> GuardEvent {
    GuardEvent::Request { path: String::from(path), authorization: auth.map(String::from) }
}

#[test]
fn guard_forwards_public_paths() {
    let (s, a) = validationLayer(GuardState::Start, request("/auth/login", None));
    assert!(matches!(s, GuardState::Finished));
    assert!(matches!(a, GuardAction::Forward));
}

#[test]
fn guard_refuses_missing_or_unknown_sessions() {
    let (_, a) = validationLayer(GuardState::Start, request("/loans/x", None));
    match a {
        GuardAction::Reject(r) => assert_eq!((r.status, r.message.as_str()), (400, "AUTHORIZATION Header is empty")),
        _ => panic!(),
    }
    let (s, a) = validationLayer(GuardState::Start, request("/loans/x", Some("S1")));
    match &a {
        GuardAction::CheckSession(k) => assert_eq!(k, "sessionIdS1"),
        _ => panic!(),
    }
    let (_, a) = validationLayer(s, GuardEvent::SessionExists(false));
    match a {
        GuardAction::Reject(r) => assert_eq!((r.status, r.message.as_str()), (401, "AUTHORIZATION Header is invalid")),
        _ => panic!(),
    }
}

#[test]
fn guard_checks_the_session_lifetime() {
    let ttl_state = || GuardState::AwaitTtl { sessionId: String::from("S1") };
    let (_, a) = validationLayer(ttl_state(), GuardEvent::Ttl(Ok(0)));
    match a {
        GuardAction::Reject(r) => assert_eq!((r.status, r.message.as_str()), (401, "Session has already expired")),
        _ => panic!(),
    }
    let failure = RedisFailure { kind: String::from("IoError"), detail: None };
    let (_, a) = validationLayer(ttl_state(), GuardEvent::Ttl(Err(failure)));
    match a {
        GuardAction::Reject(r) => {
            assert_eq!((r.status, r.message.as_str()), (500, "Redis error IoError\nno further detail was provided"))
        },
        _ => panic!(),
    }
}

#[test]
fn guard_renews_a_live_session_and_forwards() {
    let (s, _) = validationLayer(GuardState::Start, request("/profile/getUserInfo", Some("S1")));
    let (s, _) = validationLayer(s, GuardEvent::SessionExists(true));
    let (s, a) = validationLayer(s, GuardEvent::Ttl(Ok(120)));
    match &a {
        GuardAction::FetchUser(k) => assert_eq!(k, "sessionIdS1"),
        _ => panic!(),
    }
    let (s, a) = validationLayer(s, GuardEvent::SessionUser(String::from("ana")));
    match &a {
        GuardAction::Refresh(session) => assert_eq!((session.username.as_str(), session.id.as_str()), ("ana", "S1")),
        _ => panic!(),
    }
    let (s, a) = validationLayer(s, GuardEvent::Refreshed);
    assert!(matches!(s, GuardState::Finished));
    assert!(matches!(a, GuardAction::Forward));
}

fn login_reply(a: LoginAction) -> Result<Session, (u16, String)> {
    match a {
        LoginAction::Reply(r) => r.map_err(|e| (e.status, e.message)),
        other => panic!("not a reply: {:?}", other),
    }
}

#[test]
fn login_with_an_open_session() {
    let (s, a) = login(LoginState::Start, LoginEvent::Begin(user("ana", "a@b.c")));
    assert!(matches!(&a, LoginAction::LookupUser(n) if n == "ana"));
    let stored = user("ana", "a@b.c").hashedWith(&Usuario::newSalt());
    let phc_stored = stored.contrasenna.clone();
    let (s, a) = login(s, LoginEvent::UserFound(Ok(stored)));
    match &a {
        LoginAction::CheckPassword { candidate, phc } => {
            assert_eq!(candidate.contrasenna, "secreto");
            assert_eq!(phc, &phc_stored);
        },
        _ => panic!(),
    }
    let (s, a) = loginWithCheck(s);
    assert!(matches!(&a, LoginAction::CheckActiveSession(k) if k == "sessionUserana"));
    let (s, a) = login(s, LoginEvent::ActiveSession(true));
    assert!(matches!(&a, LoginAction::FetchSessionId(k) if k == "sessionUserana"));
    let (s, a) = login(s, LoginEvent::OldSessionId(String::from("OLD")));
    assert!(matches!(&a, LoginAction::DeleteSession(o) if o.id == "OLD" && o.username == "ana"));
    let (s, a) = login(s, LoginEvent::OldSessionDeleted(Ok(())));
    assert!(matches!(&a, LoginAction::MakeSession(n) if n == "ana"));
    let id = generateRnd(64);
    let (s, a) = login(s, LoginEvent::SessionMade { id: id.clone(), now: Moment { secs: 1_700_000_000, nanos: 250_000_000 } });
    assert!(matches!(&a, LoginAction::StoreSession(x)
        if x.id == id && x.username == "ana" && x.creationDate == Some(Moment { secs: 1_700_000_000, nanos: 250_000_000 })));
    let (s, a) = login(s, LoginEvent::SessionStored(Ok(())));
    assert!(matches!(s, LoginState::Finished));
    let out = login_reply(a).unwrap();
    assert_eq!((out.id, out.username, out.creationDate), (id, String::from("ana"), Some(Moment { secs: 1_700_000_000, nanos: 250_000_000 })));
}

#[test]
fn login_refusals() {
    let (_, a) = login(
        LoginState::AwaitUser { payload: user("ana", "a@b.c") },
        LoginEvent::UserFound(Err(UserError::DbError(DbFailure::RowNotFound { text: String::new() }))),
    );
    assert_eq!(login_reply(a).unwrap_err(), (400, String::from("User does not exist")));
    let mut disabled = user("ana", "a@b.c");
    disabled.habilitado = false;
    let (_, a) = login(LoginState::AwaitUser { payload: user("ana", "a@b.c") }, LoginEvent::UserFound(Ok(disabled)));
    assert_eq!(login_reply(a).unwrap_err(), (403, String::from("User should confirm their email before logging in")));
    let phc = user("ana", "a@b.c").hashedWith(&Usuario::newSalt()).contrasenna;
    let mut wrong = user("ana", "a@b.c");
    wrong.contrasenna = String::from("otra");
    let (_, a) = loginWithCheck(LoginState::AwaitPwd { username: String::from("ana"), candidate: wrong, phc });
    assert_eq!(login_reply(a).unwrap_err(), (401, String::from("Wrong password")));
    let (_, a) = loginWithCheck(LoginState::AwaitPwd {
        username: String::from("ana"),
        candidate: user("ana", "a@b.c"),
        phc: String::from("not a phc string"),
    });
    assert_eq!(login_reply(a).unwrap_err().0, 500);
    let (s, a) = login(LoginState::AwaitActive { username: String::from("ana") }, LoginEvent::ActiveSession(false));
    assert!(matches!(&a, LoginAction::MakeSession(n) if n == "ana"));
    assert!(matches!(s, LoginState::AwaitNew { .. }));
    let failure = RedisFailure { kind: String::from("IoError"), detail: Some(String::from("gone")) };
    let (_, a) = login(LoginState::AwaitDelete { username: String::from("ana") }, LoginEvent::OldSessionDeleted(Err(failure)));
    assert_eq!(login_reply(a).unwrap_err(), (500, String::from("IoError: gone")));
}

fn profile() -> PerfilCrediticio {
    PerfilCrediticio {
        id: 0,
        fkUsuario: 0,
        dni: String::from("1"),
        historialCrediticio: None,
        extractoBancario: None,
        comprobanteDeIngreso: None,
        descripcionFinanciera: None,
    }
}

fn register_reply(a: RegisterAction) -> Result<String, (u16, String)> {
    match a {
        RegisterAction::Reply(r) => r.map_err(|e| (e.status, e.message)),
        other => panic!("not a reply: {:?}", other),
    }
}

#[test]
fn registration_walkthrough() {
    let (s, a) = register(RegisterState::Start, RegisterEvent::Begin { usuario: user("ana", "a@b.c"), perfil: Some(profile()) });
    assert!(matches!(&a, RegisterAction::HashPassword(u) if u.contrasenna == "secreto"));
    let salt = Usuario::newSalt();
    assert_eq!(salt.len(), 22);
    let (s, a) = registerWithSalt(s, salt);
    match &a {
        RegisterAction::CreateUser(c) => {
            assert!(c.contrasenna.starts_with("$argon2"));
            let mut check = c.clone();
            check.contrasenna = String::from("secreto");
            assert_eq!(check.validatePwd(c.contrasenna.clone()).unwrap(), true);
        },
        _ => panic!(),
    }
    let (s, a) = register(s, RegisterEvent::UserCreated(Ok(1)));
    assert!(matches!(&a, RegisterAction::FetchUserId(n) if n == "ana"));
    let (s, a) = register(s, RegisterEvent::UserIdFound(77));
    assert!(matches!(&a, RegisterAction::SaveProfile(p) if p.fkUsuario == 77));
    let (s, a) = register(s, RegisterEvent::ProfileSaved(Ok(1)));
    assert!(matches!(a, RegisterAction::MakeMailId));
    let id = generateRnd(64);
    let (s, a) = register(s, RegisterEvent::MailIdMade(id.clone()));
    match &a {
        RegisterAction::StoreUser { key, usuario, ttl } => {
            assert_eq!(key, &format!("confirmationId{}", id));
            assert!(usuario.nombreusuario == "ana" && usuario.contrasenna.starts_with("$argon2"));
            assert_eq!(*ttl, 3600);
        },
        _ => panic!(),
    }
    let (s, a) = register(s, RegisterEvent::MailStored(Ok(())));
    assert!(matches!(&a, RegisterAction::SendMail(Mail::SignupConfirm(u, sent)) if *sent == id && u.nombreusuario == "ana"));
    let (s, a) = register(s, RegisterEvent::MailSent(Ok(())));
    assert!(matches!(s, RegisterState::Finished));
    assert_eq!(register_reply(a).unwrap(), "Done");
}

#[test]
fn registration_refusals() {
    let (_, a) = register(RegisterState::Start, RegisterEvent::Begin { usuario: user("ana", "a@b.c"), perfil: None });
    assert_eq!(register_reply(a).unwrap_err(), (400, String::from("Credit history has to be provided")));
    let mut no_kind = user("ana", "a@b.c");
    no_kind.tipousuario = None;
    let (_, a) = register(RegisterState::Start, RegisterEvent::Begin { usuario: no_kind, perfil: Some(profile()) });
    assert_eq!(register_reply(a).unwrap_err(), (400, String::from("Field TipoUsuario has to be provided.")));
    let creating = || RegisterState::AwaitCreate { usuario: user("ana", "a@b.c"), perfil: profile() };
    let taken = UserError::DbError(DbFailure::Database {
        message: String::from("duplicate key value"),
        text: String::from("error returned from database: duplicate key value"),
    });
    let (_, a) = register(creating(), RegisterEvent::UserCreated(Err(taken)));
    assert_eq!(register_reply(a).unwrap_err(), (400, String::from("duplicate key value")));
    let (_, a) = register(creating(), RegisterEvent::UserCreated(Ok(0)));
    assert_eq!(register_reply(a).unwrap_err(), (400, String::from("There was an error while creating the user")));
    let (_, a) = register(creating(), RegisterEvent::UserCreated(Err(UserError::MultithreadError)));
    assert_eq!(register_reply(a).unwrap_err(), (500, String::from("There was an error while creating the user")));
}

#[test]
fn registration_rolls_back_a_profile_failure() {
    let (s, a) = register(RegisterState::AwaitProfile { usuario: user("ana", "a@b.c") }, RegisterEvent::ProfileSaved(Ok(0)));
    assert!(matches!(&a, RegisterAction::DeleteUser(u) if u.nombreusuario == "ana"));
    let (_, a) = register(s, RegisterEvent::UserDeleted);
    assert_eq!(register_reply(a).unwrap_err(), (400, String::from("There was an error while creating the user")));
    let (s, _) = register(RegisterState::AwaitProfile { usuario: user("ana", "a@b.c") }, RegisterEvent::ProfileSaved(Ok(3)));
    let (_, a) = register(s, RegisterEvent::UserDeleted);
    assert_eq!(register_reply(a).unwrap_err(), (500, String::from("This should not have happened.")));
    let (_, a) = register(RegisterState::AwaitMailStore { usuario: user("ana", "a@b.c"), id: String::from("AB") }, RegisterEvent::MailStored(Err(RedisFailure { kind: String::new(), detail: None })));
    assert_eq!(
        register_reply(a).unwrap_err(),
        (500, String::from("There was an error while saving your data. Contact us for further information"))
    );
    let (_, a) = register(RegisterState::AwaitSend, RegisterEvent::MailSent(Err(MailError::Test)));
    assert_eq!(register_reply(a).unwrap_err(), (500, String::from("Email service test.")));
}
