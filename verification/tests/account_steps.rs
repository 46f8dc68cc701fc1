use loanme_webapi::accounts::{
    confirmUser, restorePwd, restorePwdWithSalt, ConfirmAction, ConfirmEvent, ConfirmState, RestoreAction, RestoreEvent,
    RestoreState,
};
use loanme_webapi::errors::{DbFailure, RedisFailure};
use loanme_webapi::usuario::{TipoUsuario, UserError, Usuario};

fn kept(pwd: &str) -> Usuario {
    Usuario {
        id: 3,
        email: String::from("eva@example.com"),
        nombrecompleto: String::from("Eva Ruiz"),
        nombreusuario: String::from("eva"),
        contrasenna: String::from(pwd),
        idwallet: Some(String::from("wallet-1")),
        tipousuario: Some(TipoUsuario::Prestatario),
        habilitado: false,
    }
}

fn same_but_password(a: &Usuario, b: &Usuario) -> bool {
    a.id == b.id
        && a.email == b.email
        && a.nombrecompleto == b.nombrecompleto
        && a.nombreusuario == b.nombreusuario
        && a.idwallet == b.idwallet
        && a.habilitado == b.habilitado
}

#[test]
fn confirm_takes_the_confirmation_key() {
    let (s, a) = confirmUser(ConfirmState::Start, ConfirmEvent::Begin(String::from("ABC123")));
    assert!(matches!(s, ConfirmState::AwaitUser));
    match a {
        ConfirmAction::TakeUser(k) => assert_eq!(k, "confirmationIdABC123"),
        _ => panic!(),
    }
}

#[test]
fn confirm_enables_the_kept_account() {
    let (s, a) = confirmUser(ConfirmState::AwaitUser, ConfirmEvent::UserTaken(Ok(kept("$argon2id$x"))));
    assert!(matches!(s, ConfirmState::AwaitEnable));
    match a {
        ConfirmAction::EnableUser(u) => {
            assert_eq!(u.nombreusuario, "eva");
            assert_eq!(u.contrasenna, "$argon2id$x");
        },
        _ => panic!(),
    }
    let (s, a) = confirmUser(ConfirmState::AwaitEnable, ConfirmEvent::Enabled(Ok(1)));
    assert!(matches!(s, ConfirmState::Finished));
    match a {
        ConfirmAction::Reply(r) => assert_eq!(r.unwrap(), "User has been enabled"),
        _ => panic!(),
    }
}

#[test]
fn confirm_failures() {
    let failure = RedisFailure { kind: String::from("TypeError"), detail: Some(String::from("nil")) };
    match confirmUser(ConfirmState::AwaitUser, ConfirmEvent::UserTaken(Err(failure))).1 {
        ConfirmAction::Reply(r) => {
            let e = r.unwrap_err();
            assert_eq!((e.status, e.message.as_str()), (500, "TypeError: nil"));
        },
        _ => panic!(),
    }
    let db = UserError::DbError(DbFailure::Other { text: String::from("down") });
    match confirmUser(ConfirmState::AwaitEnable, ConfirmEvent::Enabled(Err(db))).1 {
        ConfirmAction::Reply(r) => {
            let e = r.unwrap_err();
            assert_eq!(
                (e.status, e.message.as_str()),
                (500, "There has been an error while activating the user. Contact us for further information")
            );
        },
        _ => panic!(),
    }
}

#[test]
fn restore_takes_the_restore_key_and_hashes_the_new_password() {
    let (s, a) = restorePwd(
        RestoreState::Start,
        RestoreEvent::Begin { restoreId: String::from("XYZ"), newPwd: String::from("nueva-clave") },
    );
    match a {
        RestoreAction::TakeUser(k) => assert_eq!(k, "restoreIdXYZ"),
        _ => panic!(),
    }
    let (s, a) = restorePwd(s, RestoreEvent::UserTaken(Ok(kept("$argon2id$old"))));
    match &a {
        RestoreAction::HashPassword(u) => {
            assert_eq!(u.contrasenna, "nueva-clave");
            assert!(same_but_password(u, &kept("")));
        },
        _ => panic!(),
    }
    let (s, a) = restorePwdWithSalt(s, Usuario::newSalt());
    assert!(matches!(s, RestoreState::AwaitUpdate));
    match a {
        RestoreAction::UpdateUser(u) => {
            assert!(u.contrasenna.starts_with("$argon2id$"));
            assert!(same_but_password(&u, &kept("")));
            assert_eq!(kept("nueva-clave").validatePwd(u.contrasenna.clone()).unwrap(), true);
            assert_eq!(kept("otra").validatePwd(u.contrasenna).unwrap(), false);
        },
        _ => panic!(),
    }
    match restorePwd(s, RestoreEvent::Updated(Ok(1))).1 {
        RestoreAction::Reply(r) => assert_eq!(r.unwrap(), "Password has been updated"),
        _ => panic!(),
    }
}

#[test]
fn restore_failures() {
    let failure = RedisFailure { kind: String::from("ResponseError"), detail: None };
    match restorePwd(RestoreState::AwaitUser { newPwd: String::from("x") }, RestoreEvent::UserTaken(Err(failure))).1 {
        RestoreAction::Reply(r) => {
            let e = r.unwrap_err();
            assert_eq!((e.status, e.message.as_str()), (500, "ResponseError: No further detail provided"));
        },
        _ => panic!(),
    }
    match restorePwd(RestoreState::AwaitUpdate, RestoreEvent::Updated(Err(UserError::MultithreadError))).1 {
        RestoreAction::Reply(r) => {
            let e = r.unwrap_err();
            assert_eq!(
                (e.status, e.message.as_str()),
                (500, "There has been an error while activating the user. Contact us for further information")
            );
        },
        _ => panic!(),
    }
}
