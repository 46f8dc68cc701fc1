//! The profile handlers that run in several steps: changing the password,
//! changing the credit data, and asking for a password restore.
use vstd::prelude::*;
use crate::misc::is_random_id;
use crate::errors::{redisRejection, redis_failure_text, DbFailure, RedisFailure, Rejection, BAD_REQUEST, INTERNAL_SERVER_ERROR, UNAUTHORIZED};
use crate::mail::{Mail, MailError};
use crate::perfil_crediticio::{creditLookupRejection, creditUpdateOutcome, profile_changed, PerfilCrediticio};
use crate::redis_server::{restoreKey, restore_prefix, sessionIdKey, session_id_prefix, DEFAULT_PWDRESTORE_EXPIRATION};
use crate::usuario::{
    hashed_with, pwd_check,
    checkPasswordOutcome, password_check_rejection, userLookupRejection, userUpdateOutcome, user_lookup_rejection, UserError,
    Usuario,
};

verus! {

/// Where a password change stands.
#[derive(Debug)]
pub enum ChangePwdState {
    Start,
    /// Waiting for the stored account of the user in `payload`.
    AwaitUser { payload: Usuario, hasNewPwd: bool },
    /// Waiting for the check of the current password against `usuario`.
    AwaitPwd { usuario: Usuario, candidate: Usuario, hasNewPwd: bool },
    /// Waiting for the new password of `usuario`.
    AwaitNewPwd { usuario: Usuario },
    /// Waiting for the new password of `usuario`, in its password field, to
    /// be hashed.
    AwaitHash { usuario: Usuario },
    /// Waiting for the account to be updated.
    AwaitUpdate,
    Finished,
}

/// What a password change learns.
#[derive(Debug)]
pub enum ChangePwdEvent {
    /// The request: user name and current password, and whether a new
    /// password is given.
    Begin { payload: Usuario, hasNewPwd: bool },
    UserFound(Result<Usuario, UserError>),
    PasswordChecked(Result<bool, UserError>),
    /// The new password as given.
    NewPassword(String),
    /// The salt drawn for the new password, and the account hashed with it
    /// (`Usuario::hashedWith`).
    Hashed { salt: String, usuario: Usuario },
    Updated(Result<u64, UserError>),
}

/// What a password change asks for next.
#[derive(Debug)]
pub enum ChangePwdAction {
    LookupUser(String),
    CheckPassword { candidate: Usuario, phc: String },
    ReadNewPassword,
    HashPassword(Usuario),
    UpdateUser(Usuario),
    Reply(Result<String, Rejection>),
}

/// An action, with its texts as sequences.
pub enum ChangePwdActionView {
    LookupUser(Seq<char>),
    CheckPassword(Usuario, Seq<char>),
    ReadNewPassword,
    HashPassword(Usuario),
    UpdateUser(Usuario),
    Reply(Result<Seq<char>, (u16, Seq<char>)>),
}

impl View for ChangePwdAction {
    type V = ChangePwdActionView;

    open spec fn view(&self) -> ChangePwdActionView {
        match self {
            ChangePwdAction::LookupUser(n) => ChangePwdActionView::LookupUser(n@),
            ChangePwdAction::CheckPassword { candidate, phc } => ChangePwdActionView::CheckPassword(*candidate, phc@),
            ChangePwdAction::ReadNewPassword => ChangePwdActionView::ReadNewPassword,
            ChangePwdAction::HashPassword(u) => ChangePwdActionView::HashPassword(*u),
            ChangePwdAction::UpdateUser(u) => ChangePwdActionView::UpdateUser(*u),
            ChangePwdAction::Reply(r) => ChangePwdActionView::Reply(
                match r {
                    Ok(s) => Ok(s@),
                    Err(e) => Err(e@),
                },
            ),
        }
    }
}

/// Whether an event is one the password change waits for in a state.
pub open spec fn change_pwd_fits(s: ChangePwdState, e: ChangePwdEvent) -> bool {
    match (s, e) {
        (ChangePwdState::Start, ChangePwdEvent::Begin { .. }) => true,
        (ChangePwdState::AwaitUser { .. }, ChangePwdEvent::UserFound(_)) => true,
        (ChangePwdState::AwaitPwd { usuario, candidate, .. }, ChangePwdEvent::PasswordChecked(r)) => r == pwd_check(
            candidate.contrasenna@,
            usuario.contrasenna@,
        ),
        (ChangePwdState::AwaitNewPwd { .. }, ChangePwdEvent::NewPassword(_)) => true,
        (ChangePwdState::AwaitHash { usuario }, ChangePwdEvent::Hashed { salt, usuario: hashed }) => hashed_with(
            usuario,
            salt@,
            hashed,
        ),
        (ChangePwdState::AwaitUpdate, ChangePwdEvent::Updated(_)) => true,
        _ => false,
    }
}

/// The answer to the update of an account whose password changed.
pub open spec fn pwd_update_reply(r: Result<u64, UserError>) -> Result<Seq<char>, (u16, Seq<char>)> {
    match r {
        Ok(_) => Ok("DONE"@),
        Err(UserError::MultithreadError) => Err((INTERNAL_SERVER_ERROR, "Thread failed to execute task until completion"@)),
        Err(UserError::DbError(_)) => Err((INTERNAL_SERVER_ERROR, "There was an error while executing a database query"@)),
    }
}

/// One step of a password change. The account is looked up by name and the
/// current password checked against it; only then is the new password
/// required (400 without it), hashed and stored.
pub open spec fn change_pwd_step(s: ChangePwdState, e: ChangePwdEvent) -> (ChangePwdState, ChangePwdActionView) {
    match (s, e) {
        (ChangePwdState::Start, ChangePwdEvent::Begin { payload, hasNewPwd }) => (
            ChangePwdState::AwaitUser { payload, hasNewPwd },
            ChangePwdActionView::LookupUser(payload.nombreusuario@),
        ),
        (ChangePwdState::AwaitUser { payload, hasNewPwd }, ChangePwdEvent::UserFound(r)) => match r {
            Err(e) => (ChangePwdState::Finished, ChangePwdActionView::Reply(Err(user_lookup_rejection(e)))),
            Ok(u) => (
                ChangePwdState::AwaitPwd { usuario: u, candidate: payload, hasNewPwd },
                ChangePwdActionView::CheckPassword(payload, u.contrasenna@),
            ),
        },
        (ChangePwdState::AwaitPwd { usuario, hasNewPwd, .. }, ChangePwdEvent::PasswordChecked(r)) => match password_check_rejection(r) {
            Some(rej) => (ChangePwdState::Finished, ChangePwdActionView::Reply(Err(rej))),
            None => if !hasNewPwd {
                (ChangePwdState::Finished, ChangePwdActionView::Reply(Err((BAD_REQUEST, "new password has to be provided"@))))
            } else {
                (ChangePwdState::AwaitNewPwd { usuario }, ChangePwdActionView::ReadNewPassword)
            },
        },
        (ChangePwdState::AwaitNewPwd { usuario }, ChangePwdEvent::NewPassword(p)) => (
            ChangePwdState::AwaitHash { usuario: usuario.with_contrasenna(p) },
            ChangePwdActionView::HashPassword(usuario.with_contrasenna(p)),
        ),
        (ChangePwdState::AwaitHash { .. }, ChangePwdEvent::Hashed { usuario, .. }) => (
            ChangePwdState::AwaitUpdate,
            ChangePwdActionView::UpdateUser(usuario),
        ),
        (ChangePwdState::AwaitUpdate, ChangePwdEvent::Updated(r)) => (
            ChangePwdState::Finished,
            ChangePwdActionView::Reply(pwd_update_reply(r)),
        ),
        _ => (ChangePwdState::Finished, ChangePwdActionView::Reply(Err((INTERNAL_SERVER_ERROR, Seq::empty())))),
    }
}

/// One step of changing a password: the decisions of the `changePwd` handler.
pub fn changePwd(state: ChangePwdState, event: ChangePwdEvent) -> (res: (ChangePwdState, ChangePwdAction))
    requires
        change_pwd_fits(state, event),
    ensures
        (res.0, res.1@) == change_pwd_step(state, event),
{
    match (state, event) {
        (ChangePwdState::Start, ChangePwdEvent::Begin { payload, hasNewPwd }) => {
            let name = payload.nombreusuario.clone();
            (ChangePwdState::AwaitUser { payload, hasNewPwd }, ChangePwdAction::LookupUser(name))
        },
        (ChangePwdState::AwaitUser { payload, hasNewPwd }, ChangePwdEvent::UserFound(r)) => match r {
            Err(e) => (ChangePwdState::Finished, ChangePwdAction::Reply(Err(userLookupRejection(&e)))),
            Ok(u) => {
                let phc = u.contrasenna.clone();
                let asked = payload.clone();
                (
                    ChangePwdState::AwaitPwd { usuario: u, candidate: payload, hasNewPwd },
                    ChangePwdAction::CheckPassword { candidate: asked, phc },
                )
            },
        },
        (ChangePwdState::AwaitPwd { usuario, hasNewPwd, .. }, ChangePwdEvent::PasswordChecked(r)) => {
            match checkPasswordOutcome(&r) {
                Err(rej) => (ChangePwdState::Finished, ChangePwdAction::Reply(Err(rej))),
                Ok(()) => {
                    if !hasNewPwd {
                        (
                            ChangePwdState::Finished,
                            ChangePwdAction::Reply(Err(Rejection::new(BAD_REQUEST, "new password has to be provided"))),
                        )
                    } else {
                        (ChangePwdState::AwaitNewPwd { usuario }, ChangePwdAction::ReadNewPassword)
                    }
                },
            }
        },
        (ChangePwdState::AwaitNewPwd { usuario }, ChangePwdEvent::NewPassword(p)) => {
            let mut usuario = usuario;
            usuario.contrasenna = p;
            let asked = usuario.clone();
            (ChangePwdState::AwaitHash { usuario }, ChangePwdAction::HashPassword(asked))
        },
        (ChangePwdState::AwaitHash { .. }, ChangePwdEvent::Hashed { usuario, .. }) => (
            ChangePwdState::AwaitUpdate,
            ChangePwdAction::UpdateUser(usuario),
        ),
        (ChangePwdState::AwaitUpdate, ChangePwdEvent::Updated(r)) => {
            (ChangePwdState::Finished, ChangePwdAction::Reply(userUpdateOutcome(&r, "DONE")))
        },
        (_, _) => (
            ChangePwdState::Finished,
            ChangePwdAction::Reply(Err(Rejection { status: INTERNAL_SERVER_ERROR, message: String::new() })),
        ),
    }
}

/// The password check of a password change: checks the given password
/// against the stored hash (`Usuario::validatePwd`) and takes the
/// `PasswordChecked` event.
pub fn changePwdWithCheck(state: ChangePwdState) -> (res: (ChangePwdState, ChangePwdAction))
    requires
        state is AwaitPwd,
    ensures
        (res.0, res.1@) == change_pwd_step(
            state,
            ChangePwdEvent::PasswordChecked(
                pwd_check(state->AwaitPwd_candidate.contrasenna@, state->AwaitPwd_usuario.contrasenna@),
            ),
        ),
{
    match state {
        ChangePwdState::AwaitPwd { usuario, candidate, hasNewPwd } => {
            let r = candidate.validatePwd(usuario.contrasenna.clone());
            changePwd(ChangePwdState::AwaitPwd { usuario, candidate, hasNewPwd }, ChangePwdEvent::PasswordChecked(r))
        },
        _ => {
            assert(false);
            (ChangePwdState::Finished, ChangePwdAction::ReadNewPassword)
        },
    }
}

/// The hashing step of a password change: hashes the new password with
/// `salt` (`Usuario::hashedWith`) and takes the `Hashed` event.
pub fn changePwdWithSalt(state: ChangePwdState, salt: String) -> (res: (ChangePwdState, ChangePwdAction))
    requires
        state is AwaitHash,
    ensures
        exists|u: Usuario|
            hashed_with(state->AwaitHash_usuario, salt@, u) && (res.0, res.1@) == #[trigger] change_pwd_step(
                state,
                ChangePwdEvent::Hashed { salt, usuario: u },
            ),
{
    let ghost s0 = state;
    match state {
        ChangePwdState::AwaitHash { usuario } => {
            let hashed = usuario.hashedWith(salt.as_str());
            let ghost h = hashed;
            let res = changePwd(ChangePwdState::AwaitHash { usuario }, ChangePwdEvent::Hashed { salt, usuario: hashed });
            assert(hashed_with(s0->AwaitHash_usuario, salt@, h));
            res
        },
        _ => {
            assert(false);
            (ChangePwdState::Finished, ChangePwdAction::ReadNewPassword)
        },
    }
}

/// Where a change of credit data stands.
#[derive(Debug)]
pub enum ChangeCreditState {
    Start,
    /// Waiting for the user name of the session.
    AwaitSessionUser { change: PerfilCrediticio },
    /// Waiting for the account of the session's user.
    AwaitUser { change: PerfilCrediticio },
    /// Waiting for the stored credit profile of the account.
    AwaitCredit { change: PerfilCrediticio },
    /// Waiting for the profile to be updated.
    AwaitUpdate,
    Finished,
}

/// What a change of credit data learns.
#[derive(Debug)]
pub enum ChangeCreditEvent {
    /// The request: the new credit data, if given, and the session id.
    Begin { perfil: Option<PerfilCrediticio>, sessionId: String },
    SessionUser(Result<String, RedisFailure>),
    UserFound(Result<Usuario, UserError>),
    CreditFound(Result<PerfilCrediticio, DbFailure>),
    Updated(Result<u64, DbFailure>),
}

/// What a change of credit data asks for next.
#[derive(Debug)]
pub enum ChangeCreditAction {
    /// Read this key.
    FetchSessionUser(String),
    LookupUser(String),
    /// Read the credit profile of the account with this id.
    FetchCredit(i64),
    UpdateCredit(PerfilCrediticio),
    Reply(Result<String, Rejection>),
}

/// An action, with its texts as sequences.
pub enum ChangeCreditActionView {
    FetchSessionUser(Seq<char>),
    LookupUser(Seq<char>),
    FetchCredit(i64),
    UpdateCredit(PerfilCrediticio),
    Reply(Result<Seq<char>, (u16, Seq<char>)>),
}

impl View for ChangeCreditAction {
    type V = ChangeCreditActionView;

    open spec fn view(&self) -> ChangeCreditActionView {
        match self {
            ChangeCreditAction::FetchSessionUser(k) => ChangeCreditActionView::FetchSessionUser(k@),
            ChangeCreditAction::LookupUser(n) => ChangeCreditActionView::LookupUser(n@),
            ChangeCreditAction::FetchCredit(id) => ChangeCreditActionView::FetchCredit(*id),
            ChangeCreditAction::UpdateCredit(p) => ChangeCreditActionView::UpdateCredit(*p),
            ChangeCreditAction::Reply(r) => ChangeCreditActionView::Reply(
                match r {
                    Ok(s) => Ok(s@),
                    Err(e) => Err(e@),
                },
            ),
        }
    }
}

/// Whether an event is one the change of credit data waits for in a state.
pub open spec fn change_credit_fits(s: ChangeCreditState, e: ChangeCreditEvent) -> bool {
    match (s, e) {
        (ChangeCreditState::Start, ChangeCreditEvent::Begin { .. }) => true,
        (ChangeCreditState::AwaitSessionUser { .. }, ChangeCreditEvent::SessionUser(_)) => true,
        (ChangeCreditState::AwaitUser { .. }, ChangeCreditEvent::UserFound(_)) => true,
        (ChangeCreditState::AwaitCredit { .. }, ChangeCreditEvent::CreditFound(_)) => true,
        (ChangeCreditState::AwaitUpdate, ChangeCreditEvent::Updated(_)) => true,
        _ => false,
    }
}

/// The answer to a failed read of a credit profile.
pub open spec fn credit_lookup_rejection(f: DbFailure) -> (u16, Seq<char>) {
    match f {
        DbFailure::RowNotFound { .. } => (BAD_REQUEST, "Credit history does not exist"@),
        _ => (INTERNAL_SERVER_ERROR, f.text_of()),
    }
}

/// The answer to the update of a credit profile.
pub open spec fn credit_update_reply(r: Result<u64, DbFailure>) -> Result<Seq<char>, (u16, Seq<char>)> {
    match r {
        Err(f) => Err((INTERNAL_SERVER_ERROR, f.text_of())),
        Ok(rows) => if rows == 0 {
            Err((BAD_REQUEST, "There was an error while updating the credit data"@))
        } else if rows == 1 {
            Ok("Done"@)
        } else {
            Err((INTERNAL_SERVER_ERROR, "This should not have happened."@))
        },
    }
}

/// One step of a change of credit data. Without new credit data the request
/// is a bad one (400). The session's user and its stored profile are read;
/// the documents the change gives replace the stored ones, and the profile
/// is updated.
pub open spec fn change_credit_step(s: ChangeCreditState, e: ChangeCreditEvent) -> (ChangeCreditState, ChangeCreditActionView) {
    match (s, e) {
        (ChangeCreditState::Start, ChangeCreditEvent::Begin { perfil, sessionId }) => match perfil {
            None => (
                ChangeCreditState::Finished,
                ChangeCreditActionView::Reply(Err((BAD_REQUEST, "New credit data has to be provided"@))),
            ),
            Some(change) => (
                ChangeCreditState::AwaitSessionUser { change },
                ChangeCreditActionView::FetchSessionUser(session_id_prefix() + sessionId@),
            ),
        },
        (ChangeCreditState::AwaitSessionUser { change }, ChangeCreditEvent::SessionUser(r)) => match r {
            Err(f) => (
                ChangeCreditState::Finished,
                ChangeCreditActionView::Reply(Err((INTERNAL_SERVER_ERROR, redis_failure_text(f)))),
            ),
            Ok(name) => (ChangeCreditState::AwaitUser { change }, ChangeCreditActionView::LookupUser(name@)),
        },
        (ChangeCreditState::AwaitUser { change }, ChangeCreditEvent::UserFound(r)) => match r {
            Err(e) => (ChangeCreditState::Finished, ChangeCreditActionView::Reply(Err(user_lookup_rejection(e)))),
            Ok(u) => (ChangeCreditState::AwaitCredit { change }, ChangeCreditActionView::FetchCredit(u.id)),
        },
        (ChangeCreditState::AwaitCredit { change }, ChangeCreditEvent::CreditFound(r)) => match r {
            Err(f) => (ChangeCreditState::Finished, ChangeCreditActionView::Reply(Err(credit_lookup_rejection(f)))),
            Ok(credit) => (
                ChangeCreditState::AwaitUpdate,
                ChangeCreditActionView::UpdateCredit(profile_changed(credit, change)),
            ),
        },
        (ChangeCreditState::AwaitUpdate, ChangeCreditEvent::Updated(r)) => (
            ChangeCreditState::Finished,
            ChangeCreditActionView::Reply(credit_update_reply(r)),
        ),
        _ => (ChangeCreditState::Finished, ChangeCreditActionView::Reply(Err((INTERNAL_SERVER_ERROR, Seq::empty())))),
    }
}

/// One step of changing credit data: the decisions of the `changeCredit` handler.
pub fn changeCredit(state: ChangeCreditState, event: ChangeCreditEvent) -> (res: (ChangeCreditState, ChangeCreditAction))
    requires
        change_credit_fits(state, event),
    ensures
        (res.0, res.1@) == change_credit_step(state, event),
{
    match (state, event) {
        (ChangeCreditState::Start, ChangeCreditEvent::Begin { perfil, sessionId }) => match perfil {
            None => (
                ChangeCreditState::Finished,
                ChangeCreditAction::Reply(Err(Rejection::new(BAD_REQUEST, "New credit data has to be provided"))),
            ),
            Some(change) => {
                let key = sessionIdKey(sessionId.as_str());
                (ChangeCreditState::AwaitSessionUser { change }, ChangeCreditAction::FetchSessionUser(key))
            },
        },
        (ChangeCreditState::AwaitSessionUser { change }, ChangeCreditEvent::SessionUser(r)) => match r {
            Err(f) => (ChangeCreditState::Finished, ChangeCreditAction::Reply(Err(redisRejection(&f)))),
            Ok(name) => (ChangeCreditState::AwaitUser { change }, ChangeCreditAction::LookupUser(name)),
        },
        (ChangeCreditState::AwaitUser { change }, ChangeCreditEvent::UserFound(r)) => match r {
            Err(e) => (ChangeCreditState::Finished, ChangeCreditAction::Reply(Err(userLookupRejection(&e)))),
            Ok(u) => (ChangeCreditState::AwaitCredit { change }, ChangeCreditAction::FetchCredit(u.id)),
        },
        (ChangeCreditState::AwaitCredit { change }, ChangeCreditEvent::CreditFound(r)) => match r {
            Err(f) => (ChangeCreditState::Finished, ChangeCreditAction::Reply(Err(creditLookupRejection(&f)))),
            Ok(credit) => {
                let mut credit = credit;
                credit.applyChanges(&change);
                (ChangeCreditState::AwaitUpdate, ChangeCreditAction::UpdateCredit(credit))
            },
        },
        (ChangeCreditState::AwaitUpdate, ChangeCreditEvent::Updated(r)) => match r {
            Err(f) => (
                ChangeCreditState::Finished,
                ChangeCreditAction::Reply(Err(Rejection { status: INTERNAL_SERVER_ERROR, message: f.text() })),
            ),
            Ok(rows) => (ChangeCreditState::Finished, ChangeCreditAction::Reply(creditUpdateOutcome(rows))),
        },
        (_, _) => (
            ChangeCreditState::Finished,
            ChangeCreditAction::Reply(Err(Rejection { status: INTERNAL_SERVER_ERROR, message: String::new() })),
        ),
    }
}

/// Where a request for a password restore stands.
#[derive(Debug)]
pub enum RestoreRequestState {
    Start,
    AwaitUser,
    /// Waiting for a fresh restore id for `usuario`.
    AwaitId { usuario: Usuario },
    /// Waiting for `usuario` to be kept under the restore id `id`.
    AwaitStore { usuario: Usuario, id: String },
    AwaitSend,
    Finished,
}

/// What a request for a password restore learns.
#[derive(Debug)]
pub enum RestoreRequestEvent {
    /// The request: the user name.
    Begin(String),
    UserFound(Result<Usuario, UserError>),
    /// A fresh restore id (`generateRnd(64)`).
    IdMade(String),
    /// The account was kept under the restore key, or the store's failure.
    Stored(Result<(), RedisFailure>),
    MailSent(Result<(), MailError>),
}

/// What a request for a password restore asks for next.
#[derive(Debug)]
pub enum RestoreRequestAction {
    LookupUser(String),
    /// Draw a fresh restore id.
    MakeId,
    /// Keep this account under this key for `ttl` seconds.
    StoreUser { key: String, usuario: Usuario, ttl: usize },
    SendMail(Mail),
    /// Answer the mail's failure (`mailRejection`).
    ReplySendFailure(MailError),
    Reply(Result<String, Rejection>),
}

/// An action, with its texts as sequences.
pub enum RestoreRequestActionView {
    LookupUser(Seq<char>),
    MakeId,
    StoreUser(Seq<char>, Usuario, nat),
    SendMail(Mail),
    ReplySendFailure(MailError),
    Reply(Result<Seq<char>, (u16, Seq<char>)>),
}

impl View for RestoreRequestAction {
    type V = RestoreRequestActionView;

    open spec fn view(&self) -> RestoreRequestActionView {
        match self {
            RestoreRequestAction::LookupUser(n) => RestoreRequestActionView::LookupUser(n@),
            RestoreRequestAction::MakeId => RestoreRequestActionView::MakeId,
            RestoreRequestAction::StoreUser { key, usuario, ttl } => RestoreRequestActionView::StoreUser(
                key@,
                *usuario,
                *ttl as nat,
            ),
            RestoreRequestAction::SendMail(m) => RestoreRequestActionView::SendMail(*m),
            RestoreRequestAction::ReplySendFailure(e) => RestoreRequestActionView::ReplySendFailure(*e),
            RestoreRequestAction::Reply(r) => RestoreRequestActionView::Reply(
                match r {
                    Ok(s) => Ok(s@),
                    Err(e) => Err(e@),
                },
            ),
        }
    }
}

/// Whether an event is one the restore request waits for in a state; a
/// fresh restore id has the shape of `generateRnd`'s ids.
pub open spec fn restore_request_fits(s: RestoreRequestState, e: RestoreRequestEvent) -> bool {
    match (s, e) {
        (RestoreRequestState::Start, RestoreRequestEvent::Begin(_)) => true,
        (RestoreRequestState::AwaitUser, RestoreRequestEvent::UserFound(_)) => true,
        (RestoreRequestState::AwaitId { .. }, RestoreRequestEvent::IdMade(id)) => is_random_id(id@),
        (RestoreRequestState::AwaitStore { .. }, RestoreRequestEvent::Stored(_)) => true,
        (RestoreRequestState::AwaitSend, RestoreRequestEvent::MailSent(_)) => true,
        _ => false,
    }
}

/// One step of a request for a password restore: the account is looked up,
/// kept under the restore key of a fresh id for `DEFAULT_PWDRESTORE_EXPIRATION`
/// seconds, and mailed that id.
pub open spec fn restore_request_step(s: RestoreRequestState, e: RestoreRequestEvent) -> (RestoreRequestState, RestoreRequestActionView) {
    match (s, e) {
        (RestoreRequestState::Start, RestoreRequestEvent::Begin(name)) => (
            RestoreRequestState::AwaitUser,
            RestoreRequestActionView::LookupUser(name@),
        ),
        (RestoreRequestState::AwaitUser, RestoreRequestEvent::UserFound(r)) => match r {
            Err(e) => (RestoreRequestState::Finished, RestoreRequestActionView::Reply(Err(user_lookup_rejection(e)))),
            Ok(u) => (RestoreRequestState::AwaitId { usuario: u }, RestoreRequestActionView::MakeId),
        },
        (RestoreRequestState::AwaitId { usuario }, RestoreRequestEvent::IdMade(id)) => (
            RestoreRequestState::AwaitStore { usuario, id },
            RestoreRequestActionView::StoreUser(restore_prefix() + id@, usuario, DEFAULT_PWDRESTORE_EXPIRATION as nat),
        ),
        (RestoreRequestState::AwaitStore { usuario, id }, RestoreRequestEvent::Stored(r)) => match r {
            Err(f) => (
                RestoreRequestState::Finished,
                RestoreRequestActionView::Reply(Err((INTERNAL_SERVER_ERROR, redis_failure_text(f)))),
            ),
            Ok(()) => (RestoreRequestState::AwaitSend, RestoreRequestActionView::SendMail(Mail::PwdRestore(usuario, id))),
        },
        (RestoreRequestState::AwaitSend, RestoreRequestEvent::MailSent(r)) => match r {
            Ok(()) => (RestoreRequestState::Finished, RestoreRequestActionView::Reply(Ok("Done"@))),
            Err(e) => (RestoreRequestState::Finished, RestoreRequestActionView::ReplySendFailure(e)),
        },
        _ => (RestoreRequestState::Finished, RestoreRequestActionView::Reply(Err((INTERNAL_SERVER_ERROR, Seq::empty())))),
    }
}

/// One step of asking for a password restore: the decisions of the
/// `requestRestorePwd` handler.
pub fn requestRestorePwd(state: RestoreRequestState, event: RestoreRequestEvent) -> (res: (RestoreRequestState, RestoreRequestAction))
    requires
        restore_request_fits(state, event),
    ensures
        (res.0, res.1@) == restore_request_step(state, event),
{
    match (state, event) {
        (RestoreRequestState::Start, RestoreRequestEvent::Begin(name)) => (
            RestoreRequestState::AwaitUser,
            RestoreRequestAction::LookupUser(name),
        ),
        (RestoreRequestState::AwaitUser, RestoreRequestEvent::UserFound(r)) => match r {
            Err(e) => (RestoreRequestState::Finished, RestoreRequestAction::Reply(Err(userLookupRejection(&e)))),
            Ok(u) => (RestoreRequestState::AwaitId { usuario: u }, RestoreRequestAction::MakeId),
        },
        (RestoreRequestState::AwaitId { usuario }, RestoreRequestEvent::IdMade(id)) => {
            let key = restoreKey(id.as_str());
            let kept = usuario.clone();
            (
                RestoreRequestState::AwaitStore { usuario, id },
                RestoreRequestAction::StoreUser { key, usuario: kept, ttl: DEFAULT_PWDRESTORE_EXPIRATION },
            )
        },
        (RestoreRequestState::AwaitStore { usuario, id }, RestoreRequestEvent::Stored(r)) => match r {
            Err(f) => (RestoreRequestState::Finished, RestoreRequestAction::Reply(Err(redisRejection(&f)))),
            Ok(()) => (RestoreRequestState::AwaitSend, RestoreRequestAction::SendMail(Mail::PwdRestore(usuario, id))),
        },
        (RestoreRequestState::AwaitSend, RestoreRequestEvent::MailSent(r)) => match r {
            Ok(()) => (RestoreRequestState::Finished, RestoreRequestAction::Reply(Ok(String::from_str("Done")))),
            Err(e) => (RestoreRequestState::Finished, RestoreRequestAction::ReplySendFailure(e)),
        },
        (_, _) => (
            RestoreRequestState::Finished,
            RestoreRequestAction::Reply(Err(Rejection { status: INTERNAL_SERVER_ERROR, message: String::new() })),
        ),
    }
}

/// The actions of a restore request over a sequence of events.
pub open spec fn restore_request_run(s: RestoreRequestState, events: Seq<RestoreRequestEvent>) -> Seq<RestoreRequestActionView>
    decreases events.len(),
{
    if events.len() == 0 {
        Seq::empty()
    } else {
        let (s1, a) = restore_request_step(s, events[0]);
        seq![a] + restore_request_run(s1, events.drop_first())
    }
}

/// Whether each event of a sequence is one the restore request waits for.
pub open spec fn restore_request_fits_run(s: RestoreRequestState, events: Seq<RestoreRequestEvent>) -> bool
    decreases events.len(),
{
    events.len() == 0 || (restore_request_fits(s, events[0]) && restore_request_fits_run(
        restore_request_step(s, events[0]).0,
        events.drop_first(),
    ))
}

/// How many steps a state lies before the one that sends the mail.
spec fn restore_stage(s: RestoreRequestState) -> int {
    match s {
        RestoreRequestState::Start => 3,
        RestoreRequestState::AwaitUser => 2,
        RestoreRequestState::AwaitId { .. } => 1,
        RestoreRequestState::AwaitStore { .. } => 0,
        RestoreRequestState::AwaitSend => -1,
        RestoreRequestState::Finished => -2,
    }
}

proof fn lemma_restore_run_len(s: RestoreRequestState, events: Seq<RestoreRequestEvent>)
    ensures
        restore_request_run(s, events).len() == events.len(),
    decreases events.len(),
{
    if events.len() > 0 {
        lemma_restore_run_len(restore_request_step(s, events[0]).0, events.drop_first());
    }
}

proof fn lemma_restore_tail(s: RestoreRequestState, events: Seq<RestoreRequestEvent>, i: int)
    requires
        0 < i < events.len(),
        restore_request_fits_run(s, events),
    ensures
        restore_request_run(s, events)[i] == restore_request_run(restore_request_step(s, events[0]).0, events.drop_first())[i - 1],
        restore_request_fits_run(restore_request_step(s, events[0]).0, events.drop_first()),
        restore_request_fits(s, events[0]),
        !(restore_request_step(s, events[0]).0 is Finished),
        restore_stage(restore_request_step(s, events[0]).0) == restore_stage(s) - 1,
{
    lemma_restore_run_len(restore_request_step(s, events[0]).0, events.drop_first());
    let rest = events.drop_first();
    assert(restore_request_fits_run(restore_request_step(s, events[0]).0, rest));
    assert(rest.len() > 0);
    assert(restore_request_fits(restore_request_step(s, events[0]).0, rest[0]));
}

proof fn lemma_restore_send_at(s: RestoreRequestState, events: Seq<RestoreRequestEvent>, i: int, m: Mail)
    requires
        restore_request_fits_run(s, events),
        0 <= i < events.len(),
        restore_request_run(s, events)[i] == RestoreRequestActionView::SendMail(m),
    ensures
        i == restore_stage(s),
    decreases events.len(),
{
    if i > 0 {
        lemma_restore_tail(s, events, i);
        lemma_restore_send_at(restore_request_step(s, events[0]).0, events.drop_first(), i - 1, m);
    }
}

/// A restore request mails only the account that it looked up, with the id
/// under whose restore key it kept that account (for
/// `DEFAULT_PWDRESTORE_EXPIRATION` seconds), once that was stored.
pub proof fn law_restore_mail_matches_store(events: Seq<RestoreRequestEvent>, i: int, m: Mail)
    requires
        restore_request_fits_run(RestoreRequestState::Start, events),
        0 <= i < events.len(),
        restore_request_run(RestoreRequestState::Start, events)[i] == RestoreRequestActionView::SendMail(m),
    ensures
        i == 3,
        events[1] matches RestoreRequestEvent::UserFound(Ok(u))
            && events[2] matches RestoreRequestEvent::IdMade(id)
            && m == Mail::PwdRestore(u, id)
            && is_random_id(id@)
            && restore_request_run(RestoreRequestState::Start, events)[2] == RestoreRequestActionView::StoreUser(
                restore_prefix() + id@,
                u,
                DEFAULT_PWDRESTORE_EXPIRATION as nat,
            ),
        events[3] matches RestoreRequestEvent::Stored(Ok(_)),
{
    lemma_restore_send_at(RestoreRequestState::Start, events, i, m);
    let s0 = RestoreRequestState::Start;
    let s1 = restore_request_step(s0, events[0]).0;
    let e1 = events.drop_first();
    let s2 = restore_request_step(s1, e1[0]).0;
    let e2 = e1.drop_first();
    let s3 = restore_request_step(s2, e2[0]).0;
    let e3 = e2.drop_first();
    lemma_restore_tail(s0, events, 3);
    lemma_restore_tail(s1, e1, 2);
    lemma_restore_tail(s2, e2, 1);
    lemma_restore_run_len(s3, e3);
    assert(e3[0] == events[3]);
    assert(e2[0] == events[2]);
    assert(e1[0] == events[1]);
    lemma_restore_tail(s0, events, 2);
    lemma_restore_tail(s1, e1, 1);
}

/// The actions of a password change over a sequence of events, from a state.
pub open spec fn change_pwd_run(s: ChangePwdState, events: Seq<ChangePwdEvent>) -> Seq<ChangePwdActionView>
    decreases events.len(),
{
    if events.len() == 0 {
        Seq::empty()
    } else {
        let (s1, a) = change_pwd_step(s, events[0]);
        seq![a] + change_pwd_run(s1, events.drop_first())
    }
}

/// Whether each event of a sequence is one the password change waits for.
pub open spec fn change_pwd_fits_run(s: ChangePwdState, events: Seq<ChangePwdEvent>) -> bool
    decreases events.len(),
{
    events.len() == 0 || (change_pwd_fits(s, events[0]) && change_pwd_fits_run(
        change_pwd_step(s, events[0]).0,
        events.drop_first(),
    ))
}

proof fn lemma_change_pwd_run_len(s: ChangePwdState, events: Seq<ChangePwdEvent>)
    ensures
        change_pwd_run(s, events).len() == events.len(),
    decreases events.len(),
{
    if events.len() > 0 {
        lemma_change_pwd_run_len(change_pwd_step(s, events[0]).0, events.drop_first());
    }
}

proof fn lemma_change_pwd_tail(s: ChangePwdState, events: Seq<ChangePwdEvent>, i: int)
    requires
        0 < i < events.len(),
        change_pwd_fits_run(s, events),
    ensures
        change_pwd_run(s, events)[i] == change_pwd_run(change_pwd_step(s, events[0]).0, events.drop_first())[i - 1],
        change_pwd_fits_run(change_pwd_step(s, events[0]).0, events.drop_first()),
        change_pwd_fits(s, events[0]),
{
    lemma_change_pwd_run_len(change_pwd_step(s, events[0]).0, events.drop_first());
}

proof fn lemma_change_pwd_from_update(events: Seq<ChangePwdEvent>, i: int)
    requires
        change_pwd_fits_run(ChangePwdState::AwaitUpdate, events),
        0 <= i < events.len(),
    ensures
        !(change_pwd_run(ChangePwdState::AwaitUpdate, events)[i] is UpdateUser),
{
    if i > 0 {
        lemma_change_pwd_tail(ChangePwdState::AwaitUpdate, events, i);
        assert(change_pwd_fits_run(ChangePwdState::Finished, events.drop_first()));
    }
}

proof fn lemma_change_pwd_from_hash(usuario: Usuario, events: Seq<ChangePwdEvent>, i: int, w: Usuario)
    requires
        change_pwd_fits_run(ChangePwdState::AwaitHash { usuario }, events),
        0 <= i < events.len(),
        change_pwd_run(ChangePwdState::AwaitHash { usuario }, events)[i] == ChangePwdActionView::UpdateUser(w),
    ensures
        i == 0,
        events[0] matches ChangePwdEvent::Hashed { salt, usuario: u2 } && u2 == w && hashed_with(usuario, salt@, w),
{
    lemma_change_pwd_run_len(ChangePwdState::AwaitHash { usuario }, events);
    if i > 0 {
        lemma_change_pwd_tail(ChangePwdState::AwaitHash { usuario }, events, i);
        lemma_change_pwd_from_update(events.drop_first(), i - 1);
    }
}

proof fn lemma_change_pwd_from_new_pwd(usuario: Usuario, events: Seq<ChangePwdEvent>, i: int, w: Usuario)
    requires
        change_pwd_fits_run(ChangePwdState::AwaitNewPwd { usuario }, events),
        0 <= i < events.len(),
        change_pwd_run(ChangePwdState::AwaitNewPwd { usuario }, events)[i] == ChangePwdActionView::UpdateUser(w),
    ensures
        i == 1,
        events[0] matches ChangePwdEvent::NewPassword(p)
            && events[1] matches ChangePwdEvent::Hashed { salt, .. }
            && hashed_with(usuario.with_contrasenna(p), salt@, w),
{
    lemma_change_pwd_run_len(ChangePwdState::AwaitNewPwd { usuario }, events);
    if i > 0 {
        lemma_change_pwd_tail(ChangePwdState::AwaitNewPwd { usuario }, events, i);
        let s1 = change_pwd_step(ChangePwdState::AwaitNewPwd { usuario }, events[0]).0;
        lemma_change_pwd_from_hash(s1->AwaitHash_usuario, events.drop_first(), i - 1, w);
        assert(events.drop_first()[0] == events[1]);
    }
}

proof fn lemma_change_pwd_from_pwd(usuario: Usuario, candidate: Usuario, hasNewPwd: bool, events: Seq<ChangePwdEvent>, i: int, w: Usuario)
    requires
        change_pwd_fits_run(ChangePwdState::AwaitPwd { usuario, candidate, hasNewPwd }, events),
        0 <= i < events.len(),
        change_pwd_run(ChangePwdState::AwaitPwd { usuario, candidate, hasNewPwd }, events)[i] == ChangePwdActionView::UpdateUser(w),
    ensures
        events[0] == ChangePwdEvent::PasswordChecked(Ok(true)),
        pwd_check(candidate.contrasenna@, usuario.contrasenna@) == Ok::<bool, UserError>(true),
        hasNewPwd,
        i == 2,
        events[1] matches ChangePwdEvent::NewPassword(p)
            && events[2] matches ChangePwdEvent::Hashed { salt, .. }
            && hashed_with(usuario.with_contrasenna(p), salt@, w),
{
    lemma_change_pwd_run_len(ChangePwdState::AwaitPwd { usuario, candidate, hasNewPwd }, events);
    assert(change_pwd_fits(ChangePwdState::AwaitPwd { usuario, candidate, hasNewPwd }, events[0]));
    if i > 0 {
        lemma_change_pwd_tail(ChangePwdState::AwaitPwd { usuario, candidate, hasNewPwd }, events, i);
        let s1 = change_pwd_step(ChangePwdState::AwaitPwd { usuario, candidate, hasNewPwd }, events[0]).0;
        if s1 is Finished {
            assert(change_pwd_fits_run(ChangePwdState::Finished, events.drop_first()));
        } else {
            lemma_change_pwd_from_new_pwd(usuario, events.drop_first(), i - 1, w);
            assert(events.drop_first()[0] == events[1]);
            assert(events.drop_first()[1] == events[2]);
        }
    }
}

proof fn lemma_change_pwd_from_user(payload: Usuario, hasNewPwd: bool, events: Seq<ChangePwdEvent>, i: int, w: Usuario)
    requires
        change_pwd_fits_run(ChangePwdState::AwaitUser { payload, hasNewPwd }, events),
        0 <= i < events.len(),
        change_pwd_run(ChangePwdState::AwaitUser { payload, hasNewPwd }, events)[i] == ChangePwdActionView::UpdateUser(w),
    ensures
        events.len() > 3,
        events[1] == ChangePwdEvent::PasswordChecked(Ok(true)),
        hasNewPwd,
        events[0] matches ChangePwdEvent::UserFound(Ok(found))
            && events[2] matches ChangePwdEvent::NewPassword(p)
            && events[3] matches ChangePwdEvent::Hashed { salt, .. }
            && hashed_with(found.with_contrasenna(p), salt@, w)
            && pwd_check(payload.contrasenna@, found.contrasenna@) == Ok::<bool, UserError>(true),
{
    lemma_change_pwd_run_len(ChangePwdState::AwaitUser { payload, hasNewPwd }, events);
    if i > 0 {
        lemma_change_pwd_tail(ChangePwdState::AwaitUser { payload, hasNewPwd }, events, i);
        let s1 = change_pwd_step(ChangePwdState::AwaitUser { payload, hasNewPwd }, events[0]).0;
        if s1 is Finished {
            assert(change_pwd_fits_run(ChangePwdState::Finished, events.drop_first()));
        } else {
            lemma_change_pwd_from_pwd(s1->AwaitPwd_usuario, payload, hasNewPwd, events.drop_first(), i - 1, w);
            assert(events.drop_first()[0] == events[1]);
            assert(events.drop_first()[1] == events[2]);
            assert(events.drop_first()[2] == events[3]);
        }
    }
}

/// A password change writes an account only for an existing account whose
/// current password checked out against the given one (`pwd_check`), only when a new password was given, and
/// what it writes is that account with the new password hashed (with the
/// salt drawn for it) and nothing else changed.
pub proof fn law_change_pwd_checks_first(events: Seq<ChangePwdEvent>, i: int, w: Usuario)
    requires
        change_pwd_fits_run(ChangePwdState::Start, events),
        0 <= i < events.len(),
        change_pwd_run(ChangePwdState::Start, events)[i] == ChangePwdActionView::UpdateUser(w),
    ensures
        events[0] matches ChangePwdEvent::Begin { hasNewPwd, .. } && hasNewPwd,
        events.len() > 4,
        events[2] == ChangePwdEvent::PasswordChecked(Ok(true)),
        events[0] matches ChangePwdEvent::Begin { payload, .. }
            && events[1] matches ChangePwdEvent::UserFound(Ok(found))
            && events[3] matches ChangePwdEvent::NewPassword(p)
            && events[4] matches ChangePwdEvent::Hashed { salt, .. }
            && hashed_with(found.with_contrasenna(p), salt@, w)
            && pwd_check(payload.contrasenna@, found.contrasenna@) == Ok::<bool, UserError>(true),
{
    lemma_change_pwd_run_len(ChangePwdState::Start, events);
    if i > 0 {
        lemma_change_pwd_tail(ChangePwdState::Start, events, i);
        let b = events[0];
        lemma_change_pwd_from_user(b->Begin_payload, b->Begin_hasNewPwd, events.drop_first(), i - 1, w);
        assert(events.drop_first()[0] == events[1]);
        assert(events.drop_first()[2] == events[3]);
        assert(events.drop_first()[3] == events[4]);
    }
}

/// The actions of a change of credit data over a sequence of events.
pub open spec fn change_credit_run(s: ChangeCreditState, events: Seq<ChangeCreditEvent>) -> Seq<ChangeCreditActionView>
    decreases events.len(),
{
    if events.len() == 0 {
        Seq::empty()
    } else {
        let (s1, a) = change_credit_step(s, events[0]);
        seq![a] + change_credit_run(s1, events.drop_first())
    }
}

/// Whether each event of a sequence is one the change of credit data waits for.
pub open spec fn change_credit_fits_run(s: ChangeCreditState, events: Seq<ChangeCreditEvent>) -> bool
    decreases events.len(),
{
    events.len() == 0 || (change_credit_fits(s, events[0]) && change_credit_fits_run(
        change_credit_step(s, events[0]).0,
        events.drop_first(),
    ))
}

proof fn lemma_change_credit_run_len(s: ChangeCreditState, events: Seq<ChangeCreditEvent>)
    ensures
        change_credit_run(s, events).len() == events.len(),
    decreases events.len(),
{
    if events.len() > 0 {
        lemma_change_credit_run_len(change_credit_step(s, events[0]).0, events.drop_first());
    }
}

proof fn lemma_change_credit_tail(s: ChangeCreditState, events: Seq<ChangeCreditEvent>, i: int)
    requires
        0 < i < events.len(),
        change_credit_fits_run(s, events),
    ensures
        change_credit_run(s, events)[i] == change_credit_run(change_credit_step(s, events[0]).0, events.drop_first())[i - 1],
        change_credit_fits_run(change_credit_step(s, events[0]).0, events.drop_first()),
        change_credit_fits(s, events[0]),
{
    lemma_change_credit_run_len(change_credit_step(s, events[0]).0, events.drop_first());
}

proof fn lemma_change_credit_from_update(events: Seq<ChangeCreditEvent>, i: int)
    requires
        change_credit_fits_run(ChangeCreditState::AwaitUpdate, events),
        0 <= i < events.len(),
    ensures
        !(change_credit_run(ChangeCreditState::AwaitUpdate, events)[i] is UpdateCredit),
{
    if i > 0 {
        lemma_change_credit_tail(ChangeCreditState::AwaitUpdate, events, i);
        assert(change_credit_fits_run(ChangeCreditState::Finished, events.drop_first()));
    }
}

proof fn lemma_change_credit_from_credit(change: PerfilCrediticio, events: Seq<ChangeCreditEvent>, i: int, p: PerfilCrediticio)
    requires
        change_credit_fits_run(ChangeCreditState::AwaitCredit { change }, events),
        0 <= i < events.len(),
        change_credit_run(ChangeCreditState::AwaitCredit { change }, events)[i] == ChangeCreditActionView::UpdateCredit(p),
    ensures
        events[0] matches ChangeCreditEvent::CreditFound(Ok(c)) && p == profile_changed(c, change),
{
    if i > 0 {
        lemma_change_credit_tail(ChangeCreditState::AwaitCredit { change }, events, i);
        let s1 = change_credit_step(ChangeCreditState::AwaitCredit { change }, events[0]).0;
        if s1 is Finished {
            assert(change_credit_fits_run(ChangeCreditState::Finished, events.drop_first()));
        } else {
            lemma_change_credit_from_update(events.drop_first(), i - 1);
        }
    }
}

proof fn lemma_change_credit_from_user(change: PerfilCrediticio, events: Seq<ChangeCreditEvent>, i: int, p: PerfilCrediticio)
    requires
        change_credit_fits_run(ChangeCreditState::AwaitUser { change }, events),
        0 <= i < events.len(),
        change_credit_run(ChangeCreditState::AwaitUser { change }, events)[i] == ChangeCreditActionView::UpdateCredit(p),
    ensures
        events[0] matches ChangeCreditEvent::UserFound(Ok(u))
            && change_credit_run(ChangeCreditState::AwaitUser { change }, events)[0] == ChangeCreditActionView::FetchCredit(u.id),
        events.len() > 1,
        events[1] matches ChangeCreditEvent::CreditFound(Ok(c)) && p == profile_changed(c, change),
{
    lemma_change_credit_run_len(ChangeCreditState::AwaitUser { change }, events);
    if i > 0 {
        lemma_change_credit_tail(ChangeCreditState::AwaitUser { change }, events, i);
        let s1 = change_credit_step(ChangeCreditState::AwaitUser { change }, events[0]).0;
        if s1 is Finished {
            assert(change_credit_fits_run(ChangeCreditState::Finished, events.drop_first()));
        } else {
            lemma_change_credit_from_credit(change, events.drop_first(), i - 1, p);
        }
    }
}

proof fn lemma_change_credit_from_session(change: PerfilCrediticio, events: Seq<ChangeCreditEvent>, i: int, p: PerfilCrediticio)
    requires
        change_credit_fits_run(ChangeCreditState::AwaitSessionUser { change }, events),
        0 <= i < events.len(),
        change_credit_run(ChangeCreditState::AwaitSessionUser { change }, events)[i] == ChangeCreditActionView::UpdateCredit(p),
    ensures
        events.len() > 2,
        events[1] matches ChangeCreditEvent::UserFound(Ok(u))
            && change_credit_run(ChangeCreditState::AwaitSessionUser { change }, events)[1] == ChangeCreditActionView::FetchCredit(u.id),
        events[2] matches ChangeCreditEvent::CreditFound(Ok(c)) && p == profile_changed(c, change),
{
    if i > 0 {
        lemma_change_credit_tail(ChangeCreditState::AwaitSessionUser { change }, events, i);
        let s1 = change_credit_step(ChangeCreditState::AwaitSessionUser { change }, events[0]).0;
        if s1 is Finished {
            assert(change_credit_fits_run(ChangeCreditState::Finished, events.drop_first()));
        } else {
            lemma_change_credit_from_user(change, events.drop_first(), i - 1, p);
            lemma_change_credit_tail(ChangeCreditState::AwaitSessionUser { change }, events, 1);
        }
    }
}

/// A change of credit data writes the profile read for the session's
/// account, with exactly the documents the change gives replaced.
pub proof fn law_change_credit_writes_merge(events: Seq<ChangeCreditEvent>, i: int, p: PerfilCrediticio)
    requires
        change_credit_fits_run(ChangeCreditState::Start, events),
        0 <= i < events.len(),
        change_credit_run(ChangeCreditState::Start, events)[i] == ChangeCreditActionView::UpdateCredit(p),
    ensures
        events.len() > 3,
        events[0] matches ChangeCreditEvent::Begin { perfil: Some(change), .. }
            && events[3] matches ChangeCreditEvent::CreditFound(Ok(c))
            && p == profile_changed(c, change),
        events[2] matches ChangeCreditEvent::UserFound(Ok(u))
            && change_credit_run(ChangeCreditState::Start, events)[2] == ChangeCreditActionView::FetchCredit(u.id),
{
    if i > 0 {
        lemma_change_credit_tail(ChangeCreditState::Start, events, i);
        let s1 = change_credit_step(ChangeCreditState::Start, events[0]).0;
        if s1 is Finished {
            assert(change_credit_fits_run(ChangeCreditState::Finished, events.drop_first()));
        } else {
            lemma_change_credit_from_session(s1->AwaitSessionUser_change, events.drop_first(), i - 1, p);
            lemma_change_credit_tail(ChangeCreditState::Start, events, 2);
        }
    }
}

/// Once the stored profile is read, a change of credit data writes that
/// profile with every document the change gives in place of the stored one
/// and every other document as stored; its id, owner and DNI stay.
pub proof fn law_change_credit_writes_given_documents(change: PerfilCrediticio, credit: PerfilCrediticio)
    ensures
        change_credit_step(ChangeCreditState::AwaitCredit { change }, ChangeCreditEvent::CreditFound(Ok(credit))).1
            is UpdateCredit,
        change_credit_step(ChangeCreditState::AwaitCredit { change }, ChangeCreditEvent::CreditFound(Ok(credit))).0
            is AwaitUpdate,
{
}

/// The profile a change of credit data writes, document by document: a
/// document the change gives replaces the stored one, the others stay.
pub proof fn law_written_documents(change: PerfilCrediticio, credit: PerfilCrediticio, q: PerfilCrediticio)
    requires
        change_credit_step(ChangeCreditState::AwaitCredit { change }, ChangeCreditEvent::CreditFound(Ok(credit))).1
            == ChangeCreditActionView::UpdateCredit(q),
    ensures
        change.historialCrediticio is Some ==> q.historialCrediticio == change.historialCrediticio,
        change.historialCrediticio is None ==> q.historialCrediticio == credit.historialCrediticio,
        change.extractoBancario is Some ==> q.extractoBancario == change.extractoBancario,
        change.extractoBancario is None ==> q.extractoBancario == credit.extractoBancario,
        change.comprobanteDeIngreso is Some ==> q.comprobanteDeIngreso == change.comprobanteDeIngreso,
        change.comprobanteDeIngreso is None ==> q.comprobanteDeIngreso == credit.comprobanteDeIngreso,
        change.descripcionFinanciera is Some ==> q.descripcionFinanciera == change.descripcionFinanciera,
        change.descripcionFinanciera is None ==> q.descripcionFinanciera == credit.descripcionFinanciera,
        q.id == credit.id,
        q.fkUsuario == credit.fkUsuario,
        q.dni == credit.dni,
{
}

/// A password change by a user whose current password matches the stored
/// hash, with a new password given, in which the update succeeds: the
/// account is looked up by name, the given password checked against the
/// stored hash, the new password hashed in place of the old, and the
/// account, otherwise as stored, written; the answer is `DONE`. A current
/// password that does not match is unauthorized (401) and nothing is
/// written.
pub proof fn law_change_pwd_completes(
    payload: Usuario,
    found: Usuario,
    newPwd: String,
    salt: String,
    hashed: Usuario,
    rows: u64,
)
    requires
        pwd_check(payload.contrasenna@, found.contrasenna@) == Ok::<bool, UserError>(true),
        hashed_with(found.with_contrasenna(newPwd), salt@, hashed),
    ensures
        change_pwd_fits_run(
            ChangePwdState::Start,
            seq![
                ChangePwdEvent::Begin { payload, hasNewPwd: true },
                ChangePwdEvent::UserFound(Ok(found)),
                ChangePwdEvent::PasswordChecked(Ok(true)),
                ChangePwdEvent::NewPassword(newPwd),
                ChangePwdEvent::Hashed { salt, usuario: hashed },
                ChangePwdEvent::Updated(Ok(rows)),
            ],
        ),
        change_pwd_run(
            ChangePwdState::Start,
            seq![
                ChangePwdEvent::Begin { payload, hasNewPwd: true },
                ChangePwdEvent::UserFound(Ok(found)),
                ChangePwdEvent::PasswordChecked(Ok(true)),
                ChangePwdEvent::NewPassword(newPwd),
                ChangePwdEvent::Hashed { salt, usuario: hashed },
                ChangePwdEvent::Updated(Ok(rows)),
            ],
        ) == seq![
            ChangePwdActionView::LookupUser(payload.nombreusuario@),
            ChangePwdActionView::CheckPassword(payload, found.contrasenna@),
            ChangePwdActionView::ReadNewPassword,
            ChangePwdActionView::HashPassword(found.with_contrasenna(newPwd)),
            ChangePwdActionView::UpdateUser(hashed),
            ChangePwdActionView::Reply(Ok("DONE"@)),
        ],
        hashed == found.with_contrasenna(hashed.contrasenna),
        change_pwd_step(
            ChangePwdState::AwaitPwd { usuario: found, candidate: payload, hasNewPwd: true },
            ChangePwdEvent::PasswordChecked(Ok(false)),
        ) == (ChangePwdState::Finished, ChangePwdActionView::Reply(Err((UNAUTHORIZED, "Wrong password"@)))),
{
    reveal_with_fuel(change_pwd_run, 7);
    reveal_with_fuel(change_pwd_fits_run, 7);
    let events = seq![
        ChangePwdEvent::Begin { payload, hasNewPwd: true },
        ChangePwdEvent::UserFound(Ok(found)),
        ChangePwdEvent::PasswordChecked(Ok(true)),
        ChangePwdEvent::NewPassword(newPwd),
        ChangePwdEvent::Hashed { salt, usuario: hashed },
        ChangePwdEvent::Updated(Ok(rows)),
    ];
    assert(change_pwd_run(ChangePwdState::Start, events) =~= seq![
        ChangePwdActionView::LookupUser(payload.nombreusuario@),
        ChangePwdActionView::CheckPassword(payload, found.contrasenna@),
        ChangePwdActionView::ReadNewPassword,
        ChangePwdActionView::HashPassword(found.with_contrasenna(newPwd)),
        ChangePwdActionView::UpdateUser(hashed),
        ChangePwdActionView::Reply(Ok("DONE"@)),
    ]);
}

/// A request for a password restore of a known user in which the store and
/// the mail succeed: the account is kept under the restore key of the fresh
/// id for fifteen minutes, mailed that id, and the answer is `Done`.
pub proof fn law_restore_request_completes(name: String, u: Usuario, id: String)
    requires
        is_random_id(id@),
    ensures
        restore_request_fits_run(
            RestoreRequestState::Start,
            seq![
                RestoreRequestEvent::Begin(name),
                RestoreRequestEvent::UserFound(Ok(u)),
                RestoreRequestEvent::IdMade(id),
                RestoreRequestEvent::Stored(Ok(())),
                RestoreRequestEvent::MailSent(Ok(())),
            ],
        ),
        restore_request_run(
            RestoreRequestState::Start,
            seq![
                RestoreRequestEvent::Begin(name),
                RestoreRequestEvent::UserFound(Ok(u)),
                RestoreRequestEvent::IdMade(id),
                RestoreRequestEvent::Stored(Ok(())),
                RestoreRequestEvent::MailSent(Ok(())),
            ],
        ) == seq![
            RestoreRequestActionView::LookupUser(name@),
            RestoreRequestActionView::MakeId,
            RestoreRequestActionView::StoreUser(restore_prefix() + id@, u, 900),
            RestoreRequestActionView::SendMail(Mail::PwdRestore(u, id)),
            RestoreRequestActionView::Reply(Ok("Done"@)),
        ],
{
    reveal_with_fuel(restore_request_run, 6);
    reveal_with_fuel(restore_request_fits_run, 6);
    let events = seq![
        RestoreRequestEvent::Begin(name),
        RestoreRequestEvent::UserFound(Ok(u)),
        RestoreRequestEvent::IdMade(id),
        RestoreRequestEvent::Stored(Ok(())),
        RestoreRequestEvent::MailSent(Ok(())),
    ];
    assert(restore_request_run(RestoreRequestState::Start, events) =~= seq![
        RestoreRequestActionView::LookupUser(name@),
        RestoreRequestActionView::MakeId,
        RestoreRequestActionView::StoreUser(restore_prefix() + id@, u, 900),
        RestoreRequestActionView::SendMail(Mail::PwdRestore(u, id)),
        RestoreRequestActionView::Reply(Ok("Done"@)),
    ]);
}

} // verus!
