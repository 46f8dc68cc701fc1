//! The handlers that take an account back out of a one-time id: confirming a
//! signup (`confirmUser`) and restoring a password (`restorePwd`).
use vstd::prelude::*;
use crate::errors::{redisRejection, redis_failure_text, RedisFailure, Rejection, INTERNAL_SERVER_ERROR};
use crate::redis_server::{confirmationKey, restoreKey, confirmation_prefix, restore_prefix};
use crate::routes::{confirmUserOutcome, restorePwdOutcome};
use crate::usuario::{argon2_phc, hashed_with, pwd_check, UserError, Usuario};

verus! {

/// The text of a failed enabling or password update after a one-time id.
pub open spec fn activation_failure_text() -> Seq<char> {
    "There has been an error while activating the user. Contact us for further information"@
}

/// Where a signup confirmation stands.
#[derive(Debug)]
pub enum ConfirmState {
    Start,
    /// Waiting for the account kept under the confirmation id.
    AwaitUser,
    /// Waiting for the account to be enabled.
    AwaitEnable,
    Finished,
}

/// What a signup confirmation learns.
#[derive(Debug)]
pub enum ConfirmEvent {
    /// The request: the confirmation id of the path.
    Begin(String),
    /// The account taken (read and removed) from the store, or the store's failure.
    UserTaken(Result<Usuario, RedisFailure>),
    /// The rows the enabling wrote, or its failure.
    Enabled(Result<u64, UserError>),
}

/// What a signup confirmation asks for next.
#[derive(Debug)]
pub enum ConfirmAction {
    /// Read and remove the account kept under this key.
    TakeUser(String),
    /// Enable this account.
    EnableUser(Usuario),
    Reply(Result<String, Rejection>),
}

/// An action, with its texts as sequences.
pub enum ConfirmActionView {
    TakeUser(Seq<char>),
    EnableUser(Usuario),
    Reply(Result<Seq<char>, (u16, Seq<char>)>),
}

impl View for ConfirmAction {
    type V = ConfirmActionView;

    open spec fn view(&self) -> ConfirmActionView {
        match self {
            ConfirmAction::TakeUser(k) => ConfirmActionView::TakeUser(k@),
            ConfirmAction::EnableUser(u) => ConfirmActionView::EnableUser(*u),
            ConfirmAction::Reply(r) => ConfirmActionView::Reply(
                match r {
                    Ok(s) => Ok(s@),
                    Err(e) => Err(e@),
                },
            ),
        }
    }
}

/// Whether an event is one the signup confirmation waits for in a state.
pub open spec fn confirm_fits(s: ConfirmState, e: ConfirmEvent) -> bool {
    match (s, e) {
        (ConfirmState::Start, ConfirmEvent::Begin(_)) => true,
        (ConfirmState::AwaitUser, ConfirmEvent::UserTaken(_)) => true,
        (ConfirmState::AwaitEnable, ConfirmEvent::Enabled(_)) => true,
        _ => false,
    }
}

/// The answer to enabling a confirmed account.
pub open spec fn confirm_reply(r: Result<u64, UserError>) -> Result<Seq<char>, (u16, Seq<char>)> {
    match r {
        Ok(_) => Ok("User has been enabled"@),
        Err(_) => Err((INTERNAL_SERVER_ERROR, activation_failure_text())),
    }
}

/// One step of a signup confirmation. The account kept under
/// `confirmationId` and the id is taken from the store (500 with the store's
/// failure where that fails), then enabled.
pub open spec fn confirm_step(s: ConfirmState, e: ConfirmEvent) -> (ConfirmState, ConfirmActionView) {
    match (s, e) {
        (ConfirmState::Start, ConfirmEvent::Begin(id)) => (
            ConfirmState::AwaitUser,
            ConfirmActionView::TakeUser(confirmation_prefix() + id@),
        ),
        (ConfirmState::AwaitUser, ConfirmEvent::UserTaken(r)) => match r {
            Err(f) => (ConfirmState::Finished, ConfirmActionView::Reply(Err((INTERNAL_SERVER_ERROR, redis_failure_text(f))))),
            Ok(u) => (ConfirmState::AwaitEnable, ConfirmActionView::EnableUser(u)),
        },
        (ConfirmState::AwaitEnable, ConfirmEvent::Enabled(r)) => (
            ConfirmState::Finished,
            ConfirmActionView::Reply(confirm_reply(r)),
        ),
        _ => (ConfirmState::Finished, ConfirmActionView::Reply(Err((INTERNAL_SERVER_ERROR, Seq::empty())))),
    }
}

/// One step of a signup confirmation: the decisions of the `confirmUser`
/// handler.
pub fn confirmUser(state: ConfirmState, event: ConfirmEvent) -> (res: (ConfirmState, ConfirmAction))
    requires
        confirm_fits(state, event),
    ensures
        (res.0, res.1@) == confirm_step(state, event),
{
    match (state, event) {
        (ConfirmState::Start, ConfirmEvent::Begin(id)) => (
            ConfirmState::AwaitUser,
            ConfirmAction::TakeUser(confirmationKey(id.as_str())),
        ),
        (ConfirmState::AwaitUser, ConfirmEvent::UserTaken(r)) => match r {
            Err(f) => (ConfirmState::Finished, ConfirmAction::Reply(Err(redisRejection(&f)))),
            Ok(u) => (ConfirmState::AwaitEnable, ConfirmAction::EnableUser(u)),
        },
        (ConfirmState::AwaitEnable, ConfirmEvent::Enabled(r)) => {
            let reply = confirmUserOutcome(&r);
            (ConfirmState::Finished, ConfirmAction::Reply(reply))
        },
        (_, _) => (
            ConfirmState::Finished,
            ConfirmAction::Reply(Err(Rejection { status: INTERNAL_SERVER_ERROR, message: String::new() })),
        ),
    }
}

/// A signup confirmation enables exactly the account kept under the
/// confirmation key of its id, and answers `User has been enabled` exactly
/// when that account was taken and enabled; a failed take answers 500 with
/// the store's failure and enables nothing.
pub proof fn law_confirm_enables_kept_account(id: String, taken: Result<Usuario, RedisFailure>, enabled: Result<u64, UserError>)
    ensures
        confirm_step(ConfirmState::Start, ConfirmEvent::Begin(id))
            == (ConfirmState::AwaitUser, ConfirmActionView::TakeUser(confirmation_prefix() + id@)),
        match taken {
            Err(f) => confirm_step(ConfirmState::AwaitUser, ConfirmEvent::UserTaken(taken))
                == (ConfirmState::Finished, ConfirmActionView::Reply(Err((INTERNAL_SERVER_ERROR, redis_failure_text(f))))),
            Ok(u) => {
                &&& confirm_step(ConfirmState::AwaitUser, ConfirmEvent::UserTaken(taken))
                    == (ConfirmState::AwaitEnable, ConfirmActionView::EnableUser(u))
                &&& confirm_step(ConfirmState::AwaitEnable, ConfirmEvent::Enabled(enabled)).1
                    matches ConfirmActionView::Reply(r)
                &&& (r is Ok <==> enabled is Ok)
            },
        },
{
}

/// Where a password restore stands.
#[derive(Debug)]
pub enum RestoreState {
    Start,
    /// Waiting for the account kept under the restore id; `newPwd` is the
    /// password asked for.
    AwaitUser { newPwd: String },
    /// Waiting for the password of `usuario` (the new one, as given) to be
    /// hashed.
    AwaitHash { usuario: Usuario },
    /// Waiting for the account to be updated.
    AwaitUpdate,
    Finished,
}

/// What a password restore learns.
#[derive(Debug)]
pub enum RestoreEvent {
    /// The request: the restore id of the path and the new password.
    Begin { restoreId: String, newPwd: String },
    /// The account taken (read and removed) from the store, or the store's failure.
    UserTaken(Result<Usuario, RedisFailure>),
    /// The salt drawn for the new password, and the account hashed with it
    /// (`Usuario::hashedWith`).
    Hashed { salt: String, usuario: Usuario },
    /// The rows the update wrote, or its failure.
    Updated(Result<u64, UserError>),
}

/// What a password restore asks for next.
#[derive(Debug)]
pub enum RestoreAction {
    /// Read and remove the account kept under this key.
    TakeUser(String),
    /// Hash this account's password.
    HashPassword(Usuario),
    /// Write this account.
    UpdateUser(Usuario),
    Reply(Result<String, Rejection>),
}

/// An action, with its texts as sequences.
pub enum RestoreActionView {
    TakeUser(Seq<char>),
    HashPassword(Usuario),
    UpdateUser(Usuario),
    Reply(Result<Seq<char>, (u16, Seq<char>)>),
}

impl View for RestoreAction {
    type V = RestoreActionView;

    open spec fn view(&self) -> RestoreActionView {
        match self {
            RestoreAction::TakeUser(k) => RestoreActionView::TakeUser(k@),
            RestoreAction::HashPassword(u) => RestoreActionView::HashPassword(*u),
            RestoreAction::UpdateUser(u) => RestoreActionView::UpdateUser(*u),
            RestoreAction::Reply(r) => RestoreActionView::Reply(
                match r {
                    Ok(s) => Ok(s@),
                    Err(e) => Err(e@),
                },
            ),
        }
    }
}

/// Whether an event is one the password restore waits for in a state; the
/// hashed account is the awaited one hashed with the salt it names.
pub open spec fn restore_fits(s: RestoreState, e: RestoreEvent) -> bool {
    match (s, e) {
        (RestoreState::Start, RestoreEvent::Begin { .. }) => true,
        (RestoreState::AwaitUser { .. }, RestoreEvent::UserTaken(_)) => true,
        (RestoreState::AwaitHash { usuario }, RestoreEvent::Hashed { salt, usuario: hashed }) => hashed_with(
            usuario,
            salt@,
            hashed,
        ),
        (RestoreState::AwaitUpdate, RestoreEvent::Updated(_)) => true,
        _ => false,
    }
}

/// The answer to storing a restored password.
pub open spec fn restore_reply(r: Result<u64, UserError>) -> Result<Seq<char>, (u16, Seq<char>)> {
    match r {
        Ok(_) => Ok("Password has been updated"@),
        Err(_) => Err((INTERNAL_SERVER_ERROR, activation_failure_text())),
    }
}

/// One step of a password restore. The account kept under `restoreId` and
/// the id is taken from the store (500 with the store's failure where that
/// fails); its password becomes the new one, hashed, and the account is
/// updated.
pub open spec fn restore_step(s: RestoreState, e: RestoreEvent) -> (RestoreState, RestoreActionView) {
    match (s, e) {
        (RestoreState::Start, RestoreEvent::Begin { restoreId, newPwd }) => (
            RestoreState::AwaitUser { newPwd },
            RestoreActionView::TakeUser(restore_prefix() + restoreId@),
        ),
        (RestoreState::AwaitUser { newPwd }, RestoreEvent::UserTaken(r)) => match r {
            Err(f) => (RestoreState::Finished, RestoreActionView::Reply(Err((INTERNAL_SERVER_ERROR, redis_failure_text(f))))),
            Ok(u) => (
                RestoreState::AwaitHash { usuario: u.with_contrasenna(newPwd) },
                RestoreActionView::HashPassword(u.with_contrasenna(newPwd)),
            ),
        },
        (RestoreState::AwaitHash { .. }, RestoreEvent::Hashed { usuario, .. }) => (
            RestoreState::AwaitUpdate,
            RestoreActionView::UpdateUser(usuario),
        ),
        (RestoreState::AwaitUpdate, RestoreEvent::Updated(r)) => (
            RestoreState::Finished,
            RestoreActionView::Reply(restore_reply(r)),
        ),
        _ => (RestoreState::Finished, RestoreActionView::Reply(Err((INTERNAL_SERVER_ERROR, Seq::empty())))),
    }
}

/// One step of a password restore: the decisions of the `restorePwd`
/// handler.
pub fn restorePwd(state: RestoreState, event: RestoreEvent) -> (res: (RestoreState, RestoreAction))
    requires
        restore_fits(state, event),
    ensures
        (res.0, res.1@) == restore_step(state, event),
{
    match (state, event) {
        (RestoreState::Start, RestoreEvent::Begin { restoreId, newPwd }) => (
            RestoreState::AwaitUser { newPwd },
            RestoreAction::TakeUser(restoreKey(restoreId.as_str())),
        ),
        (RestoreState::AwaitUser { newPwd }, RestoreEvent::UserTaken(r)) => match r {
            Err(f) => (RestoreState::Finished, RestoreAction::Reply(Err(redisRejection(&f)))),
            Ok(u) => {
                let mut usuario = u;
                usuario.contrasenna = newPwd;
                let asked = usuario.clone();
                (RestoreState::AwaitHash { usuario }, RestoreAction::HashPassword(asked))
            },
        },
        (RestoreState::AwaitHash { .. }, RestoreEvent::Hashed { usuario, .. }) => (
            RestoreState::AwaitUpdate,
            RestoreAction::UpdateUser(usuario),
        ),
        (RestoreState::AwaitUpdate, RestoreEvent::Updated(r)) => {
            let reply = restorePwdOutcome(&r);
            (RestoreState::Finished, RestoreAction::Reply(reply))
        },
        (_, _) => (
            RestoreState::Finished,
            RestoreAction::Reply(Err(Rejection { status: INTERNAL_SERVER_ERROR, message: String::new() })),
        ),
    }
}

/// The hashing step of a password restore: hashes the new password with
/// `salt` (`Usuario::hashedWith`) and takes the `Hashed` event.
pub fn restorePwdWithSalt(state: RestoreState, salt: String) -> (res: (RestoreState, RestoreAction))
    requires
        state is AwaitHash,
    ensures
        exists|u: Usuario|
            hashed_with(state->AwaitHash_usuario, salt@, u) && (res.0, res.1@) == #[trigger] restore_step(
                state,
                RestoreEvent::Hashed { salt, usuario: u },
            ),
{
    let ghost s0 = state;
    match state {
        RestoreState::AwaitHash { usuario } => {
            let hashed = usuario.hashedWith(salt.as_str());
            let ghost h = hashed;
            let res = restorePwd(RestoreState::AwaitHash { usuario }, RestoreEvent::Hashed { salt, usuario: hashed });
            assert(hashed_with(s0->AwaitHash_usuario, salt@, h));
            res
        },
        _ => {
            assert(false);
            (RestoreState::Finished, RestoreAction::Reply(Err(Rejection { status: INTERNAL_SERVER_ERROR, message: String::new() })))
        },
    }
}

/// A password restore writes back the account kept under the restore key of
/// its id with only its password changed: to a hash that the new password
/// checks out against, where the hasher accepts the salt. It answers
/// `Password has been updated` exactly when that write succeeds.
pub proof fn law_restore_stores_new_hash(
    restoreId: String,
    newPwd: String,
    kept: Usuario,
    salt: String,
    hashed: Usuario,
    updated: Result<u64, UserError>,
)
    requires
        hashed_with(kept.with_contrasenna(newPwd), salt@, hashed),
    ensures
        restore_step(RestoreState::Start, RestoreEvent::Begin { restoreId, newPwd })
            == (RestoreState::AwaitUser { newPwd }, RestoreActionView::TakeUser(restore_prefix() + restoreId@)),
        restore_step(RestoreState::AwaitUser { newPwd }, RestoreEvent::UserTaken(Ok(kept)))
            == (RestoreState::AwaitHash { usuario: kept.with_contrasenna(newPwd) },
                RestoreActionView::HashPassword(kept.with_contrasenna(newPwd))),
        restore_step(RestoreState::AwaitHash { usuario: kept.with_contrasenna(newPwd) }, RestoreEvent::Hashed { salt, usuario: hashed })
            == (RestoreState::AwaitUpdate, RestoreActionView::UpdateUser(hashed)),
        hashed == kept.with_contrasenna(hashed.contrasenna),
        argon2_phc(newPwd@, salt@) is Some ==> pwd_check(newPwd@, hashed.contrasenna@) == Ok::<bool, UserError>(true),
        restore_step(RestoreState::AwaitUpdate, RestoreEvent::Updated(updated)).1 matches RestoreActionView::Reply(r)
            && (r is Ok <==> updated is Ok),
{
}

} // verus!
