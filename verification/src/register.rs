//! Registering: create the account and its credit profile, then mail a
//! signup confirmation.
use vstd::prelude::*;
use crate::misc::is_random_id;
use crate::errors::{DbFailure, RedisFailure, Rejection, BAD_REQUEST, INTERNAL_SERVER_ERROR};
use crate::mail::{mail_error_text, Mail, MailError};
use crate::perfil_crediticio::PerfilCrediticio;
use crate::redis_server::{confirmationKey, confirmation_prefix, DEFAULT_MAILCONF_EXPIRATION};
use crate::usuario::{hashed_with, UserError, Usuario};

verus! {

/// Where a registration stands.
#[derive(Debug)]
pub enum RegisterState {
    /// Nothing asked yet.
    Start,
    /// Waiting for the password to be hashed.
    AwaitHash { usuario: Usuario, perfil: PerfilCrediticio },
    /// Waiting for the account to be written.
    AwaitCreate { usuario: Usuario, perfil: PerfilCrediticio },
    /// Waiting for the new account's id.
    AwaitId { usuario: Usuario, perfil: PerfilCrediticio },
    /// Waiting for the credit profile to be written.
    AwaitProfile { usuario: Usuario },
    /// Waiting for the account to be removed again after the profile wrote
    /// `rows` rows.
    AwaitRollback { rows: u64 },
    /// Waiting for a fresh confirmation id for `usuario`.
    AwaitMailId { usuario: Usuario },
    /// Waiting for `usuario` to be kept under the confirmation id `id`.
    AwaitMailStore { usuario: Usuario, id: String },
    /// Waiting for the confirmation mail to be sent.
    AwaitSend,
    /// Answered.
    Finished,
}

/// What a registration learns.
#[derive(Debug)]
pub enum RegisterEvent {
    /// The request: the account and, it is required, the credit profile.
    Begin { usuario: Usuario, perfil: Option<PerfilCrediticio> },
    /// The account after hashing its password (unchanged where hashing failed).
    Hashed { salt: String, usuario: Usuario },
    /// The rows the account's insertion wrote, or its failure.
    UserCreated(Result<u64, UserError>),
    /// The id the new account got.
    UserIdFound(i64),
    /// The rows the profile's insertion wrote, or its failure.
    ProfileSaved(Result<u64, DbFailure>),
    /// The account was removed (or its removal failed; it does not matter).
    UserDeleted,
    /// A fresh confirmation id (`generateRnd(64)`).
    MailIdMade(String),
    /// The account was kept under the confirmation key, or the store's failure.
    MailStored(Result<(), RedisFailure>),
    /// The confirmation mail was sent, or why not.
    MailSent(Result<(), MailError>),
}

/// What a registration asks for next.
#[derive(Debug)]
pub enum RegisterAction {
    /// Hash this account's password.
    HashPassword(Usuario),
    /// Write this account (not yet enabled).
    CreateUser(Usuario),
    /// Read the id of the account with this user name.
    FetchUserId(String),
    /// Write this credit profile.
    SaveProfile(PerfilCrediticio),
    /// Remove this account.
    DeleteUser(Usuario),
    /// Draw a fresh confirmation id.
    MakeMailId,
    /// Keep this account under this key for `ttl` seconds.
    StoreUser { key: String, usuario: Usuario, ttl: usize },
    /// Send this mail.
    SendMail(Mail),
    /// Answer: `Done`, or a rejection.
    Reply(Result<String, Rejection>),
}

/// An action, with its texts as sequences.
pub enum RegisterActionView {
    HashPassword(Usuario),
    CreateUser(Usuario),
    FetchUserId(Seq<char>),
    SaveProfile(PerfilCrediticio),
    DeleteUser(Usuario),
    MakeMailId,
    StoreUser(Seq<char>, Usuario, nat),
    SendMail(Mail),
    Reply(Result<Seq<char>, (u16, Seq<char>)>),
}

impl View for RegisterAction {
    type V = RegisterActionView;

    open spec fn view(&self) -> RegisterActionView {
        match self {
            RegisterAction::HashPassword(u) => RegisterActionView::HashPassword(*u),
            RegisterAction::CreateUser(u) => RegisterActionView::CreateUser(*u),
            RegisterAction::FetchUserId(n) => RegisterActionView::FetchUserId(n@),
            RegisterAction::SaveProfile(p) => RegisterActionView::SaveProfile(*p),
            RegisterAction::DeleteUser(u) => RegisterActionView::DeleteUser(*u),
            RegisterAction::MakeMailId => RegisterActionView::MakeMailId,
            RegisterAction::StoreUser { key, usuario, ttl } => RegisterActionView::StoreUser(key@, *usuario, *ttl as nat),
            RegisterAction::SendMail(m) => RegisterActionView::SendMail(*m),
            RegisterAction::Reply(r) => RegisterActionView::Reply(
                match r {
                    Ok(s) => Ok(s@),
                    Err(e) => Err(e@),
                },
            ),
        }
    }
}

/// Whether an event is one the registration waits for in a state; the
/// hashed account is the requested one hashed with the salt it names, and a
/// fresh confirmation id has the shape of `generateRnd`'s ids.
pub open spec fn register_fits(s: RegisterState, e: RegisterEvent) -> bool {
    match (s, e) {
        (RegisterState::Start, RegisterEvent::Begin { .. }) => true,
        (RegisterState::AwaitHash { usuario, .. }, RegisterEvent::Hashed { salt, usuario: hashed }) => hashed_with(
            usuario,
            salt@,
            hashed,
        ),
        (RegisterState::AwaitCreate { .. }, RegisterEvent::UserCreated(_)) => true,
        (RegisterState::AwaitId { .. }, RegisterEvent::UserIdFound(_)) => true,
        (RegisterState::AwaitProfile { .. }, RegisterEvent::ProfileSaved(_)) => true,
        (RegisterState::AwaitRollback { .. }, RegisterEvent::UserDeleted) => true,
        (RegisterState::AwaitMailId { .. }, RegisterEvent::MailIdMade(id)) => is_random_id(id@),
        (RegisterState::AwaitMailStore { .. }, RegisterEvent::MailStored(_)) => true,
        (RegisterState::AwaitSend, RegisterEvent::MailSent(_)) => true,
        _ => false,
    }
}

/// The answer to a failed insertion of an account: a refusal by the
/// database (a name or mail already taken) is the client's fault (400).
pub open spec fn create_user_rejection(e: UserError) -> (u16, Seq<char>) {
    match e {
        UserError::MultithreadError => (INTERNAL_SERVER_ERROR, "There was an error while creating the user"@),
        UserError::DbError(DbFailure::Database { message, .. }) => (BAD_REQUEST, message@),
        UserError::DbError(f) => (INTERNAL_SERVER_ERROR, f.text_of()),
    }
}

/// The answer after the account was removed because its profile wrote
/// `rows` rows.
pub open spec fn rollback_rejection(rows: u64) -> (u16, Seq<char>) {
    if rows == 0 {
        (BAD_REQUEST, "There was an error while creating the user"@)
    } else {
        (INTERNAL_SERVER_ERROR, "This should not have happened."@)
    }
}

/// One step of a registration. A request without a credit profile or
/// without a kind of account is a bad one (400). The password is hashed and
/// the account written; exactly one written row goes on, none is the
/// client's fault, more the server's. The profile is written for the new
/// account's id; where it does not write exactly one row the account is
/// removed again. Then the account is kept under the confirmation key of a
/// fresh id for `DEFAULT_MAILCONF_EXPIRATION` seconds, and mailed that id.
pub open spec fn register_step(s: RegisterState, e: RegisterEvent) -> (RegisterState, RegisterActionView) {
    match (s, e) {
        (RegisterState::Start, RegisterEvent::Begin { usuario, perfil }) => match perfil {
            None => (
                RegisterState::Finished,
                RegisterActionView::Reply(Err((BAD_REQUEST, "Credit history has to be provided"@))),
            ),
            Some(p) => if usuario.tipousuario is None {
                (
                    RegisterState::Finished,
                    RegisterActionView::Reply(Err((BAD_REQUEST, "Field TipoUsuario has to be provided."@))),
                )
            } else {
                (RegisterState::AwaitHash { usuario, perfil: p }, RegisterActionView::HashPassword(usuario))
            },
        },
        (RegisterState::AwaitHash { perfil, .. }, RegisterEvent::Hashed { usuario: u, .. }) => (
            RegisterState::AwaitCreate { usuario: u, perfil },
            RegisterActionView::CreateUser(u),
        ),
        (RegisterState::AwaitCreate { usuario, perfil }, RegisterEvent::UserCreated(r)) => match r {
            Err(e) => (RegisterState::Finished, RegisterActionView::Reply(Err(create_user_rejection(e)))),
            Ok(rows) => if rows == 0 {
                (
                    RegisterState::Finished,
                    RegisterActionView::Reply(Err((BAD_REQUEST, "There was an error while creating the user"@))),
                )
            } else if rows == 1 {
                (RegisterState::AwaitId { usuario, perfil }, RegisterActionView::FetchUserId(usuario.nombreusuario@))
            } else {
                (
                    RegisterState::Finished,
                    RegisterActionView::Reply(Err((INTERNAL_SERVER_ERROR, "This should not have happened."@))),
                )
            },
        },
        (RegisterState::AwaitId { usuario, perfil }, RegisterEvent::UserIdFound(id)) => (
            RegisterState::AwaitProfile { usuario },
            RegisterActionView::SaveProfile(PerfilCrediticio { fkUsuario: id, ..perfil }),
        ),
        (RegisterState::AwaitProfile { usuario }, RegisterEvent::ProfileSaved(r)) => match r {
            Err(f) => (RegisterState::Finished, RegisterActionView::Reply(Err((INTERNAL_SERVER_ERROR, f.text_of())))),
            Ok(rows) => if rows == 1 {
                (RegisterState::AwaitMailId { usuario }, RegisterActionView::MakeMailId)
            } else {
                (RegisterState::AwaitRollback { rows }, RegisterActionView::DeleteUser(usuario))
            },
        },
        (RegisterState::AwaitRollback { rows }, RegisterEvent::UserDeleted) => (
            RegisterState::Finished,
            RegisterActionView::Reply(Err(rollback_rejection(rows))),
        ),
        (RegisterState::AwaitMailId { usuario }, RegisterEvent::MailIdMade(id)) => (
            RegisterState::AwaitMailStore { usuario, id },
            RegisterActionView::StoreUser(confirmation_prefix() + id@, usuario, DEFAULT_MAILCONF_EXPIRATION as nat),
        ),
        (RegisterState::AwaitMailStore { usuario, id }, RegisterEvent::MailStored(r)) => match r {
            Err(_) => (
                RegisterState::Finished,
                RegisterActionView::Reply(
                    Err((INTERNAL_SERVER_ERROR, "There was an error while saving your data. Contact us for further information"@)),
                ),
            ),
            Ok(()) => (RegisterState::AwaitSend, RegisterActionView::SendMail(Mail::SignupConfirm(usuario, id))),
        },
        (RegisterState::AwaitSend, RegisterEvent::MailSent(r)) => match r {
            Ok(()) => (RegisterState::Finished, RegisterActionView::Reply(Ok("Done"@))),
            Err(e) => (RegisterState::Finished, RegisterActionView::Reply(Err((INTERNAL_SERVER_ERROR, mail_error_text(e))))),
        },
        _ => (RegisterState::Finished, RegisterActionView::Reply(Err((INTERNAL_SERVER_ERROR, Seq::empty())))),
    }
}

/// One step of registering: the decisions of the `register` handler.
pub fn register(state: RegisterState, event: RegisterEvent) -> (res: (RegisterState, RegisterAction))
    requires
        register_fits(state, event),
    ensures
        (res.0, res.1@) == register_step(state, event),
{
    match (state, event) {
        (RegisterState::Start, RegisterEvent::Begin { usuario, perfil }) => match perfil {
            None => (
                RegisterState::Finished,
                RegisterAction::Reply(Err(Rejection::new(BAD_REQUEST, "Credit history has to be provided"))),
            ),
            Some(p) => {
                if usuario.tipousuario.is_none() {
                    (
                        RegisterState::Finished,
                        RegisterAction::Reply(Err(Rejection::new(BAD_REQUEST, "Field TipoUsuario has to be provided."))),
                    )
                } else {
                    let asked = usuario.clone();
                    (RegisterState::AwaitHash { usuario, perfil: p }, RegisterAction::HashPassword(asked))
                }
            },
        },
        (RegisterState::AwaitHash { perfil, .. }, RegisterEvent::Hashed { usuario: u, .. }) => {
            let stored = u.clone();
            (RegisterState::AwaitCreate { usuario: u, perfil }, RegisterAction::CreateUser(stored))
        },
        (RegisterState::AwaitCreate { usuario, perfil }, RegisterEvent::UserCreated(r)) => match r {
            Err(UserError::MultithreadError) => (
                RegisterState::Finished,
                RegisterAction::Reply(Err(Rejection::new(INTERNAL_SERVER_ERROR, "There was an error while creating the user"))),
            ),
            Err(UserError::DbError(DbFailure::Database { message, .. })) => (
                RegisterState::Finished,
                RegisterAction::Reply(Err(Rejection { status: BAD_REQUEST, message })),
            ),
            Err(UserError::DbError(f)) => (
                RegisterState::Finished,
                RegisterAction::Reply(Err(Rejection { status: INTERNAL_SERVER_ERROR, message: f.text() })),
            ),
            Ok(rows) => {
                if rows == 0 {
                    (
                        RegisterState::Finished,
                        RegisterAction::Reply(Err(Rejection::new(BAD_REQUEST, "There was an error while creating the user"))),
                    )
                } else if rows == 1 {
                    let name = usuario.nombreusuario.clone();
                    (RegisterState::AwaitId { usuario, perfil }, RegisterAction::FetchUserId(name))
                } else {
                    (
                        RegisterState::Finished,
                        RegisterAction::Reply(Err(Rejection::new(INTERNAL_SERVER_ERROR, "This should not have happened."))),
                    )
                }
            },
        },
        (RegisterState::AwaitId { usuario, perfil }, RegisterEvent::UserIdFound(id)) => {
            let mut perfil = perfil;
            perfil.fkUsuario = id;
            (RegisterState::AwaitProfile { usuario }, RegisterAction::SaveProfile(perfil))
        },
        (RegisterState::AwaitProfile { usuario }, RegisterEvent::ProfileSaved(r)) => match r {
            Err(f) => (
                RegisterState::Finished,
                RegisterAction::Reply(Err(Rejection { status: INTERNAL_SERVER_ERROR, message: f.text() })),
            ),
            Ok(rows) => {
                if rows == 1 {
                    (RegisterState::AwaitMailId { usuario }, RegisterAction::MakeMailId)
                } else {
                    (RegisterState::AwaitRollback { rows }, RegisterAction::DeleteUser(usuario))
                }
            },
        },
        (RegisterState::AwaitRollback { rows }, RegisterEvent::UserDeleted) => {
            let rejection = if rows == 0 {
                Rejection::new(BAD_REQUEST, "There was an error while creating the user")
            } else {
                Rejection::new(INTERNAL_SERVER_ERROR, "This should not have happened.")
            };
            (RegisterState::Finished, RegisterAction::Reply(Err(rejection)))
        },
        (RegisterState::AwaitMailId { usuario }, RegisterEvent::MailIdMade(id)) => {
            let key = confirmationKey(id.as_str());
            let kept = usuario.clone();
            (
                RegisterState::AwaitMailStore { usuario, id },
                RegisterAction::StoreUser { key, usuario: kept, ttl: DEFAULT_MAILCONF_EXPIRATION },
            )
        },
        (RegisterState::AwaitMailStore { usuario, id }, RegisterEvent::MailStored(r)) => match r {
            Err(_) => (
                RegisterState::Finished,
                RegisterAction::Reply(
                    Err(Rejection::new(
                        INTERNAL_SERVER_ERROR,
                        "There was an error while saving your data. Contact us for further information",
                    )),
                ),
            ),
            Ok(()) => (RegisterState::AwaitSend, RegisterAction::SendMail(Mail::SignupConfirm(usuario, id))),
        },
        (RegisterState::AwaitSend, RegisterEvent::MailSent(r)) => match r {
            Ok(()) => (RegisterState::Finished, RegisterAction::Reply(Ok(String::from_str("Done")))),
            Err(e) => (
                RegisterState::Finished,
                RegisterAction::Reply(Err(Rejection { status: INTERNAL_SERVER_ERROR, message: e.message() })),
            ),
        },
        (_, _) => (
            RegisterState::Finished,
            RegisterAction::Reply(Err(Rejection { status: INTERNAL_SERVER_ERROR, message: String::new() })),
        ),
    }
}

/// The hashing step of a registration: hashes the requested account's
/// password with `salt` (`Usuario::hashedWith`) and takes the `Hashed`
/// event.
pub fn registerWithSalt(state: RegisterState, salt: String) -> (res: (RegisterState, RegisterAction))
    requires
        state is AwaitHash,
    ensures
        exists|u: Usuario|
            hashed_with(state->AwaitHash_usuario, salt@, u) && (res.0, res.1@) == #[trigger] register_step(
                state,
                RegisterEvent::Hashed { salt, usuario: u },
            ),
{
    let ghost s0 = state;
    match state {
        RegisterState::AwaitHash { usuario, perfil } => {
            let hashed = usuario.hashedWith(salt.as_str());
            let ghost h = hashed;
            let res = register(RegisterState::AwaitHash { usuario, perfil }, RegisterEvent::Hashed { salt, usuario: hashed });
            assert(hashed_with(s0->AwaitHash_usuario, salt@, h));
            res
        },
        _ => {
            assert(false);
            (RegisterState::Finished, RegisterAction::MakeMailId)
        },
    }
}

/// The actions of a registration over a sequence of events, from a state.
pub open spec fn register_run(s: RegisterState, events: Seq<RegisterEvent>) -> Seq<RegisterActionView>
    decreases events.len(),
{
    if events.len() == 0 {
        Seq::empty()
    } else {
        let (s1, a) = register_step(s, events[0]);
        seq![a] + register_run(s1, events.drop_first())
    }
}

/// Whether each event of a sequence is one the registration waits for.
pub open spec fn register_fits_run(s: RegisterState, events: Seq<RegisterEvent>) -> bool
    decreases events.len(),
{
    events.len() == 0 || (register_fits(s, events[0]) && register_fits_run(
        register_step(s, events[0]).0,
        events.drop_first(),
    ))
}

proof fn lemma_register_run_len(s: RegisterState, events: Seq<RegisterEvent>)
    ensures
        register_run(s, events).len() == events.len(),
    decreases events.len(),
{
    if events.len() > 0 {
        lemma_register_run_len(register_step(s, events[0]).0, events.drop_first());
    }
}

proof fn lemma_register_tail(s: RegisterState, events: Seq<RegisterEvent>, i: int)
    requires
        0 < i < events.len(),
        register_fits_run(s, events),
    ensures
        register_run(s, events)[i] == register_run(register_step(s, events[0]).0, events.drop_first())[i - 1],
        register_fits_run(register_step(s, events[0]).0, events.drop_first()),
        register_fits(s, events[0]),
{
    lemma_register_run_len(register_step(s, events[0]).0, events.drop_first());
}

/// The answer `Done`.
pub open spec fn is_done(a: RegisterActionView) -> bool {
    a matches RegisterActionView::Reply(Ok(t)) && t == "Done"@
}

proof fn lemma_register_finished(events: Seq<RegisterEvent>)
    requires
        register_fits_run(RegisterState::Finished, events),
    ensures
        events.len() == 0,
{
}

proof fn lemma_register_from_send(events: Seq<RegisterEvent>, i: int)
    requires
        register_fits_run(RegisterState::AwaitSend, events),
        0 <= i < events.len(),
        is_done(register_run(RegisterState::AwaitSend, events)[i]),
    ensures
        events[0] == RegisterEvent::MailSent(Ok(())),
{
    assert(register_fits(RegisterState::AwaitSend, events[0]));
    if let RegisterEvent::MailSent(r) = events[0] {
        if let Ok(u) = r {
            assert(u == ());
        }
    }
    if i > 0 {
        lemma_register_tail(RegisterState::AwaitSend, events, i);
        lemma_register_finished(events.drop_first());
    }
}

/// The confirmation mail that a registration of `u` sends with the id `id`,
/// and the store that comes before it.
pub open spec fn confirmation_store(u: Usuario, id: Seq<char>) -> RegisterActionView {
    RegisterActionView::StoreUser(confirmation_prefix() + id, u, DEFAULT_MAILCONF_EXPIRATION as nat)
}

proof fn lemma_register_from_mail_store(usuario: Usuario, id: String, events: Seq<RegisterEvent>, i: int)
    requires
        register_fits_run(RegisterState::AwaitMailStore { usuario, id }, events),
        0 <= i < events.len(),
        is_done(register_run(RegisterState::AwaitMailStore { usuario, id }, events)[i]),
    ensures
        events[0] matches RegisterEvent::MailStored(Ok(_)),
        events.len() > 1 && events[1] == RegisterEvent::MailSent(Ok(())),
        register_run(RegisterState::AwaitMailStore { usuario, id }, events)[0] == RegisterActionView::SendMail(
            Mail::SignupConfirm(usuario, id),
        ),
{
    lemma_register_run_len(RegisterState::AwaitMailStore { usuario, id }, events);
    if i > 0 {
        lemma_register_tail(RegisterState::AwaitMailStore { usuario, id }, events, i);
        if register_step(RegisterState::AwaitMailStore { usuario, id }, events[0]).0 is Finished {
            lemma_register_finished(events.drop_first());
        } else {
            lemma_register_from_send(events.drop_first(), i - 1);
        }
    }
}

proof fn lemma_register_from_mail_id(usuario: Usuario, events: Seq<RegisterEvent>, i: int)
    requires
        register_fits_run(RegisterState::AwaitMailId { usuario }, events),
        0 <= i < events.len(),
        is_done(register_run(RegisterState::AwaitMailId { usuario }, events)[i]),
    ensures
        events.len() > 2,
        events[0] matches RegisterEvent::MailIdMade(id)
            && is_random_id(id@)
            && register_run(RegisterState::AwaitMailId { usuario }, events)[0] == confirmation_store(usuario, id@)
            && register_run(RegisterState::AwaitMailId { usuario }, events)[1] == RegisterActionView::SendMail(
                Mail::SignupConfirm(usuario, id),
            ),
        events[1] matches RegisterEvent::MailStored(Ok(_)),
        events[2] == RegisterEvent::MailSent(Ok(())),
{
    lemma_register_run_len(RegisterState::AwaitMailId { usuario }, events);
    if i > 0 {
        lemma_register_tail(RegisterState::AwaitMailId { usuario }, events, i);
        let s1 = register_step(RegisterState::AwaitMailId { usuario }, events[0]).0;
        lemma_register_from_mail_store(usuario, s1->AwaitMailStore_id, events.drop_first(), i - 1);
        lemma_register_tail(RegisterState::AwaitMailId { usuario }, events, 1);
    }
}

proof fn lemma_register_from_rollback(rows: u64, events: Seq<RegisterEvent>, i: int)
    requires
        register_fits_run(RegisterState::AwaitRollback { rows }, events),
        0 <= i < events.len(),
    ensures
        !is_done(register_run(RegisterState::AwaitRollback { rows }, events)[i]),
{
    reveal_strlit("Done");
    reveal_strlit("There was an error while creating the user");
    reveal_strlit("This should not have happened.");
    if i > 0 {
        lemma_register_tail(RegisterState::AwaitRollback { rows }, events, i);
        lemma_register_finished(events.drop_first());
    }
}

proof fn lemma_register_from_profile(usuario: Usuario, events: Seq<RegisterEvent>, i: int)
    requires
        register_fits_run(RegisterState::AwaitProfile { usuario }, events),
        0 <= i < events.len(),
        is_done(register_run(RegisterState::AwaitProfile { usuario }, events)[i]),
    ensures
        events[0] == RegisterEvent::ProfileSaved(Ok(1)),
        events.len() > 3,
        events[1] matches RegisterEvent::MailIdMade(id)
            && is_random_id(id@)
            && register_run(RegisterState::AwaitProfile { usuario }, events)[1] == confirmation_store(usuario, id@)
            && register_run(RegisterState::AwaitProfile { usuario }, events)[2] == RegisterActionView::SendMail(
                Mail::SignupConfirm(usuario, id),
            ),
        events[2] matches RegisterEvent::MailStored(Ok(_)),
        events[3] == RegisterEvent::MailSent(Ok(())),
{
    if i > 0 {
        lemma_register_tail(RegisterState::AwaitProfile { usuario }, events, i);
        let s1 = register_step(RegisterState::AwaitProfile { usuario }, events[0]).0;
        if s1 is Finished {
            lemma_register_finished(events.drop_first());
        } else if s1 is AwaitRollback {
            lemma_register_from_rollback(s1->AwaitRollback_rows, events.drop_first(), i - 1);
        } else {
            lemma_register_from_mail_id(usuario, events.drop_first(), i - 1);
            lemma_register_tail(RegisterState::AwaitProfile { usuario }, events, 1);
            lemma_register_tail(RegisterState::AwaitProfile { usuario }, events, 2);
        }
    }
}

proof fn lemma_register_from_id(usuario: Usuario, perfil: PerfilCrediticio, events: Seq<RegisterEvent>, i: int)
    requires
        register_fits_run(RegisterState::AwaitId { usuario, perfil }, events),
        0 <= i < events.len(),
        is_done(register_run(RegisterState::AwaitId { usuario, perfil }, events)[i]),
    ensures
        events[0] matches RegisterEvent::UserIdFound(id)
            && register_run(RegisterState::AwaitId { usuario, perfil }, events)[0]
                == RegisterActionView::SaveProfile(PerfilCrediticio { fkUsuario: id, ..perfil }),
        events.len() > 4,
        events[1] == RegisterEvent::ProfileSaved(Ok(1)),
        events[2] matches RegisterEvent::MailIdMade(id)
            && is_random_id(id@)
            && register_run(RegisterState::AwaitId { usuario, perfil }, events)[2] == confirmation_store(usuario, id@)
            && register_run(RegisterState::AwaitId { usuario, perfil }, events)[3] == RegisterActionView::SendMail(
                Mail::SignupConfirm(usuario, id),
            ),
        events[3] matches RegisterEvent::MailStored(Ok(_)),
        events[4] == RegisterEvent::MailSent(Ok(())),
{
    lemma_register_run_len(RegisterState::AwaitId { usuario, perfil }, events);
    if i > 0 {
        lemma_register_tail(RegisterState::AwaitId { usuario, perfil }, events, i);
        lemma_register_from_profile(usuario, events.drop_first(), i - 1);
        lemma_register_tail(RegisterState::AwaitId { usuario, perfil }, events, 2);
        lemma_register_tail(RegisterState::AwaitId { usuario, perfil }, events, 3);
    }
}

proof fn lemma_register_from_create(usuario: Usuario, perfil: PerfilCrediticio, events: Seq<RegisterEvent>, i: int)
    requires
        register_fits_run(RegisterState::AwaitCreate { usuario, perfil }, events),
        0 <= i < events.len(),
        is_done(register_run(RegisterState::AwaitCreate { usuario, perfil }, events)[i]),
    ensures
        events[0] == RegisterEvent::UserCreated(Ok(1)),
        events.len() > 5,
        events[1] matches RegisterEvent::UserIdFound(id)
            && register_run(RegisterState::AwaitCreate { usuario, perfil }, events)[1]
                == RegisterActionView::SaveProfile(PerfilCrediticio { fkUsuario: id, ..perfil }),
        events[2] == RegisterEvent::ProfileSaved(Ok(1)),
        events[3] matches RegisterEvent::MailIdMade(id)
            && is_random_id(id@)
            && register_run(RegisterState::AwaitCreate { usuario, perfil }, events)[3] == confirmation_store(usuario, id@)
            && register_run(RegisterState::AwaitCreate { usuario, perfil }, events)[4] == RegisterActionView::SendMail(
                Mail::SignupConfirm(usuario, id),
            ),
        events[4] matches RegisterEvent::MailStored(Ok(_)),
        events[5] == RegisterEvent::MailSent(Ok(())),
{
    if i > 0 {
        lemma_register_tail(RegisterState::AwaitCreate { usuario, perfil }, events, i);
        let s1 = register_step(RegisterState::AwaitCreate { usuario, perfil }, events[0]).0;
        if s1 is Finished {
            lemma_register_finished(events.drop_first());
        } else {
            lemma_register_from_id(usuario, perfil, events.drop_first(), i - 1);
            lemma_register_tail(RegisterState::AwaitCreate { usuario, perfil }, events, 1);
            lemma_register_tail(RegisterState::AwaitCreate { usuario, perfil }, events, 3);
            lemma_register_tail(RegisterState::AwaitCreate { usuario, perfil }, events, 4);
        }
    }
}

proof fn lemma_register_from_hash(account: Usuario, perfil: PerfilCrediticio, events: Seq<RegisterEvent>, i: int)
    requires
        register_fits_run(RegisterState::AwaitHash { usuario: account, perfil }, events),
        0 <= i < events.len(),
        is_done(register_run(RegisterState::AwaitHash { usuario: account, perfil }, events)[i]),
    ensures
        events.len() > 6,
        events[0] matches RegisterEvent::Hashed { salt, usuario: u }
            && events[4] matches RegisterEvent::MailIdMade(id)
            && is_random_id(id@)
            && hashed_with(account, salt@, u)
            && register_run(RegisterState::AwaitHash { usuario: account, perfil }, events)[0] == RegisterActionView::CreateUser(u)
            && register_run(RegisterState::AwaitHash { usuario: account, perfil }, events)[4] == confirmation_store(u, id@)
            && register_run(RegisterState::AwaitHash { usuario: account, perfil }, events)[5] == RegisterActionView::SendMail(
                Mail::SignupConfirm(u, id),
            ),
        events[1] == RegisterEvent::UserCreated(Ok(1)),
        events[2] matches RegisterEvent::UserIdFound(id)
            && register_run(RegisterState::AwaitHash { usuario: account, perfil }, events)[2]
                == RegisterActionView::SaveProfile(PerfilCrediticio { fkUsuario: id, ..perfil }),
        events[3] == RegisterEvent::ProfileSaved(Ok(1)),
        events[5] matches RegisterEvent::MailStored(Ok(_)),
        events[6] == RegisterEvent::MailSent(Ok(())),
{
    lemma_register_run_len(RegisterState::AwaitHash { usuario: account, perfil }, events);
    if i > 0 {
        lemma_register_tail(RegisterState::AwaitHash { usuario: account, perfil }, events, i);
        let u = events[0]->Hashed_usuario;
        lemma_register_from_create(u, perfil, events.drop_first(), i - 1);
        lemma_register_tail(RegisterState::AwaitHash { usuario: account, perfil }, events, 2);
        lemma_register_tail(RegisterState::AwaitHash { usuario: account, perfil }, events, 4);
        lemma_register_tail(RegisterState::AwaitHash { usuario: account, perfil }, events, 5);
    }
}

/// A registration answers `Done` only after the account was written (one
/// row), the credit profile was written (one row) for the id the new
/// account got, exactly as requested but for that id, and that account was kept under the confirmation key of a
/// fresh id and mailed exactly that id. The account written is the one
/// requested with its password hashed (with the salt drawn for it).
pub proof fn law_register_success(events: Seq<RegisterEvent>, i: int)
    requires
        register_fits_run(RegisterState::Start, events),
        0 <= i < events.len(),
        is_done(register_run(RegisterState::Start, events)[i]),
    ensures
        events.len() > 7,
        events[0] matches RegisterEvent::Begin { perfil, .. } && perfil is Some,
        events[0] matches RegisterEvent::Begin { usuario: account, .. }
            && events[1] matches RegisterEvent::Hashed { salt, usuario: u }
            && events[5] matches RegisterEvent::MailIdMade(id)
            && is_random_id(id@)
            && hashed_with(account, salt@, u)
            && register_run(RegisterState::Start, events)[1] == RegisterActionView::CreateUser(u)
            && register_run(RegisterState::Start, events)[5] == confirmation_store(u, id@)
            && register_run(RegisterState::Start, events)[6] == RegisterActionView::SendMail(Mail::SignupConfirm(u, id)),
        events[2] == RegisterEvent::UserCreated(Ok(1)),
        events[3] matches RegisterEvent::UserIdFound(id)
            && register_run(RegisterState::Start, events)[3] matches RegisterActionView::SaveProfile(p)
            && p.fkUsuario == id,
        events[0] matches RegisterEvent::Begin { perfil: Some(requested), .. }
            && events[3] matches RegisterEvent::UserIdFound(id)
            && register_run(RegisterState::Start, events)[3] == RegisterActionView::SaveProfile(
                (PerfilCrediticio { fkUsuario: id, ..requested }),
            ),
        events[4] == RegisterEvent::ProfileSaved(Ok(1)),
        events[6] matches RegisterEvent::MailStored(Ok(_)),
        events[7] == RegisterEvent::MailSent(Ok(())),
{
    if i > 0 {
        lemma_register_tail(RegisterState::Start, events, i);
        let s1 = register_step(RegisterState::Start, events[0]).0;
        if s1 is Finished {
            lemma_register_finished(events.drop_first());
        } else {
            lemma_register_from_hash(s1->AwaitHash_usuario, s1->AwaitHash_perfil, events.drop_first(), i - 1);
            lemma_register_tail(RegisterState::Start, events, 1);
            lemma_register_tail(RegisterState::Start, events, 3);
            lemma_register_tail(RegisterState::Start, events, 5);
            lemma_register_tail(RegisterState::Start, events, 6);
        }
    }
}

/// The events of a registration in which every write and the mail succeed:
/// `hashed` is the account after hashing with `salt`, `id` the id the new
/// account got, `mailId` the fresh confirmation id.
pub open spec fn passing_registration(
    usuario: Usuario,
    perfil: PerfilCrediticio,
    salt: String,
    hashed: Usuario,
    id: i64,
    mailId: String,
) -> Seq<RegisterEvent> {
    seq![
        RegisterEvent::Begin { usuario, perfil: Some(perfil) },
        RegisterEvent::Hashed { salt, usuario: hashed },
        RegisterEvent::UserCreated(Ok(1)),
        RegisterEvent::UserIdFound(id),
        RegisterEvent::ProfileSaved(Ok(1)),
        RegisterEvent::MailIdMade(mailId),
        RegisterEvent::MailStored(Ok(())),
        RegisterEvent::MailSent(Ok(())),
    ]
}

/// A registration with a credit profile and a kind of account in which
/// every write and the mail succeed answers `Done`: the account is written
/// with its password hashed, the profile exactly as requested for the new
/// account's id, and that account is kept under the confirmation key of the
/// fresh id for an hour and mailed that id. Without a profile or a kind of
/// account the request is refused (400) before anything is written.
pub proof fn law_register_completes(
    usuario: Usuario,
    perfil: PerfilCrediticio,
    salt: String,
    hashed: Usuario,
    id: i64,
    mailId: String,
)
    requires
        usuario.tipousuario is Some,
        hashed_with(usuario, salt@, hashed),
        is_random_id(mailId@),
    ensures
        register_fits_run(RegisterState::Start, passing_registration(usuario, perfil, salt, hashed, id, mailId)),
        register_run(RegisterState::Start, passing_registration(usuario, perfil, salt, hashed, id, mailId)) == seq![
            RegisterActionView::HashPassword(usuario),
            RegisterActionView::CreateUser(hashed),
            RegisterActionView::FetchUserId(hashed.nombreusuario@),
            RegisterActionView::SaveProfile((PerfilCrediticio { fkUsuario: id, ..perfil })),
            RegisterActionView::MakeMailId,
            RegisterActionView::StoreUser(confirmation_prefix() + mailId@, hashed, 3600),
            RegisterActionView::SendMail(Mail::SignupConfirm(hashed, mailId)),
            RegisterActionView::Reply(Ok("Done"@)),
        ],
        register_step(RegisterState::Start, RegisterEvent::Begin { usuario, perfil: None }).1
            == RegisterActionView::Reply(Err((BAD_REQUEST, "Credit history has to be provided"@))),
        register_step(
            RegisterState::Start,
            RegisterEvent::Begin { usuario: Usuario { tipousuario: None, ..usuario }, perfil: Some(perfil) },
        ).1 == RegisterActionView::Reply(Err((BAD_REQUEST, "Field TipoUsuario has to be provided."@))),
{
    reveal_with_fuel(register_run, 9);
    reveal_with_fuel(register_fits_run, 9);
    let events = passing_registration(usuario, perfil, salt, hashed, id, mailId);
    assert(register_run(RegisterState::Start, events) =~= seq![
        RegisterActionView::HashPassword(usuario),
        RegisterActionView::CreateUser(hashed),
        RegisterActionView::FetchUserId(hashed.nombreusuario@),
        RegisterActionView::SaveProfile((PerfilCrediticio { fkUsuario: id, ..perfil })),
        RegisterActionView::MakeMailId,
        RegisterActionView::StoreUser(confirmation_prefix() + mailId@, hashed, 3600),
        RegisterActionView::SendMail(Mail::SignupConfirm(hashed, mailId)),
        RegisterActionView::Reply(Ok("Done"@)),
    ]);
}

} // verus!
