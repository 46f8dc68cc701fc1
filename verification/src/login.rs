//! Logging in: find the user, check the password, replace any open session
//! by a new one.
use vstd::prelude::*;
use crate::misc::{is_random_id, Moment};
use crate::errors::{redisRejection, redis_failure_text, RedisFailure, Rejection, FORBIDDEN, INTERNAL_SERVER_ERROR, UNAUTHORIZED};
use crate::redis_server::{sessionUserKey, session_user_prefix};
use crate::session::Session;
use crate::usuario::{pwd_check, userLookupRejection, user_lookup_rejection, UserError, Usuario};

verus! {

/// Where a login stands.
#[derive(Debug)]
pub enum LoginState {
    /// Nothing asked yet.
    Start,
    /// Waiting for the stored account of the user who logs in (`payload`).
    AwaitUser { payload: Usuario },
    /// Waiting for the check of the password of `candidate` against the
    /// stored hash `phc` of `username`.
    AwaitPwd { username: String, candidate: Usuario, phc: String },
    /// Waiting to learn whether `username` has an open session.
    AwaitActive { username: String },
    /// Waiting for the id of the open session of `username`.
    AwaitOldId { username: String },
    /// Waiting for the open session of `username` to be closed.
    AwaitDelete { username: String },
    /// Waiting for a new session of `username`.
    AwaitNew { username: String },
    /// Waiting for the new session to be stored.
    AwaitStore { session: Session },
    /// Answered.
    Finished,
}

/// What a login learns.
#[derive(Debug)]
pub enum LoginEvent {
    /// The login request: user name and password.
    Begin(Usuario),
    /// The stored account, or why it could not be read.
    UserFound(Result<Usuario, UserError>),
    /// Whether the password matched the stored hash.
    PasswordChecked(Result<bool, UserError>),
    /// Whether the user has an open session.
    ActiveSession(bool),
    /// The id of the open session.
    OldSessionId(String),
    /// The open session was closed, or the store failed.
    OldSessionDeleted(Result<(), RedisFailure>),
    /// A fresh session id (`generateRnd(64)`) and the clock's reading.
    SessionMade { id: String, now: Moment },
    /// The new session was stored, or the store failed.
    SessionStored(Result<(), RedisFailure>),
}

/// What a login asks for next.
#[derive(Debug)]
pub enum LoginAction {
    /// Read the account with this user name.
    LookupUser(String),
    /// Check the candidate's password against this PHC string.
    CheckPassword { candidate: Usuario, phc: String },
    /// Ask whether this key exists.
    CheckActiveSession(String),
    /// Read this key.
    FetchSessionId(String),
    /// Close this session.
    DeleteSession(Session),
    /// Draw a fresh session id and read the clock, for a session of this
    /// user name.
    MakeSession(String),
    /// Store this session.
    StoreSession(Session),
    /// Answer: the new session, or a rejection.
    Reply(Result<Session, Rejection>),
}

/// An action, with its texts as sequences; `DeleteSession` gives user name,
/// id and creation date.
pub enum LoginActionView {
    LookupUser(Seq<char>),
    CheckPassword(Usuario, Seq<char>),
    CheckActiveSession(Seq<char>),
    FetchSessionId(Seq<char>),
    DeleteSession(Seq<char>, Seq<char>, Option<Moment>),
    MakeSession(Seq<char>),
    StoreSession(Session),
    Reply(Result<Session, (u16, Seq<char>)>),
}

impl View for LoginAction {
    type V = LoginActionView;

    open spec fn view(&self) -> LoginActionView {
        match self {
            LoginAction::LookupUser(u) => LoginActionView::LookupUser(u@),
            LoginAction::CheckPassword { candidate, phc } => LoginActionView::CheckPassword(*candidate, phc@),
            LoginAction::CheckActiveSession(k) => LoginActionView::CheckActiveSession(k@),
            LoginAction::FetchSessionId(k) => LoginActionView::FetchSessionId(k@),
            LoginAction::DeleteSession(s) => LoginActionView::DeleteSession(s.username@, s.id@, s.creationDate),
            LoginAction::MakeSession(u) => LoginActionView::MakeSession(u@),
            LoginAction::StoreSession(s) => LoginActionView::StoreSession(*s),
            LoginAction::Reply(r) => LoginActionView::Reply(
                match r {
                    Ok(s) => Ok(*s),
                    Err(e) => Err(e@),
                },
            ),
        }
    }
}

/// Whether an event is one the login waits for in a state; a fresh session
/// id has the shape of `generateRnd`'s ids.
pub open spec fn login_fits(s: LoginState, e: LoginEvent) -> bool {
    match (s, e) {
        (LoginState::Start, LoginEvent::Begin(_)) => true,
        (LoginState::AwaitUser { .. }, LoginEvent::UserFound(_)) => true,
        (LoginState::AwaitPwd { candidate, phc, .. }, LoginEvent::PasswordChecked(r)) => r == pwd_check(
            candidate.contrasenna@,
            phc@,
        ),
        (LoginState::AwaitActive { .. }, LoginEvent::ActiveSession(_)) => true,
        (LoginState::AwaitOldId { .. }, LoginEvent::OldSessionId(_)) => true,
        (LoginState::AwaitDelete { .. }, LoginEvent::OldSessionDeleted(_)) => true,
        (LoginState::AwaitNew { .. }, LoginEvent::SessionMade { id, .. }) => is_random_id(id@),
        (LoginState::AwaitStore { .. }, LoginEvent::SessionStored(_)) => true,
        _ => false,
    }
}

/// The answer to a failed password check.
pub open spec fn pwd_check_rejection(e: UserError) -> (u16, Seq<char>) {
    match e {
        UserError::MultithreadError => (INTERNAL_SERVER_ERROR, "There was an error while processing your request"@),
        UserError::DbError(f) => (INTERNAL_SERVER_ERROR, f.text_of()),
    }
}

/// One step of a login. An unknown user or a failed lookup is refused as a
/// lookup failure; an account whose mail is not confirmed is forbidden
/// (403); a wrong password is unauthorized (401); an open session of the
/// user is closed first; then a new session is made, stored and returned.
pub open spec fn login_step(s: LoginState, e: LoginEvent) -> (LoginState, LoginActionView) {
    match (s, e) {
        (LoginState::Start, LoginEvent::Begin(payload)) => (
            LoginState::AwaitUser { payload },
            LoginActionView::LookupUser(payload.nombreusuario@),
        ),
        (LoginState::AwaitUser { payload }, LoginEvent::UserFound(r)) => match r {
            Err(e) => (LoginState::Finished, LoginActionView::Reply(Err(user_lookup_rejection(e)))),
            Ok(user) => if !user.habilitado {
                (
                    LoginState::Finished,
                    LoginActionView::Reply(Err((FORBIDDEN, "User should confirm their email before logging in"@))),
                )
            } else {
                (
                    LoginState::AwaitPwd { username: user.nombreusuario, candidate: payload, phc: user.contrasenna },
                    LoginActionView::CheckPassword(payload, user.contrasenna@),
                )
            },
        },
        (LoginState::AwaitPwd { username, .. }, LoginEvent::PasswordChecked(r)) => match r {
            Err(e) => (LoginState::Finished, LoginActionView::Reply(Err(pwd_check_rejection(e)))),
            Ok(valid) => if !valid {
                (LoginState::Finished, LoginActionView::Reply(Err((UNAUTHORIZED, "Wrong password"@))))
            } else {
                (
                    LoginState::AwaitActive { username },
                    LoginActionView::CheckActiveSession(session_user_prefix() + username@),
                )
            },
        },
        (LoginState::AwaitActive { username }, LoginEvent::ActiveSession(active)) => if active {
            (LoginState::AwaitOldId { username }, LoginActionView::FetchSessionId(session_user_prefix() + username@))
        } else {
            (LoginState::AwaitNew { username }, LoginActionView::MakeSession(username@))
        },
        (LoginState::AwaitOldId { username }, LoginEvent::OldSessionId(id)) => (
            LoginState::AwaitDelete { username },
            LoginActionView::DeleteSession(username@, id@, None),
        ),
        (LoginState::AwaitDelete { username }, LoginEvent::OldSessionDeleted(r)) => match r {
            Err(f) => (
                LoginState::Finished,
                LoginActionView::Reply(Err((INTERNAL_SERVER_ERROR, redis_failure_text(f)))),
            ),
            Ok(()) => (LoginState::AwaitNew { username }, LoginActionView::MakeSession(username@)),
        },
        (LoginState::AwaitNew { username }, LoginEvent::SessionMade { id, now }) => (
            LoginState::AwaitStore { session: Session { username, id, creationDate: Some(now) } },
            LoginActionView::StoreSession(Session { username, id, creationDate: Some(now) }),
        ),
        (LoginState::AwaitStore { session }, LoginEvent::SessionStored(r)) => match r {
            Err(f) => (
                LoginState::Finished,
                LoginActionView::Reply(Err((INTERNAL_SERVER_ERROR, redis_failure_text(f)))),
            ),
            Ok(()) => (LoginState::Finished, LoginActionView::Reply(Ok(session))),
        },
        _ => (LoginState::Finished, LoginActionView::Reply(Err((INTERNAL_SERVER_ERROR, Seq::empty())))),
    }
}

/// One step of logging in: the decisions of the `login` handler.
pub fn login(state: LoginState, event: LoginEvent) -> (res: (LoginState, LoginAction))
    requires
        login_fits(state, event),
    ensures
        (res.0, res.1@) == login_step(state, event),
{
    match (state, event) {
        (LoginState::Start, LoginEvent::Begin(payload)) => {
            let username = payload.nombreusuario.clone();
            (LoginState::AwaitUser { payload }, LoginAction::LookupUser(username))
        },
        (LoginState::AwaitUser { payload }, LoginEvent::UserFound(r)) => match r {
            Err(e) => (LoginState::Finished, LoginAction::Reply(Err(userLookupRejection(&e)))),
            Ok(user) => {
                if !user.habilitado {
                    (
                        LoginState::Finished,
                        LoginAction::Reply(
                            Err(Rejection::new(FORBIDDEN, "User should confirm their email before logging in")),
                        ),
                    )
                } else {
                    let asked = payload.clone();
                    let phc = user.contrasenna.clone();
                    (
                        LoginState::AwaitPwd { username: user.nombreusuario, candidate: payload, phc: user.contrasenna },
                        LoginAction::CheckPassword { candidate: asked, phc },
                    )
                }
            },
        },
        (LoginState::AwaitPwd { username, .. }, LoginEvent::PasswordChecked(r)) => match r {
            Err(UserError::MultithreadError) => (
                LoginState::Finished,
                LoginAction::Reply(
                    Err(Rejection::new(INTERNAL_SERVER_ERROR, "There was an error while processing your request")),
                ),
            ),
            Err(UserError::DbError(f)) => (
                LoginState::Finished,
                LoginAction::Reply(Err(Rejection { status: INTERNAL_SERVER_ERROR, message: f.text() })),
            ),
            Ok(valid) => {
                if !valid {
                    (LoginState::Finished, LoginAction::Reply(Err(Rejection::new(UNAUTHORIZED, "Wrong password"))))
                } else {
                    let key = sessionUserKey(username.as_str());
                    (LoginState::AwaitActive { username }, LoginAction::CheckActiveSession(key))
                }
            },
        },
        (LoginState::AwaitActive { username }, LoginEvent::ActiveSession(active)) => {
            if active {
                let key = sessionUserKey(username.as_str());
                (LoginState::AwaitOldId { username }, LoginAction::FetchSessionId(key))
            } else {
                let name = username.clone();
                (LoginState::AwaitNew { username }, LoginAction::MakeSession(name))
            }
        },
        (LoginState::AwaitOldId { username }, LoginEvent::OldSessionId(id)) => {
            let old = Session { username: username.clone(), id, creationDate: None };
            (LoginState::AwaitDelete { username }, LoginAction::DeleteSession(old))
        },
        (LoginState::AwaitDelete { username }, LoginEvent::OldSessionDeleted(r)) => match r {
            Err(f) => (LoginState::Finished, LoginAction::Reply(Err(redisRejection(&f)))),
            Ok(()) => {
                let name = username.clone();
                (LoginState::AwaitNew { username }, LoginAction::MakeSession(name))
            },
        },
        (LoginState::AwaitNew { username }, LoginEvent::SessionMade { id, now }) => {
            let stored = Session { username: username.clone(), id: id.clone(), creationDate: Some(now) };
            let session = Session { username, id, creationDate: Some(now) };
            (LoginState::AwaitStore { session }, LoginAction::StoreSession(stored))
        },
        (LoginState::AwaitStore { session }, LoginEvent::SessionStored(r)) => match r {
            Err(f) => (LoginState::Finished, LoginAction::Reply(Err(redisRejection(&f)))),
            Ok(()) => (LoginState::Finished, LoginAction::Reply(Ok(session))),
        },
        (_, _) => (LoginState::Finished, LoginAction::Reply(Err(Rejection { status: INTERNAL_SERVER_ERROR, message: String::new() }))),
    }
}

/// The password check of a login: checks the candidate's password against
/// the stored hash (`Usuario::validatePwd`) and takes the `PasswordChecked`
/// event.
pub fn loginWithCheck(state: LoginState) -> (res: (LoginState, LoginAction))
    requires
        state is AwaitPwd,
    ensures
        (res.0, res.1@) == login_step(
            state,
            LoginEvent::PasswordChecked(pwd_check(state->AwaitPwd_candidate.contrasenna@, state->AwaitPwd_phc@)),
        ),
{
    match state {
        LoginState::AwaitPwd { username, candidate, phc } => {
            let r = candidate.validatePwd(phc.clone());
            login(LoginState::AwaitPwd { username, candidate, phc }, LoginEvent::PasswordChecked(r))
        },
        _ => {
            assert(false);
            (LoginState::Finished, LoginAction::MakeSession(String::new()))
        },
    }
}

/// The actions of a login over a sequence of events, from a state.
pub open spec fn login_run(s: LoginState, events: Seq<LoginEvent>) -> Seq<LoginActionView>
    decreases events.len(),
{
    if events.len() == 0 {
        Seq::empty()
    } else {
        let (s1, a) = login_step(s, events[0]);
        seq![a] + login_run(s1, events.drop_first())
    }
}

/// Whether each event of a sequence is one the login waits for.
pub open spec fn login_fits_run(s: LoginState, events: Seq<LoginEvent>) -> bool
    decreases events.len(),
{
    events.len() == 0 || (login_fits(s, events[0]) && login_fits_run(login_step(s, events[0]).0, events.drop_first()))
}

proof fn lemma_login_run_len(s: LoginState, events: Seq<LoginEvent>)
    ensures
        login_run(s, events).len() == events.len(),
    decreases events.len(),
{
    if events.len() > 0 {
        lemma_login_run_len(login_step(s, events[0]).0, events.drop_first());
    }
}

/// Unfolds one step of a run at a later index.
proof fn lemma_login_tail(s: LoginState, events: Seq<LoginEvent>, i: int)
    requires
        0 < i < events.len(),
        login_fits_run(s, events),
    ensures
        login_run(s, events)[i] == login_run(login_step(s, events[0]).0, events.drop_first())[i - 1],
        login_fits_run(login_step(s, events[0]).0, events.drop_first()),
        login_fits(s, events[0]),
{
    lemma_login_run_len(login_step(s, events[0]).0, events.drop_first());
}

/// From a state that waits for the store, a successful answer returns the
/// stored session, at once.
proof fn lemma_login_from_store(session: Session, events: Seq<LoginEvent>, i: int, out: Session)
    requires
        login_fits_run(LoginState::AwaitStore { session }, events),
        0 <= i < events.len(),
        login_run(LoginState::AwaitStore { session }, events)[i] == LoginActionView::Reply(Ok(out)),
    ensures
        out == session,
{
    if i > 0 {
        lemma_login_tail(LoginState::AwaitStore { session }, events, i);
        assert(login_step(LoginState::AwaitStore { session }, events[0]).0 is Finished);
        assert(login_fits_run(LoginState::Finished, events.drop_first()));
        assert(events.drop_first().len() == 0);
    }
}

proof fn lemma_login_from_new(username: String, events: Seq<LoginEvent>, i: int, out: Session)
    requires
        login_fits_run(LoginState::AwaitNew { username }, events),
        0 <= i < events.len(),
        login_run(LoginState::AwaitNew { username }, events)[i] == LoginActionView::Reply(Ok(out)),
    ensures
        out.username == username,
        out.creationDate is Some,
        is_random_id(out.id@),
{
    lemma_login_run_len(LoginState::AwaitNew { username }, events);
    if i > 0 {
        lemma_login_tail(LoginState::AwaitNew { username }, events, i);
        let made = login_step(LoginState::AwaitNew { username }, events[0]).0->AwaitStore_session;
        lemma_login_from_store(made, events.drop_first(), i - 1, out);
    }
}

proof fn lemma_login_from_delete(username: String, events: Seq<LoginEvent>, i: int, out: Session)
    requires
        login_fits_run(LoginState::AwaitDelete { username }, events),
        0 <= i < events.len(),
        login_run(LoginState::AwaitDelete { username }, events)[i] == LoginActionView::Reply(Ok(out)),
    ensures
        out.username@ == username@,
        out.creationDate is Some,
        is_random_id(out.id@),
{
    if i > 0 {
        lemma_login_tail(LoginState::AwaitDelete { username }, events, i);
        let s1 = login_step(LoginState::AwaitDelete { username }, events[0]).0;
        if s1 is Finished {
            assert(events.drop_first().len() == 0);
        } else {
            lemma_login_from_new(username, events.drop_first(), i - 1, out);
        }
    }
}

proof fn lemma_login_from_old_id(username: String, events: Seq<LoginEvent>, i: int, out: Session)
    requires
        login_fits_run(LoginState::AwaitOldId { username }, events),
        0 <= i < events.len(),
        login_run(LoginState::AwaitOldId { username }, events)[i] == LoginActionView::Reply(Ok(out)),
    ensures
        out.username@ == username@,
        out.creationDate is Some,
        is_random_id(out.id@),
{
    if i > 0 {
        lemma_login_tail(LoginState::AwaitOldId { username }, events, i);
        lemma_login_from_delete(username, events.drop_first(), i - 1, out);
    }
}

proof fn lemma_login_from_active(username: String, events: Seq<LoginEvent>, i: int, out: Session)
    requires
        login_fits_run(LoginState::AwaitActive { username }, events),
        0 <= i < events.len(),
        login_run(LoginState::AwaitActive { username }, events)[i] == LoginActionView::Reply(Ok(out)),
    ensures
        out.username@ == username@,
        out.creationDate is Some,
        is_random_id(out.id@),
{
    if i > 0 {
        lemma_login_tail(LoginState::AwaitActive { username }, events, i);
        if events[0] == LoginEvent::ActiveSession(true) {
            lemma_login_from_old_id(username, events.drop_first(), i - 1, out);
        } else {
            lemma_login_from_new(username, events.drop_first(), i - 1, out);
        }
    }
}

proof fn lemma_login_from_pwd(username: String, candidate: Usuario, phc: String, events: Seq<LoginEvent>, i: int, out: Session)
    requires
        login_fits_run(LoginState::AwaitPwd { username, candidate, phc }, events),
        0 <= i < events.len(),
        login_run(LoginState::AwaitPwd { username, candidate, phc }, events)[i] == LoginActionView::Reply(Ok(out)),
    ensures
        events[0] == LoginEvent::PasswordChecked(Ok(true)),
        pwd_check(candidate.contrasenna@, phc@) == Ok::<bool, UserError>(true),
        out.username@ == username@,
        out.creationDate is Some,
        is_random_id(out.id@),
{
    let st = LoginState::AwaitPwd { username, candidate, phc };
    assert(login_fits(st, events[0]));
    if i > 0 {
        lemma_login_tail(st, events, i);
        let s1 = login_step(st, events[0]).0;
        if s1 is Finished {
            assert(events.drop_first().len() == 0);
        } else {
            lemma_login_from_active(username, events.drop_first(), i - 1, out);
        }
    }
}

proof fn lemma_login_from_user(payload: Usuario, events: Seq<LoginEvent>, i: int, out: Session)
    requires
        login_fits_run(LoginState::AwaitUser { payload }, events),
        0 <= i < events.len(),
        login_run(LoginState::AwaitUser { payload }, events)[i] == LoginActionView::Reply(Ok(out)),
    ensures
        events[0] matches LoginEvent::UserFound(Ok(user)) && user.habilitado && out.username@ == user.nombreusuario@
            && pwd_check(payload.contrasenna@, user.contrasenna@) == Ok::<bool, UserError>(true),
        out.creationDate is Some,
        is_random_id(out.id@),
        events.len() > 1 && events[1] == LoginEvent::PasswordChecked(Ok(true)),
{
    if i > 0 {
        lemma_login_tail(LoginState::AwaitUser { payload }, events, i);
        let s1 = login_step(LoginState::AwaitUser { payload }, events[0]).0;
        if s1 is Finished {
            assert(events.drop_first().len() == 0);
        } else {
            let user = events[0]->UserFound_0->Ok_0;
            lemma_login_from_pwd(user.nombreusuario, payload, user.contrasenna, events.drop_first(), i - 1, out);
        }
    }
}

/// A login answers with a session only for a stored account whose mail is
/// confirmed and whose password matched; the session belongs to that
/// account, carries its creation time, and its id has the shape of a
/// random id.
pub proof fn law_login_success(events: Seq<LoginEvent>, i: int, out: Session)
    requires
        login_fits_run(LoginState::Start, events),
        0 <= i < events.len(),
        login_run(LoginState::Start, events)[i] == LoginActionView::Reply(Ok(out)),
    ensures
        events.len() > 2,
        events[0] matches LoginEvent::Begin(payload)
            && events[1] matches LoginEvent::UserFound(Ok(user))
            && user.habilitado
            && out.username@ == user.nombreusuario@
            && pwd_check(payload.contrasenna@, user.contrasenna@) == Ok::<bool, UserError>(true),
        out.creationDate is Some,
        is_random_id(out.id@),
        events[2] == LoginEvent::PasswordChecked(Ok(true)),
{
    if i > 0 {
        lemma_login_tail(LoginState::Start, events, i);
        let payload = events[0]->Begin_0;
        lemma_login_from_user(payload, events.drop_first(), i - 1, out);
    }
}

/// The events of a login that goes through for `payload` and the stored
/// account `user`: the password matches; where `open` is `Some(old)` the
/// user had the open session `old`, which is closed; then the session `id`
/// made at `now` is stored.
pub open spec fn passing_login(payload: Usuario, user: Usuario, open: Option<String>, id: String, now: Moment) -> Seq<LoginEvent> {
    match open {
        None => seq![
            LoginEvent::Begin(payload),
            LoginEvent::UserFound(Ok(user)),
            LoginEvent::PasswordChecked(Ok(true)),
            LoginEvent::ActiveSession(false),
            LoginEvent::SessionMade { id, now },
            LoginEvent::SessionStored(Ok(())),
        ],
        Some(old) => seq![
            LoginEvent::Begin(payload),
            LoginEvent::UserFound(Ok(user)),
            LoginEvent::PasswordChecked(Ok(true)),
            LoginEvent::ActiveSession(true),
            LoginEvent::OldSessionId(old),
            LoginEvent::OldSessionDeleted(Ok(())),
            LoginEvent::SessionMade { id, now },
            LoginEvent::SessionStored(Ok(())),
        ],
    }
}

/// A stored account whose mail is confirmed and whose password matches can
/// log in, whatever else the request holds: its password is checked against
/// the stored hash, an open session of the user is closed first, and the
/// answer is the new session of that user, stored under the fresh id with
/// the clock's reading.
pub proof fn law_login_enabled_account_gets_session(
    payload: Usuario,
    user: Usuario,
    open: Option<String>,
    id: String,
    now: Moment,
)
    requires
        user.habilitado,
        pwd_check(payload.contrasenna@, user.contrasenna@) == Ok::<bool, UserError>(true),
        is_random_id(id@),
    ensures
        login_fits_run(LoginState::Start, passing_login(payload, user, open, id, now)),
        login_run(LoginState::Start, passing_login(payload, user, open, id, now))[1]
            == LoginActionView::CheckPassword(payload, user.contrasenna@),
        open matches Some(old) ==> login_run(LoginState::Start, passing_login(payload, user, open, id, now))[4]
            == LoginActionView::DeleteSession(user.nombreusuario@, old@, None),
        login_run(LoginState::Start, passing_login(payload, user, open, id, now)).last() == LoginActionView::Reply(
            Ok((Session { username: user.nombreusuario, id, creationDate: Some(now) })),
        ),
{
    reveal_with_fuel(login_run, 9);
    reveal_with_fuel(login_fits_run, 9);
    let events = passing_login(payload, user, open, id, now);
    lemma_login_run_len(LoginState::Start, events);
    match open {
        None => {
            assert(events.drop_first().drop_first().drop_first().drop_first().drop_first().drop_first().len() == 0);
        },
        Some(old) => {
            assert(events.drop_first().drop_first().drop_first().drop_first().drop_first().drop_first().drop_first().drop_first().len() == 0);
        },
    }
}

/// A login is refused for a stored account whose mail is not confirmed
/// (403), whatever password is given, and for a password that does not
/// match the stored hash (401); an enabled account's password is checked
/// against its stored hash, whatever the request holds besides.
pub proof fn law_login_refusals(payload: Usuario, user: Usuario, username: String, phc: String)
    ensures
        !user.habilitado ==> login_step(LoginState::AwaitUser { payload }, LoginEvent::UserFound(Ok(user))) == (
            LoginState::Finished,
            LoginActionView::Reply(Err((FORBIDDEN, "User should confirm their email before logging in"@))),
        ),
        user.habilitado ==> login_step(LoginState::AwaitUser { payload }, LoginEvent::UserFound(Ok(user))).1
            == LoginActionView::CheckPassword(payload, user.contrasenna@),
        login_step(
            LoginState::AwaitPwd { username, candidate: payload, phc },
            LoginEvent::PasswordChecked(Ok(false)),
        ) == (LoginState::Finished, LoginActionView::Reply(Err((UNAUTHORIZED, "Wrong password"@)))),
{
}

} // verus!
