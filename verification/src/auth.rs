//! The access guard in front of the API: which requests need a session, and
//! the steps that check one.
use vstd::prelude::*;
use crate::errors::{RedisFailure, Rejection, BAD_REQUEST, INTERNAL_SERVER_ERROR, UNAUTHORIZED};
use crate::misc::{startsWith, starts_with, Moment};
use crate::redis_server::{sessionIdKey, session_id_prefix};
use crate::session::Session;

verus! {

/// Whether a request path is served without a session: registering,
/// logging in, confirming a signup, and restoring a password.
pub open spec fn is_public_path(path: Seq<char>) -> bool {
    ||| starts_with(path, "/auth/register"@)
    ||| starts_with(path, "/auth/login"@)
    ||| starts_with(path, "/auth/confirmUser"@)
    ||| starts_with(path, "/profile/requestRestorePwd"@)
    ||| starts_with(path, "/profile/restorePwd"@)
}

/// Whether a request path is served without a session.
pub fn isPublicPath(path: &str) -> (res: bool)
    ensures
        res == is_public_path(path@),
{
    startsWith(path, "/auth/register") || startsWith(path, "/auth/login") || startsWith(path, "/auth/confirmUser")
        || startsWith(path, "/profile/requestRestorePwd") || startsWith(path, "/profile/restorePwd")
}

/// Where the guard stands while it checks a request.
#[derive(Debug)]
pub enum GuardState {
    /// No request seen yet.
    Start,
    /// Waiting to learn whether the session exists.
    AwaitExists { sessionId: String },
    /// Waiting for the session's time to live.
    AwaitTtl { sessionId: String },
    /// Waiting for the session's user name.
    AwaitUser { sessionId: String },
    /// Waiting for the session's lifetime to be renewed.
    AwaitRefresh,
    /// The request has been forwarded or answered.
    Finished,
}

/// What the guard learns.
#[derive(Debug)]
pub enum GuardEvent {
    /// A request arrives: its path and its `Authorization` header, if any.
    Request { path: String, authorization: Option<String> },
    /// Whether the session's id key exists.
    SessionExists(bool),
    /// The session's time to live in seconds, or the store's failure.
    Ttl(Result<i64, RedisFailure>),
    /// The user name the session belongs to.
    SessionUser(String),
    /// The session's lifetime has been renewed (or the renewal failed; it
    /// does not matter).
    Refreshed,
}

/// What the guard asks for next.
#[derive(Debug)]
pub enum GuardAction {
    /// Let the request through to its handler.
    Forward,
    /// Answer the request with this rejection.
    Reject(Rejection),
    /// Ask whether this key exists.
    CheckSession(String),
    /// Ask for this key's time to live.
    FetchTtl(String),
    /// Read this key.
    FetchUser(String),
    /// Renew the lifetime of this session.
    Refresh(Session),
}

/// The guard's state, with its texts as sequences.
pub enum GuardStateView {
    Start,
    AwaitExists(Seq<char>),
    AwaitTtl(Seq<char>),
    AwaitUser(Seq<char>),
    AwaitRefresh,
    Finished,
}

/// An event, with its texts as sequences.
pub enum GuardEventView {
    Request(Seq<char>, Option<Seq<char>>),
    SessionExists(bool),
    Ttl(Result<int, RedisFailure>),
    SessionUser(Seq<char>),
    Refreshed,
}

/// An action, with its texts as sequences; `Refresh` gives user name, id
/// and creation date.
pub enum GuardActionView {
    Forward,
    Reject(u16, Seq<char>),
    CheckSession(Seq<char>),
    FetchTtl(Seq<char>),
    FetchUser(Seq<char>),
    Refresh(Seq<char>, Seq<char>, Option<Moment>),
}

impl View for GuardState {
    type V = GuardStateView;

    open spec fn view(&self) -> GuardStateView {
        match self {
            GuardState::Start => GuardStateView::Start,
            GuardState::AwaitExists { sessionId } => GuardStateView::AwaitExists(sessionId@),
            GuardState::AwaitTtl { sessionId } => GuardStateView::AwaitTtl(sessionId@),
            GuardState::AwaitUser { sessionId } => GuardStateView::AwaitUser(sessionId@),
            GuardState::AwaitRefresh => GuardStateView::AwaitRefresh,
            GuardState::Finished => GuardStateView::Finished,
        }
    }
}

impl View for GuardEvent {
    type V = GuardEventView;

    open spec fn view(&self) -> GuardEventView {
        match self {
            GuardEvent::Request { path, authorization } => GuardEventView::Request(
                path@,
                match authorization {
                    Some(a) => Some(a@),
                    None => None,
                },
            ),
            GuardEvent::SessionExists(b) => GuardEventView::SessionExists(*b),
            GuardEvent::Ttl(r) => GuardEventView::Ttl(
                match r {
                    Ok(t) => Ok(*t as int),
                    Err(f) => Err(*f),
                },
            ),
            GuardEvent::SessionUser(u) => GuardEventView::SessionUser(u@),
            GuardEvent::Refreshed => GuardEventView::Refreshed,
        }
    }
}

impl View for GuardAction {
    type V = GuardActionView;

    open spec fn view(&self) -> GuardActionView {
        match self {
            GuardAction::Forward => GuardActionView::Forward,
            GuardAction::Reject(r) => GuardActionView::Reject(r.status, r.message@),
            GuardAction::CheckSession(k) => GuardActionView::CheckSession(k@),
            GuardAction::FetchTtl(k) => GuardActionView::FetchTtl(k@),
            GuardAction::FetchUser(k) => GuardActionView::FetchUser(k@),
            GuardAction::Refresh(s) => GuardActionView::Refresh(s.username@, s.id@, s.creationDate),
        }
    }
}

/// Whether an event is one the guard waits for in a state.
pub open spec fn guard_fits(s: GuardStateView, e: GuardEventView) -> bool {
    match (s, e) {
        (GuardStateView::Start, GuardEventView::Request(..)) => true,
        (GuardStateView::AwaitExists(_), GuardEventView::SessionExists(_)) => true,
        (GuardStateView::AwaitTtl(_), GuardEventView::Ttl(_)) => true,
        (GuardStateView::AwaitUser(_), GuardEventView::SessionUser(_)) => true,
        (GuardStateView::AwaitRefresh, GuardEventView::Refreshed) => true,
        _ => false,
    }
}

/// The text the guard answers a failed time-to-live query with.
pub open spec fn ttl_failure_text(f: RedisFailure) -> Seq<char> {
    "Redis error "@ + f.kind@ + "\n"@ + match f.detail {
        Some(d) => d@,
        None => "no further detail was provided"@,
    }
}

/// One step of the guard. A public path is forwarded at once. Otherwise the
/// `Authorization` header is the session id: without it the request is a bad
/// one (400); a session that does not exist (401), whose lifetime cannot be
/// read (500) or is over (401) is refused; a live session is renewed and the
/// request forwarded.
pub open spec fn guard_step(s: GuardStateView, e: GuardEventView) -> (GuardStateView, GuardActionView) {
    match (s, e) {
        (GuardStateView::Start, GuardEventView::Request(path, auth)) => if is_public_path(path) {
            (GuardStateView::Finished, GuardActionView::Forward)
        } else {
            match auth {
                None => (GuardStateView::Finished, GuardActionView::Reject(BAD_REQUEST, "AUTHORIZATION Header is empty"@)),
                Some(id) => (GuardStateView::AwaitExists(id), GuardActionView::CheckSession(session_id_prefix() + id)),
            }
        },
        (GuardStateView::AwaitExists(id), GuardEventView::SessionExists(b)) => if b {
            (GuardStateView::AwaitTtl(id), GuardActionView::FetchTtl(session_id_prefix() + id))
        } else {
            (GuardStateView::Finished, GuardActionView::Reject(UNAUTHORIZED, "AUTHORIZATION Header is invalid"@))
        },
        (GuardStateView::AwaitTtl(id), GuardEventView::Ttl(r)) => match r {
            Err(f) => (GuardStateView::Finished, GuardActionView::Reject(INTERNAL_SERVER_ERROR, ttl_failure_text(f))),
            Ok(t) => if t <= 0 {
                (GuardStateView::Finished, GuardActionView::Reject(UNAUTHORIZED, "Session has already expired"@))
            } else {
                (GuardStateView::AwaitUser(id), GuardActionView::FetchUser(session_id_prefix() + id))
            },
        },
        (GuardStateView::AwaitUser(id), GuardEventView::SessionUser(u)) => (
            GuardStateView::AwaitRefresh,
            GuardActionView::Refresh(u, id, None),
        ),
        (GuardStateView::AwaitRefresh, GuardEventView::Refreshed) => (GuardStateView::Finished, GuardActionView::Forward),
        _ => (GuardStateView::Finished, GuardActionView::Reject(INTERNAL_SERVER_ERROR, Seq::empty())),
    }
}

/// The guard from its first request: `validationLayer` of the API.
pub fn validationLayer(state: GuardState, event: GuardEvent) -> (res: (GuardState, GuardAction))
    requires
        guard_fits(state@, event@),
    ensures
        (res.0@, res.1@) == guard_step(state@, event@),
{
    match (state, event) {
        (GuardState::Start, GuardEvent::Request { path, authorization }) => {
            if isPublicPath(path.as_str()) {
                return (GuardState::Finished, GuardAction::Forward);
            }
            match authorization {
                None => (
                    GuardState::Finished,
                    GuardAction::Reject(Rejection::new(BAD_REQUEST, "AUTHORIZATION Header is empty")),
                ),
                Some(id) => {
                    let key = sessionIdKey(id.as_str());
                    (GuardState::AwaitExists { sessionId: id }, GuardAction::CheckSession(key))
                },
            }
        },
        (GuardState::AwaitExists { sessionId }, GuardEvent::SessionExists(b)) => {
            if b {
                let key = sessionIdKey(sessionId.as_str());
                (GuardState::AwaitTtl { sessionId }, GuardAction::FetchTtl(key))
            } else {
                (
                    GuardState::Finished,
                    GuardAction::Reject(Rejection::new(UNAUTHORIZED, "AUTHORIZATION Header is invalid")),
                )
            }
        },
        (GuardState::AwaitTtl { sessionId }, GuardEvent::Ttl(r)) => {
            match r {
                Err(f) => {
                    let mut message = String::from_str("Redis error ");
                    message.append(f.kind.as_str());
                    message.append("\n");
                    match &f.detail {
                        Some(d) => message.append(d.as_str()),
                        None => message.append("no further detail was provided"),
                    }
                    (GuardState::Finished, GuardAction::Reject(Rejection { status: INTERNAL_SERVER_ERROR, message }))
                },
                Ok(t) => {
                    if t <= 0 {
                        (
                            GuardState::Finished,
                            GuardAction::Reject(Rejection::new(UNAUTHORIZED, "Session has already expired")),
                        )
                    } else {
                        let key = sessionIdKey(sessionId.as_str());
                        (GuardState::AwaitUser { sessionId }, GuardAction::FetchUser(key))
                    }
                },
            }
        },
        (GuardState::AwaitUser { sessionId }, GuardEvent::SessionUser(u)) => {
            (GuardState::AwaitRefresh, GuardAction::Refresh(Session { username: u, id: sessionId, creationDate: None }))
        },
        (GuardState::AwaitRefresh, GuardEvent::Refreshed) => (GuardState::Finished, GuardAction::Forward),
        (_, _) => (
            GuardState::Finished,
            GuardAction::Reject(Rejection { status: INTERNAL_SERVER_ERROR, message: String::new() }),
        ),
    }
}

/// The actions of the guard over a sequence of events, from a state.
pub open spec fn guard_run(s: GuardStateView, events: Seq<GuardEventView>) -> Seq<GuardActionView>
    decreases events.len(),
{
    if events.len() == 0 {
        Seq::empty()
    } else {
        let (s1, a) = guard_step(s, events[0]);
        seq![a] + guard_run(s1, events.drop_first())
    }
}

/// Whether each event of a sequence is one the guard waits for.
pub open spec fn guard_fits_run(s: GuardStateView, events: Seq<GuardEventView>) -> bool
    decreases events.len(),
{
    events.len() == 0 || (guard_fits(s, events[0]) && guard_fits_run(guard_step(s, events[0]).0, events.drop_first()))
}

proof fn lemma_guard_tail(s: GuardStateView, events: Seq<GuardEventView>, i: int)
    requires
        events.len() > 0,
        0 < i < guard_run(s, events).len(),
    ensures
        guard_run(s, events).len() == events.len(),
        guard_run(s, events)[i] == guard_run(guard_step(s, events[0]).0, events.drop_first())[i - 1],
    decreases events.len(),
{
    lemma_guard_run_len(s, events);
}

proof fn lemma_guard_run_len(s: GuardStateView, events: Seq<GuardEventView>)
    ensures
        guard_run(s, events).len() == events.len(),
    decreases events.len(),
{
    if events.len() > 0 {
        lemma_guard_run_len(guard_step(s, events[0]).0, events.drop_first());
    }
}

proof fn lemma_guard_from_finished(events: Seq<GuardEventView>)
    requires
        guard_fits_run(GuardStateView::Finished, events),
    ensures
        events.len() == 0,
{
}

proof fn lemma_guard_from_user(id: Seq<char>, events: Seq<GuardEventView>, i: int)
    requires
        guard_fits_run(GuardStateView::AwaitUser(id), events),
        0 <= i < guard_run(GuardStateView::AwaitUser(id), events).len(),
        guard_run(GuardStateView::AwaitUser(id), events)[i] is Forward,
    ensures
        i == 1,
{
    lemma_guard_run_len(GuardStateView::AwaitUser(id), events);
    if i > 0 {
        lemma_guard_tail(GuardStateView::AwaitUser(id), events, i);
        let rest = events.drop_first();
        lemma_guard_run_len(GuardStateView::AwaitRefresh, rest);
        assert(guard_fits_run(GuardStateView::AwaitRefresh, rest));
        if i > 1 {
            lemma_guard_tail(GuardStateView::AwaitRefresh, rest, i - 1);
            assert(guard_step(GuardStateView::AwaitRefresh, rest[0]).0 == GuardStateView::Finished);
            lemma_guard_from_finished(rest.drop_first());
        }
    }
}

proof fn lemma_guard_from_ttl(id: Seq<char>, events: Seq<GuardEventView>, i: int)
    requires
        guard_fits_run(GuardStateView::AwaitTtl(id), events),
        0 <= i < guard_run(GuardStateView::AwaitTtl(id), events).len(),
        guard_run(GuardStateView::AwaitTtl(id), events)[i] is Forward,
    ensures
        events[0] matches GuardEventView::Ttl(Ok(t)) && t > 0,
        i == 2,
{
    lemma_guard_run_len(GuardStateView::AwaitTtl(id), events);
    let (s1, a) = guard_step(GuardStateView::AwaitTtl(id), events[0]);
    if i > 0 {
        lemma_guard_tail(GuardStateView::AwaitTtl(id), events, i);
        if s1 is Finished {
            lemma_guard_from_finished(events.drop_first());
        } else {
            lemma_guard_from_user(id, events.drop_first(), i - 1);
        }
    }
}

proof fn lemma_guard_from_exists(id: Seq<char>, events: Seq<GuardEventView>, i: int)
    requires
        guard_fits_run(GuardStateView::AwaitExists(id), events),
        0 <= i < guard_run(GuardStateView::AwaitExists(id), events).len(),
        guard_run(GuardStateView::AwaitExists(id), events)[i] is Forward,
    ensures
        events[0] == GuardEventView::SessionExists(true),
        events.len() > 1,
        events[1] matches GuardEventView::Ttl(Ok(t)) && t > 0,
        i == 3,
{
    lemma_guard_run_len(GuardStateView::AwaitExists(id), events);
    let (s1, a) = guard_step(GuardStateView::AwaitExists(id), events[0]);
    if i > 0 {
        lemma_guard_tail(GuardStateView::AwaitExists(id), events, i);
        if s1 is Finished {
            lemma_guard_from_finished(events.drop_first());
        } else {
            lemma_guard_from_ttl(id, events.drop_first(), i - 1);
        }
    }
}

/// A request for a path that is not public is let through only after the
/// session named by its `Authorization` header was found to exist and to
/// have time left to live, and after that session's lifetime was renewed:
/// the guard asks, in this order, whether the session's key exists, for its
/// time to live and for its user, then renews the session of that user and
/// id, and forwards last.
pub proof fn law_guard_forwards_only_live_sessions(events: Seq<GuardEventView>, i: int)
    requires
        guard_fits_run(GuardStateView::Start, events),
        events.len() > 0,
        events[0] matches GuardEventView::Request(path, _) && !is_public_path(path),
        0 <= i < guard_run(GuardStateView::Start, events).len(),
        guard_run(GuardStateView::Start, events)[i] is Forward,
    ensures
        events[0] matches GuardEventView::Request(_, auth) && auth is Some,
        events.len() > 4,
        events[1] == GuardEventView::SessionExists(true),
        events[2] matches GuardEventView::Ttl(Ok(t)) && t > 0,
        i == 4,
        events[0] matches GuardEventView::Request(_, Some(id))
            && events[3] matches GuardEventView::SessionUser(u)
            && guard_run(GuardStateView::Start, events)[0] == GuardActionView::CheckSession(session_id_prefix() + id)
            && guard_run(GuardStateView::Start, events)[1] == GuardActionView::FetchTtl(session_id_prefix() + id)
            && guard_run(GuardStateView::Start, events)[2] == GuardActionView::FetchUser(session_id_prefix() + id)
            && guard_run(GuardStateView::Start, events)[3] == GuardActionView::Refresh(u, id, None),
{
    lemma_guard_run_len(GuardStateView::Start, events);
    let (s1, a) = guard_step(GuardStateView::Start, events[0]);
    if i > 0 {
        lemma_guard_tail(GuardStateView::Start, events, i);
        if s1 is Finished {
            lemma_guard_from_finished(events.drop_first());
        } else {
            let id = s1->AwaitExists_0;
            let e1 = events.drop_first();
            lemma_guard_from_exists(id, e1, i - 1);
            let e2 = e1.drop_first();
            let e3 = e2.drop_first();
            let s2 = guard_step(s1, e1[0]).0;
            let s3 = guard_step(s2, e2[0]).0;
            assert(s2 == GuardStateView::AwaitTtl(id));
            assert(s3 == GuardStateView::AwaitUser(id));
            lemma_guard_tail(GuardStateView::Start, events, 1);
            lemma_guard_tail(GuardStateView::Start, events, 2);
            lemma_guard_tail(GuardStateView::Start, events, 3);
            lemma_guard_tail(s1, e1, 1);
            lemma_guard_tail(s1, e1, 2);
            lemma_guard_tail(s2, e2, 1);
            lemma_guard_run_len(s3, e3);
            assert(guard_fits_run(s1, e1));
            assert(guard_fits_run(s2, e2));
            assert(guard_fits_run(s3, e3));
            assert(guard_fits(s3, e3[0]));
            assert(e3[0] == events[3]);
            assert(e2[0] == events[2]);
            assert(e1[0] == events[1]);
        }
    }
}

/// A request for a path under registering, logging in, confirming a
/// signup or restoring a password is let through in the guard's first step,
/// whatever its `Authorization` header holds: nothing is asked of the store.
pub proof fn law_guard_forwards_public_paths(path: Seq<char>, auth: Option<Seq<char>>)
    requires
        starts_with(path, "/auth/register"@) || starts_with(path, "/auth/login"@) || starts_with(
            path,
            "/auth/confirmUser"@,
        ) || starts_with(path, "/profile/requestRestorePwd"@) || starts_with(path, "/profile/restorePwd"@),
    ensures
        guard_step(GuardStateView::Start, GuardEventView::Request(path, auth)) == (
            GuardStateView::Finished,
            GuardActionView::Forward,
        ),
{
}

/// A request for any other path is never let through in the first step: it
/// is refused (400) without an `Authorization` header, and otherwise the
/// session that header names is looked up.
pub proof fn law_guard_checks_other_paths(path: Seq<char>, auth: Option<Seq<char>>)
    requires
        !starts_with(path, "/auth/register"@),
        !starts_with(path, "/auth/login"@),
        !starts_with(path, "/auth/confirmUser"@),
        !starts_with(path, "/profile/requestRestorePwd"@),
        !starts_with(path, "/profile/restorePwd"@),
    ensures
        auth is None ==> guard_step(GuardStateView::Start, GuardEventView::Request(path, auth)) == (
            GuardStateView::Finished,
            GuardActionView::Reject(BAD_REQUEST, "AUTHORIZATION Header is empty"@),
        ),
        auth matches Some(id) ==> guard_step(GuardStateView::Start, GuardEventView::Request(path, auth)) == (
            GuardStateView::AwaitExists(id),
            GuardActionView::CheckSession(session_id_prefix() + id),
        ),
{
}

/// A request for any other path whose `Authorization` header names a
/// session that exists and has time left to live is let through, after the
/// session of its user is renewed. A session that does not exist, or whose
/// time is over, is refused (401).
pub proof fn law_guard_lets_live_sessions_through(path: Seq<char>, id: Seq<char>, ttl: int, user: Seq<char>)
    requires
        !is_public_path(path),
        ttl > 0,
    ensures
        guard_fits_run(GuardStateView::Start, seq![
                GuardEventView::Request(path, Some(id)),
                GuardEventView::SessionExists(true),
                GuardEventView::Ttl(Ok(ttl)),
                GuardEventView::SessionUser(user),
                GuardEventView::Refreshed,
            ]),
        guard_run(GuardStateView::Start, seq![
                GuardEventView::Request(path, Some(id)),
                GuardEventView::SessionExists(true),
                GuardEventView::Ttl(Ok(ttl)),
                GuardEventView::SessionUser(user),
                GuardEventView::Refreshed,
            ]) == seq![
            GuardActionView::CheckSession(session_id_prefix() + id),
            GuardActionView::FetchTtl(session_id_prefix() + id),
            GuardActionView::FetchUser(session_id_prefix() + id),
            GuardActionView::Refresh(user, id, None),
            GuardActionView::Forward,
        ],
        guard_step(GuardStateView::AwaitExists(id), GuardEventView::SessionExists(false))
            == (GuardStateView::Finished, GuardActionView::Reject(UNAUTHORIZED, "AUTHORIZATION Header is invalid"@)),
        forall|t: int| #![auto] t <= 0 ==> guard_step(GuardStateView::AwaitTtl(id), GuardEventView::Ttl(Ok(t)))
            == (GuardStateView::Finished, GuardActionView::Reject(UNAUTHORIZED, "Session has already expired"@)),
{
    reveal_with_fuel(guard_run, 6);
    reveal_with_fuel(guard_fits_run, 6);
    let events = seq![
                GuardEventView::Request(path, Some(id)),
                GuardEventView::SessionExists(true),
                GuardEventView::Ttl(Ok(ttl)),
                GuardEventView::SessionUser(user),
                GuardEventView::Refreshed,
            ];
    assert(guard_run(GuardStateView::Start, events) =~= seq![
            GuardActionView::CheckSession(session_id_prefix() + id),
            GuardActionView::FetchTtl(session_id_prefix() + id),
            GuardActionView::FetchUser(session_id_prefix() + id),
            GuardActionView::Refresh(user, id, None),
            GuardActionView::Forward,
        ]);
}

} // verus!
