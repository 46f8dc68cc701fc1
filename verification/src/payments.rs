//! The payment handler that runs in several steps: recording a payment of a
//! loan.
use vstd::prelude::*;
use crate::errors::{redisRejection, redis_failure_text, RedisFailure, Rejection, INTERNAL_SERVER_ERROR};
use crate::prestamo::{loanRejection, loan_rejection, LoanError, Prestamo};
use crate::prestamo_txn::{txn_outcome, txn_user_outcome, PrestamoTxn};
use crate::redis_server::{sessionIdKey, session_id_prefix};
use crate::routes::{userFetchRejection, user_fetch_rejection};
use crate::usuario::{TipoUsuario, UserError, Usuario};

verus! {

/// Where the recording of a payment stands.
#[derive(Debug)]
pub enum TxnState {
    Start,
    /// Waiting for the user name of the session.
    AwaitSessionUser { txn: PrestamoTxn },
    /// Waiting for the account of the session's user.
    AwaitUser { txn: PrestamoTxn },
    /// Waiting for the loan that `txn` pays.
    AwaitLoan { usuario: Usuario, txn: PrestamoTxn },
    /// Waiting for the payment to be stored.
    AwaitInsert,
    Finished,
}

/// What the recording of a payment learns.
#[derive(Debug)]
pub enum TxnEvent {
    /// The request: the payment, and the session id.
    Begin { txn: PrestamoTxn, sessionId: String },
    SessionUser(Result<String, RedisFailure>),
    UserFound(Result<Usuario, UserError>),
    LoanFound(Result<Prestamo, LoanError>),
    /// The rows stored, or the failure.
    Inserted(Result<u64, LoanError>),
}

/// What the recording of a payment asks for next.
#[derive(Debug)]
pub enum TxnAction {
    /// Read this key.
    FetchSessionUser(String),
    LookupUser(String),
    FetchLoan(i64),
    InsertTxn(PrestamoTxn),
    Reply(Result<String, Rejection>),
}

/// An action, with its texts as sequences.
pub enum TxnActionView {
    FetchSessionUser(Seq<char>),
    LookupUser(Seq<char>),
    FetchLoan(i64),
    InsertTxn(PrestamoTxn),
    Reply(Result<Seq<char>, (u16, Seq<char>)>),
}

impl View for TxnAction {
    type V = TxnActionView;

    open spec fn view(&self) -> TxnActionView {
        match self {
            TxnAction::FetchSessionUser(k) => TxnActionView::FetchSessionUser(k@),
            TxnAction::LookupUser(n) => TxnActionView::LookupUser(n@),
            TxnAction::FetchLoan(id) => TxnActionView::FetchLoan(*id),
            TxnAction::InsertTxn(t) => TxnActionView::InsertTxn(*t),
            TxnAction::Reply(r) => TxnActionView::Reply(
                match r {
                    Ok(s) => Ok(s@),
                    Err(e) => Err(e@),
                },
            ),
        }
    }
}

/// Whether an event is one the recording of a payment waits for in a state.
pub open spec fn txn_fits(s: TxnState, e: TxnEvent) -> bool {
    match (s, e) {
        (TxnState::Start, TxnEvent::Begin { .. }) => true,
        (TxnState::AwaitSessionUser { .. }, TxnEvent::SessionUser(_)) => true,
        (TxnState::AwaitUser { .. }, TxnEvent::UserFound(_)) => true,
        (TxnState::AwaitLoan { .. }, TxnEvent::LoanFound(_)) => true,
        (TxnState::AwaitInsert, TxnEvent::Inserted(_)) => true,
        _ => false,
    }
}

/// One step of recording a payment. The session's account is read; an
/// administrator is refused before the loan is read; then the loan that the
/// payment names is read and `txn_outcome` decides; an accepted payment is
/// stored.
pub open spec fn txn_step(s: TxnState, e: TxnEvent) -> (TxnState, TxnActionView) {
    match (s, e) {
        (TxnState::Start, TxnEvent::Begin { txn, sessionId }) => (
            TxnState::AwaitSessionUser { txn },
            TxnActionView::FetchSessionUser(session_id_prefix() + sessionId@),
        ),
        (TxnState::AwaitSessionUser { txn }, TxnEvent::SessionUser(r)) => match r {
            Err(f) => (TxnState::Finished, TxnActionView::Reply(Err((INTERNAL_SERVER_ERROR, redis_failure_text(f))))),
            Ok(name) => (TxnState::AwaitUser { txn }, TxnActionView::LookupUser(name@)),
        },
        (TxnState::AwaitUser { txn }, TxnEvent::UserFound(r)) => match r {
            Err(e) => (TxnState::Finished, TxnActionView::Reply(Err(user_fetch_rejection(e)))),
            Ok(u) => match txn_user_outcome(u) {
                Err(e) => (TxnState::Finished, TxnActionView::Reply(Err(loan_rejection(e)))),
                Ok(()) => (TxnState::AwaitLoan { usuario: u, txn }, TxnActionView::FetchLoan(txn.fkPrestamo)),
            },
        },
        (TxnState::AwaitLoan { usuario, txn }, TxnEvent::LoanFound(r)) => match r {
            Err(e) => (TxnState::Finished, TxnActionView::Reply(Err(loan_rejection(e)))),
            Ok(loan) => match txn_outcome(usuario, loan) {
                Err(e) => (TxnState::Finished, TxnActionView::Reply(Err(loan_rejection(e)))),
                Ok(()) => (TxnState::AwaitInsert, TxnActionView::InsertTxn(txn)),
            },
        },
        (TxnState::AwaitInsert, TxnEvent::Inserted(r)) => match r {
            Err(e) => (TxnState::Finished, TxnActionView::Reply(Err(loan_rejection(e)))),
            Ok(_) => (TxnState::Finished, TxnActionView::Reply(Ok("Done"@))),
        },
        _ => (TxnState::Finished, TxnActionView::Reply(Err((INTERNAL_SERVER_ERROR, Seq::empty())))),
    }
}

/// One step of recording a payment: the decisions of the `addTxn` handler.
pub fn addTxn(state: TxnState, event: TxnEvent) -> (res: (TxnState, TxnAction))
    requires
        txn_fits(state, event),
    ensures
        (res.0, res.1@) == txn_step(state, event),
{
    match (state, event) {
        (TxnState::Start, TxnEvent::Begin { txn, sessionId }) => {
            let key = sessionIdKey(sessionId.as_str());
            (TxnState::AwaitSessionUser { txn }, TxnAction::FetchSessionUser(key))
        },
        (TxnState::AwaitSessionUser { txn }, TxnEvent::SessionUser(r)) => match r {
            Err(f) => (TxnState::Finished, TxnAction::Reply(Err(redisRejection(&f)))),
            Ok(name) => (TxnState::AwaitUser { txn }, TxnAction::LookupUser(name)),
        },
        (TxnState::AwaitUser { txn }, TxnEvent::UserFound(r)) => match r {
            Err(e) => (TxnState::Finished, TxnAction::Reply(Err(userFetchRejection(&e)))),
            Ok(u) => match PrestamoTxn::authorizeTxnUser(&u) {
                Err(e) => (TxnState::Finished, TxnAction::Reply(Err(loanRejection(&e)))),
                Ok(()) => {
                    let id = txn.fkPrestamo;
                    (TxnState::AwaitLoan { usuario: u, txn }, TxnAction::FetchLoan(id))
                },
            },
        },
        (TxnState::AwaitLoan { usuario, txn }, TxnEvent::LoanFound(r)) => match r {
            Err(e) => (TxnState::Finished, TxnAction::Reply(Err(loanRejection(&e)))),
            Ok(loan) => match txn.addTxn(&usuario, &loan) {
                Err(e) => (TxnState::Finished, TxnAction::Reply(Err(loanRejection(&e)))),
                Ok(()) => (TxnState::AwaitInsert, TxnAction::InsertTxn(txn)),
            },
        },
        (TxnState::AwaitInsert, TxnEvent::Inserted(r)) => match r {
            Err(e) => (TxnState::Finished, TxnAction::Reply(Err(loanRejection(&e)))),
            Ok(_) => (TxnState::Finished, TxnAction::Reply(Ok(String::from_str("Done")))),
        },
        (_, _) => (
            TxnState::Finished,
            TxnAction::Reply(Err(Rejection { status: INTERNAL_SERVER_ERROR, message: String::new() })),
        ),
    }
}

/// The actions of the recording of a payment over a sequence of events.
pub open spec fn txn_run(s: TxnState, events: Seq<TxnEvent>) -> Seq<TxnActionView>
    decreases events.len(),
{
    if events.len() == 0 {
        Seq::empty()
    } else {
        let (s1, a) = txn_step(s, events[0]);
        seq![a] + txn_run(s1, events.drop_first())
    }
}

/// Whether each event of a sequence is one the recording waits for.
pub open spec fn txn_fits_run(s: TxnState, events: Seq<TxnEvent>) -> bool
    decreases events.len(),
{
    events.len() == 0 || (txn_fits(s, events[0]) && txn_fits_run(txn_step(s, events[0]).0, events.drop_first()))
}

/// How many steps a state lies before the one that stores the payment.
spec fn txn_stage(s: TxnState) -> int {
    match s {
        TxnState::Start => 4,
        TxnState::AwaitSessionUser { .. } => 3,
        TxnState::AwaitUser { .. } => 2,
        TxnState::AwaitLoan { .. } => 1,
        TxnState::AwaitInsert => 0,
        TxnState::Finished => -1,
    }
}

proof fn lemma_txn_run_len(s: TxnState, events: Seq<TxnEvent>)
    ensures
        txn_run(s, events).len() == events.len(),
    decreases events.len(),
{
    if events.len() > 0 {
        lemma_txn_run_len(txn_step(s, events[0]).0, events.drop_first());
    }
}

proof fn lemma_txn_tail(s: TxnState, events: Seq<TxnEvent>, i: int)
    requires
        0 < i < events.len(),
        txn_fits_run(s, events),
    ensures
        txn_run(s, events)[i] == txn_run(txn_step(s, events[0]).0, events.drop_first())[i - 1],
        txn_fits_run(txn_step(s, events[0]).0, events.drop_first()),
        txn_fits(s, events[0]),
        !(txn_step(s, events[0]).0 is Finished),
        txn_stage(txn_step(s, events[0]).0) == txn_stage(s) - 1,
{
    lemma_txn_run_len(txn_step(s, events[0]).0, events.drop_first());
    if txn_step(s, events[0]).0 is Finished {
        assert(!txn_fits(TxnState::Finished, events.drop_first()[0]));
    }
}

proof fn lemma_txn_insert_at(s: TxnState, events: Seq<TxnEvent>, i: int, t: PrestamoTxn)
    requires
        txn_fits_run(s, events),
        0 <= i < events.len(),
        txn_run(s, events)[i] == TxnActionView::InsertTxn(t),
    ensures
        i == txn_stage(s) - 1,
    decreases events.len(),
{
    if i > 0 {
        lemma_txn_tail(s, events, i);
        lemma_txn_insert_at(txn_step(s, events[0]).0, events.drop_first(), i - 1, t);
    }
}

/// A payment is stored only as the request gave it, by the session's
/// account, once the loan it pays was read and `txn_outcome` accepts the
/// account for that loan.
pub proof fn law_txn_stored_when_allowed(events: Seq<TxnEvent>, i: int, t: PrestamoTxn)
    requires
        txn_fits_run(TxnState::Start, events),
        0 <= i < events.len(),
        txn_run(TxnState::Start, events)[i] == TxnActionView::InsertTxn(t),
    ensures
        i == 3,
        events[0] matches TxnEvent::Begin { txn, .. }
            && events[2] matches TxnEvent::UserFound(Ok(u))
            && events[3] matches TxnEvent::LoanFound(Ok(loan))
            && t == txn
            && txn_outcome(u, loan) is Ok
            && txn_run(TxnState::Start, events)[2] == TxnActionView::FetchLoan(txn.fkPrestamo),
{
    lemma_txn_insert_at(TxnState::Start, events, i, t);
    let s0 = TxnState::Start;
    lemma_txn_tail(s0, events, 3);
    let s1 = txn_step(s0, events[0]).0;
    let e1 = events.drop_first();
    lemma_txn_tail(s1, e1, 2);
    let s2 = txn_step(s1, e1[0]).0;
    let e2 = e1.drop_first();
    lemma_txn_tail(s2, e2, 1);
    let e3 = e2.drop_first();
    assert(e3[0] == events[3]);
    assert(e2[0] == events[2]);
    assert(e1[0] == events[1]);
    lemma_txn_tail(s0, events, 2);
    lemma_txn_tail(s1, e1, 1);
}

/// Whether an account may record a payment of a loan: no administrator; a
/// lender only on a loan that has a borrower, a borrower only on a loan that
/// has a lender.
pub open spec fn may_pay(u: Usuario, loan: Prestamo) -> bool {
    &&& u.tipousuario != Some(TipoUsuario::Administrador)
    &&& u.tipousuario == Some(TipoUsuario::Prestamista) ==> loan.fkPrestatario is Some
    &&& u.tipousuario == Some(TipoUsuario::Prestatario) ==> loan.fkPrestamista is Some
}

/// Once the loan is read, the payment is stored exactly as the request gave
/// it where the session's account may pay that loan, and refused otherwise;
/// an administrator is refused before the loan is read.
pub proof fn law_txn_recorded_exactly_when_allowed(u: Usuario, txn: PrestamoTxn, loan: Prestamo)
    ensures
        may_pay(u, loan) ==> txn_step(TxnState::AwaitLoan { usuario: u, txn }, TxnEvent::LoanFound(Ok(loan)))
            == (TxnState::AwaitInsert, TxnActionView::InsertTxn(txn)),
        !may_pay(u, loan) ==> (txn_step(TxnState::AwaitLoan { usuario: u, txn }, TxnEvent::LoanFound(Ok(loan))).1
            matches TxnActionView::Reply(r) && r is Err),
        u.tipousuario == Some(TipoUsuario::Administrador) ==> (txn_step(
            TxnState::AwaitUser { txn },
            TxnEvent::UserFound(Ok(u)),
        ).1 matches TxnActionView::Reply(r) && r is Err),
        u.tipousuario != Some(TipoUsuario::Administrador) ==> txn_step(
            TxnState::AwaitUser { txn },
            TxnEvent::UserFound(Ok(u)),
        ) == (TxnState::AwaitLoan { usuario: u, txn }, TxnActionView::FetchLoan(txn.fkPrestamo)),
{
}

/// A payment by an account that may pay the loan, in which the store
/// succeeds, is stored as given and answered `Done`.
pub proof fn law_txn_completes(txn: PrestamoTxn, sessionId: String, name: String, u: Usuario, loan: Prestamo, rows: u64)
    requires
        may_pay(u, loan),
    ensures
        txn_fits_run(
            TxnState::Start,
            seq![
                TxnEvent::Begin { txn, sessionId },
                TxnEvent::SessionUser(Ok(name)),
                TxnEvent::UserFound(Ok(u)),
                TxnEvent::LoanFound(Ok(loan)),
                TxnEvent::Inserted(Ok(rows)),
            ],
        ),
        txn_run(
            TxnState::Start,
            seq![
                TxnEvent::Begin { txn, sessionId },
                TxnEvent::SessionUser(Ok(name)),
                TxnEvent::UserFound(Ok(u)),
                TxnEvent::LoanFound(Ok(loan)),
                TxnEvent::Inserted(Ok(rows)),
            ],
        ) == seq![
            TxnActionView::FetchSessionUser(session_id_prefix() + sessionId@),
            TxnActionView::LookupUser(name@),
            TxnActionView::FetchLoan(txn.fkPrestamo),
            TxnActionView::InsertTxn(txn),
            TxnActionView::Reply(Ok("Done"@)),
        ],
{
    reveal_with_fuel(txn_run, 6);
    reveal_with_fuel(txn_fits_run, 6);
    let events = seq![
        TxnEvent::Begin { txn, sessionId },
        TxnEvent::SessionUser(Ok(name)),
        TxnEvent::UserFound(Ok(u)),
        TxnEvent::LoanFound(Ok(loan)),
        TxnEvent::Inserted(Ok(rows)),
    ];
    assert(txn_run(TxnState::Start, events) =~= seq![
        TxnActionView::FetchSessionUser(session_id_prefix() + sessionId@),
        TxnActionView::LookupUser(name@),
        TxnActionView::FetchLoan(txn.fkPrestamo),
        TxnActionView::InsertTxn(txn),
        TxnActionView::Reply(Ok("Done"@)),
    ]);
}

} // verus!
