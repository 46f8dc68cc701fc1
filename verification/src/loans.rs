//! The loan handlers that run in several steps: proposing to complete a
//! loan, and creating loan offers and requests.
use vstd::prelude::*;
use crate::errors::{redisRejection, redis_failure_text, RedisFailure, Rejection, INTERNAL_SERVER_ERROR};
use crate::prestamo::{loanRejection, loan_creation, loan_rejection, LoanError, Prestamo};
use crate::prestamo_propuesta::{proposal_outcome, PrestamoPropuesta, ProposalRole};
use crate::redis_server::{sessionIdKey, session_id_prefix};
use crate::routes::{userFetchRejection, user_fetch_rejection};
use crate::mail::{mail_error_text, Mail, MailError};
use crate::misc::Moment;
use crate::usuario::{TipoUsuario, UserError, Usuario};

verus! {

/// Where a proposal to complete a loan stands.
#[derive(Debug)]
pub enum ProposeState {
    Start,
    /// Waiting for the user name of the session.
    AwaitSessionUser { loanId: i64, walletId: Option<String> },
    /// Waiting for the account of the session's user.
    AwaitUser { loanId: i64, walletId: Option<String> },
    /// Waiting for the loan that `usuario` proposes to complete.
    AwaitLoan { usuario: Usuario, loanId: i64, walletId: Option<String> },
    /// Waiting for the proposal by `usuario` to be stored.
    AwaitStore { usuario: Usuario, loanId: i64 },
    /// Waiting for the loan, read again after the proposal was stored.
    AwaitStoredLoan { usuario: Usuario },
    /// Waiting for the account of the creator of the loan `loanId`.
    AwaitCreator { usuario: Usuario, loanId: i64 },
    /// Waiting for the proposal mail to be sent.
    AwaitSend,
    Finished,
}

/// What a proposal to complete a loan learns.
#[derive(Debug)]
pub enum ProposeEvent {
    /// The request: the loan, the wallet that receives the money, and the
    /// session id.
    Begin { loanId: i64, walletId: Option<String>, sessionId: String },
    SessionUser(Result<String, RedisFailure>),
    UserFound(Result<Usuario, UserError>),
    LoanFound(Result<Prestamo, LoanError>),
    Stored(Result<(), LoanError>),
    CreatorFound(Result<Usuario, UserError>),
    MailSent(Result<(), MailError>),
}

/// What a proposal to complete a loan asks for next.
#[derive(Debug)]
pub enum ProposeAction {
    /// Read this key.
    FetchSessionUser(String),
    LookupUser(String),
    FetchLoan(i64),
    /// Store a proposal by the user `fkUsuario` on the loan `fkPrestamo`,
    /// with the wallet where one is given.
    StoreProposal { fkPrestamo: i64, walletId: Option<String>, fkUsuario: i64 },
    /// Read the account with this id.
    LookupCreator(i64),
    SendMail(Mail),
    Reply(Result<String, Rejection>),
}

/// An action, with its texts as sequences.
pub enum ProposeActionView {
    FetchSessionUser(Seq<char>),
    LookupUser(Seq<char>),
    FetchLoan(i64),
    StoreProposal(i64, Option<Seq<char>>, i64),
    LookupCreator(i64),
    SendMail(Mail),
    Reply(Result<Seq<char>, (u16, Seq<char>)>),
}

/// An optional text as an optional sequence.
pub open spec fn opt_text(s: Option<String>) -> Option<Seq<char>> {
    match s {
        Some(t) => Some(t@),
        None => None,
    }
}

impl View for ProposeAction {
    type V = ProposeActionView;

    open spec fn view(&self) -> ProposeActionView {
        match self {
            ProposeAction::FetchSessionUser(k) => ProposeActionView::FetchSessionUser(k@),
            ProposeAction::LookupUser(n) => ProposeActionView::LookupUser(n@),
            ProposeAction::FetchLoan(id) => ProposeActionView::FetchLoan(*id),
            ProposeAction::StoreProposal { fkPrestamo, walletId, fkUsuario } => ProposeActionView::StoreProposal(
                *fkPrestamo,
                opt_text(*walletId),
                *fkUsuario,
            ),
            ProposeAction::LookupCreator(id) => ProposeActionView::LookupCreator(*id),
            ProposeAction::SendMail(m) => ProposeActionView::SendMail(*m),
            ProposeAction::Reply(r) => ProposeActionView::Reply(
                match r {
                    Ok(s) => Ok(s@),
                    Err(e) => Err(e@),
                },
            ),
        }
    }
}

/// The account that created a loan: the lender where there is one, else the
/// borrower; `None` for a loan with neither.
pub open spec fn creator_of(loan: Prestamo) -> Option<i64> {
    match loan.fkPrestamista {
        Some(l) => Some(l),
        None => loan.fkPrestatario,
    }
}

/// Whether an event is one the proposal waits for in a state.
pub open spec fn propose_fits(s: ProposeState, e: ProposeEvent) -> bool {
    match (s, e) {
        (ProposeState::Start, ProposeEvent::Begin { .. }) => true,
        (ProposeState::AwaitSessionUser { .. }, ProposeEvent::SessionUser(_)) => true,
        (ProposeState::AwaitUser { .. }, ProposeEvent::UserFound(_)) => true,
        (ProposeState::AwaitLoan { .. }, ProposeEvent::LoanFound(_)) => true,
        (ProposeState::AwaitStore { .. }, ProposeEvent::Stored(_)) => true,
        (ProposeState::AwaitStoredLoan { .. }, ProposeEvent::LoanFound(_)) => true,
        (ProposeState::AwaitCreator { .. }, ProposeEvent::CreatorFound(_)) => true,
        (ProposeState::AwaitSend, ProposeEvent::MailSent(_)) => true,
        _ => false,
    }
}

/// One step of a proposal to complete a loan. The session's user is read;
/// the loan is read and the proposal decided (`proposal_outcome`); an
/// accepted proposal is stored, with the wallet only for a borrower; the loan
/// is read again, its creator (the lender where there is one, else the
/// borrower; a loan with neither is a fault of the server, 500) looked up and
/// sent a mail that names the proposer and the loan; `Done` comes once the
/// mail is sent, else 500 with the mail error's text.
pub open spec fn propose_step(s: ProposeState, e: ProposeEvent) -> (ProposeState, ProposeActionView) {
    match (s, e) {
        (ProposeState::Start, ProposeEvent::Begin { loanId, walletId, sessionId }) => (
            ProposeState::AwaitSessionUser { loanId, walletId },
            ProposeActionView::FetchSessionUser(session_id_prefix() + sessionId@),
        ),
        (ProposeState::AwaitSessionUser { loanId, walletId }, ProposeEvent::SessionUser(r)) => match r {
            Err(f) => (ProposeState::Finished, ProposeActionView::Reply(Err((INTERNAL_SERVER_ERROR, redis_failure_text(f))))),
            Ok(name) => (ProposeState::AwaitUser { loanId, walletId }, ProposeActionView::LookupUser(name@)),
        },
        (ProposeState::AwaitUser { loanId, walletId }, ProposeEvent::UserFound(r)) => match r {
            Err(e) => (ProposeState::Finished, ProposeActionView::Reply(Err(user_fetch_rejection(e)))),
            Ok(u) => (ProposeState::AwaitLoan { usuario: u, loanId, walletId }, ProposeActionView::FetchLoan(loanId)),
        },
        (ProposeState::AwaitLoan { usuario, loanId, walletId }, ProposeEvent::LoanFound(r)) => match r {
            Err(e) => (ProposeState::Finished, ProposeActionView::Reply(Err(loan_rejection(e)))),
            Ok(loan) => match proposal_outcome(usuario, loan) {
                Err(e) => (ProposeState::Finished, ProposeActionView::Reply(Err(loan_rejection(e)))),
                Ok(ProposalRole::Lender) => (
                    ProposeState::AwaitStore { usuario, loanId },
                    ProposeActionView::StoreProposal(loanId, None, usuario.id),
                ),
                Ok(ProposalRole::Borrower) => (
                    ProposeState::AwaitStore { usuario, loanId },
                    ProposeActionView::StoreProposal(loanId, opt_text(walletId), usuario.id),
                ),
            },
        },
        (ProposeState::AwaitStore { usuario, loanId }, ProposeEvent::Stored(r)) => match r {
            Err(e) => (ProposeState::Finished, ProposeActionView::Reply(Err(loan_rejection(e)))),
            Ok(()) => (ProposeState::AwaitStoredLoan { usuario }, ProposeActionView::FetchLoan(loanId)),
        },
        (ProposeState::AwaitStoredLoan { usuario }, ProposeEvent::LoanFound(r)) => match r {
            Err(e) => (ProposeState::Finished, ProposeActionView::Reply(Err(loan_rejection(e)))),
            Ok(loan) => match creator_of(loan) {
                Some(c) => (ProposeState::AwaitCreator { usuario, loanId: loan.id }, ProposeActionView::LookupCreator(c)),
                None => (
                    ProposeState::Finished,
                    ProposeActionView::Reply(Err((INTERNAL_SERVER_ERROR, "This should not have happened."@))),
                ),
            },
        },
        (ProposeState::AwaitCreator { usuario, loanId }, ProposeEvent::CreatorFound(r)) => match r {
            Err(e) => (ProposeState::Finished, ProposeActionView::Reply(Err(user_fetch_rejection(e)))),
            Ok(creator) => (ProposeState::AwaitSend, ProposeActionView::SendMail(Mail::LoanProposal(creator, usuario, loanId))),
        },
        (ProposeState::AwaitSend, ProposeEvent::MailSent(r)) => match r {
            Err(e) => (ProposeState::Finished, ProposeActionView::Reply(Err((INTERNAL_SERVER_ERROR, mail_error_text(e))))),
            Ok(()) => (ProposeState::Finished, ProposeActionView::Reply(Ok("Done"@))),
        },
        _ => (ProposeState::Finished, ProposeActionView::Reply(Err((INTERNAL_SERVER_ERROR, Seq::empty())))),
    }
}

/// One step of proposing to complete a loan: the decisions of the
/// `proposeCompleteLoan` handler.
pub fn proposeCompleteLoan(state: ProposeState, event: ProposeEvent) -> (res: (ProposeState, ProposeAction))
    requires
        propose_fits(state, event),
    ensures
        (res.0, res.1@) == propose_step(state, event),
{
    match (state, event) {
        (ProposeState::Start, ProposeEvent::Begin { loanId, walletId, sessionId }) => {
            let key = sessionIdKey(sessionId.as_str());
            (ProposeState::AwaitSessionUser { loanId, walletId }, ProposeAction::FetchSessionUser(key))
        },
        (ProposeState::AwaitSessionUser { loanId, walletId }, ProposeEvent::SessionUser(r)) => match r {
            Err(f) => (ProposeState::Finished, ProposeAction::Reply(Err(redisRejection(&f)))),
            Ok(name) => (ProposeState::AwaitUser { loanId, walletId }, ProposeAction::LookupUser(name)),
        },
        (ProposeState::AwaitUser { loanId, walletId }, ProposeEvent::UserFound(r)) => match r {
            Err(e) => (ProposeState::Finished, ProposeAction::Reply(Err(userFetchRejection(&e)))),
            Ok(u) => (ProposeState::AwaitLoan { usuario: u, loanId, walletId }, ProposeAction::FetchLoan(loanId)),
        },
        (ProposeState::AwaitLoan { usuario, loanId, walletId }, ProposeEvent::LoanFound(r)) => match r {
            Err(e) => (ProposeState::Finished, ProposeAction::Reply(Err(loanRejection(&e)))),
            Ok(loan) => match PrestamoPropuesta::proposeCompleteLoan(&usuario, &loan) {
                Err(e) => (ProposeState::Finished, ProposeAction::Reply(Err(loanRejection(&e)))),
                Ok(ProposalRole::Lender) => {
                    let id = usuario.id;
                    (
                        ProposeState::AwaitStore { usuario, loanId },
                        ProposeAction::StoreProposal { fkPrestamo: loanId, walletId: None, fkUsuario: id },
                    )
                },
                Ok(ProposalRole::Borrower) => {
                    let id = usuario.id;
                    (
                        ProposeState::AwaitStore { usuario, loanId },
                        ProposeAction::StoreProposal { fkPrestamo: loanId, walletId, fkUsuario: id },
                    )
                },
            },
        },
        (ProposeState::AwaitStore { usuario, loanId }, ProposeEvent::Stored(r)) => match r {
            Err(e) => (ProposeState::Finished, ProposeAction::Reply(Err(loanRejection(&e)))),
            Ok(()) => (ProposeState::AwaitStoredLoan { usuario }, ProposeAction::FetchLoan(loanId)),
        },
        (ProposeState::AwaitStoredLoan { usuario }, ProposeEvent::LoanFound(r)) => match r {
            Err(e) => (ProposeState::Finished, ProposeAction::Reply(Err(loanRejection(&e)))),
            Ok(loan) => match loan.loanCreatorId() {
                Some(creator) => (
                    ProposeState::AwaitCreator { usuario, loanId: loan.id },
                    ProposeAction::LookupCreator(creator),
                ),
                None => (
                    ProposeState::Finished,
                    ProposeAction::Reply(Err(Rejection::new(INTERNAL_SERVER_ERROR, "This should not have happened."))),
                ),
            },
        },
        (ProposeState::AwaitCreator { usuario, loanId }, ProposeEvent::CreatorFound(r)) => match r {
            Err(e) => (ProposeState::Finished, ProposeAction::Reply(Err(userFetchRejection(&e)))),
            Ok(creator) => (ProposeState::AwaitSend, ProposeAction::SendMail(Mail::LoanProposal(creator, usuario, loanId))),
        },
        (ProposeState::AwaitSend, ProposeEvent::MailSent(r)) => match r {
            Err(e) => (
                ProposeState::Finished,
                ProposeAction::Reply(Err(Rejection { status: INTERNAL_SERVER_ERROR, message: e.message() })),
            ),
            Ok(()) => (ProposeState::Finished, ProposeAction::Reply(Ok(String::from_str("Done")))),
        },
        (_, _) => (
            ProposeState::Finished,
            ProposeAction::Reply(Err(Rejection { status: INTERNAL_SERVER_ERROR, message: String::new() })),
        ),
    }
}

/// The actions of a proposal over a sequence of events, from a state.
pub open spec fn propose_run(s: ProposeState, events: Seq<ProposeEvent>) -> Seq<ProposeActionView>
    decreases events.len(),
{
    if events.len() == 0 {
        Seq::empty()
    } else {
        let (s1, a) = propose_step(s, events[0]);
        seq![a] + propose_run(s1, events.drop_first())
    }
}

/// Whether each event of a sequence is one the proposal waits for.
pub open spec fn propose_fits_run(s: ProposeState, events: Seq<ProposeEvent>) -> bool
    decreases events.len(),
{
    events.len() == 0 || (propose_fits(s, events[0]) && propose_fits_run(propose_step(s, events[0]).0, events.drop_first()))
}

/// How many steps a state lies before the last one, which answers `Done`.
spec fn propose_stage(s: ProposeState) -> int {
    match s {
        ProposeState::Start => 7,
        ProposeState::AwaitSessionUser { .. } => 6,
        ProposeState::AwaitUser { .. } => 5,
        ProposeState::AwaitLoan { .. } => 4,
        ProposeState::AwaitStore { .. } => 3,
        ProposeState::AwaitStoredLoan { .. } => 2,
        ProposeState::AwaitCreator { .. } => 1,
        ProposeState::AwaitSend => 0,
        ProposeState::Finished => -1,
    }
}

proof fn lemma_propose_run_len(s: ProposeState, events: Seq<ProposeEvent>)
    ensures
        propose_run(s, events).len() == events.len(),
    decreases events.len(),
{
    if events.len() > 0 {
        lemma_propose_run_len(propose_step(s, events[0]).0, events.drop_first());
    }
}

proof fn lemma_propose_tail(s: ProposeState, events: Seq<ProposeEvent>, i: int)
    requires
        0 < i < events.len(),
        propose_fits_run(s, events),
    ensures
        propose_run(s, events)[i] == propose_run(propose_step(s, events[0]).0, events.drop_first())[i - 1],
        propose_fits_run(propose_step(s, events[0]).0, events.drop_first()),
        propose_fits(s, events[0]),
        !(propose_step(s, events[0]).0 is Finished),
{
    lemma_propose_run_len(propose_step(s, events[0]).0, events.drop_first());
    if propose_step(s, events[0]).0 is Finished {
        assert(!propose_fits(ProposeState::Finished, events.drop_first()[0]));
    }
}

/// Each step that does not finish leads one stage on.
proof fn lemma_propose_stage_step(s: ProposeState, e: ProposeEvent)
    requires
        propose_fits(s, e),
        !(propose_step(s, e).0 is Finished),
    ensures
        propose_stage(propose_step(s, e).0) == propose_stage(s) - 1,
{
}

proof fn lemma_propose_store_at(s: ProposeState, events: Seq<ProposeEvent>, i: int, l: i64, w: Option<Seq<char>>, uid: i64)
    requires
        propose_fits_run(s, events),
        0 <= i < events.len(),
        propose_run(s, events)[i] == ProposeActionView::StoreProposal(l, w, uid),
    ensures
        i == propose_stage(s) - 4,
    decreases events.len(),
{
    if i > 0 {
        lemma_propose_tail(s, events, i);
        lemma_propose_stage_step(s, events[0]);
        lemma_propose_store_at(propose_step(s, events[0]).0, events.drop_first(), i - 1, l, w, uid);
    }
}

proof fn lemma_propose_done_at(s: ProposeState, events: Seq<ProposeEvent>, i: int)
    requires
        propose_fits_run(s, events),
        0 <= i < events.len(),
        propose_run(s, events)[i] matches ProposeActionView::Reply(Ok(_)),
    ensures
        i == propose_stage(s),
    decreases events.len(),
{
    if i > 0 {
        lemma_propose_tail(s, events, i);
        lemma_propose_stage_step(s, events[0]);
        lemma_propose_done_at(propose_step(s, events[0]).0, events.drop_first(), i - 1);
    }
}

/// A proposal is stored only for the session's account, on the loan that
/// the request names, when the rules accept it for that loan as read
/// (`proposal_outcome`); the wallet is stored only with a borrower's
/// proposal.
pub proof fn law_proposal_stored_when_accepted(
    events: Seq<ProposeEvent>,
    i: int,
    l: i64,
    w: Option<Seq<char>>,
    uid: i64,
)
    requires
        propose_fits_run(ProposeState::Start, events),
        0 <= i < events.len(),
        propose_run(ProposeState::Start, events)[i] == ProposeActionView::StoreProposal(l, w, uid),
    ensures
        i == 3,
        events[0] matches ProposeEvent::Begin { loanId, walletId, .. }
            && events[2] matches ProposeEvent::UserFound(Ok(u))
            && events[3] matches ProposeEvent::LoanFound(Ok(loan))
            && l == loanId && uid == u.id
            && proposal_outcome(u, loan) is Ok
            && w == (if proposal_outcome(u, loan) == Ok::<ProposalRole, LoanError>(ProposalRole::Borrower) {
                opt_text(walletId)
            } else {
                None
            }),
        propose_run(ProposeState::Start, events)[2] == ProposeActionView::FetchLoan(l),
{
    lemma_propose_store_at(ProposeState::Start, events, i, l, w, uid);
    let s0 = ProposeState::Start;
    lemma_propose_tail(s0, events, 3);
    let s1 = propose_step(s0, events[0]).0;
    let e1 = events.drop_first();
    lemma_propose_tail(s1, e1, 2);
    let s2 = propose_step(s1, e1[0]).0;
    let e2 = e1.drop_first();
    lemma_propose_tail(s2, e2, 1);
    let s3 = propose_step(s2, e2[0]).0;
    let e3 = e2.drop_first();
    assert(e3[0] == events[3]);
    assert(e2[0] == events[2]);
    assert(e1[0] == events[1]);
    lemma_propose_tail(s0, events, 2);
    lemma_propose_tail(s1, e1, 1);
}

/// A proposal is answered `Done` only after it was stored, the loan read
/// again, its creator (lender, else borrower) found and sent the mail that
/// names the proposing account and the loan.
pub proof fn law_proposal_done_after_store(events: Seq<ProposeEvent>, i: int)
    requires
        propose_fits_run(ProposeState::Start, events),
        0 <= i < events.len(),
        propose_run(ProposeState::Start, events)[i] matches ProposeActionView::Reply(Ok(_)),
    ensures
        i == 7,
        propose_run(ProposeState::Start, events)[3] is StoreProposal,
        events[4] matches ProposeEvent::Stored(Ok(_)),
        events[2] matches ProposeEvent::UserFound(Ok(u))
            && events[5] matches ProposeEvent::LoanFound(Ok(loan))
            && events[6] matches ProposeEvent::CreatorFound(Ok(c))
            && creator_of(loan) matches Some(cid)
            && propose_run(ProposeState::Start, events)[5] == ProposeActionView::LookupCreator(cid)
            && propose_run(ProposeState::Start, events)[6] == ProposeActionView::SendMail(Mail::LoanProposal(c, u, loan.id)),
        events[7] matches ProposeEvent::MailSent(Ok(_)),
{
    lemma_propose_done_at(ProposeState::Start, events, i);
    let s0 = ProposeState::Start;
    lemma_propose_tail(s0, events, 7);
    let s1 = propose_step(s0, events[0]).0;
    let e1 = events.drop_first();
    lemma_propose_tail(s1, e1, 6);
    let s2 = propose_step(s1, e1[0]).0;
    let e2 = e1.drop_first();
    lemma_propose_tail(s2, e2, 5);
    let s3 = propose_step(s2, e2[0]).0;
    let e3 = e2.drop_first();
    lemma_propose_tail(s3, e3, 4);
    let s4 = propose_step(s3, e3[0]).0;
    let e4 = e3.drop_first();
    lemma_propose_tail(s4, e4, 3);
    let s5 = propose_step(s4, e4[0]).0;
    let e5 = e4.drop_first();
    lemma_propose_tail(s5, e5, 2);
    let s6 = propose_step(s5, e5[0]).0;
    let e6 = e5.drop_first();
    lemma_propose_tail(s6, e6, 1);
    let s7 = propose_step(s6, e6[0]).0;
    let e7 = e6.drop_first();
    lemma_propose_run_len(s7, e7);
    assert(e7[0] == events[7]);
    assert(e6[0] == events[6]);
    assert(e5[0] == events[5]);
    assert(e4[0] == events[4]);
    assert(e3[0] == events[3]);
    assert(e2[0] == events[2]);
    lemma_propose_tail(s0, events, 3);
    lemma_propose_tail(s1, e1, 2);
    lemma_propose_tail(s2, e2, 1);
    lemma_propose_tail(s0, events, 6);
    lemma_propose_tail(s1, e1, 5);
    lemma_propose_tail(s2, e2, 4);
    lemma_propose_tail(s3, e3, 3);
    lemma_propose_tail(s4, e4, 2);
    lemma_propose_tail(s5, e5, 1);
}

/// Where the creation of a loan offer or request stands.
#[derive(Debug)]
pub enum CreateLoanState {
    Start,
    /// Waiting for the user name of the session.
    AwaitSessionUser { loan: Prestamo },
    /// Waiting for the account of the session's user.
    AwaitUser { loan: Prestamo },
    /// Waiting for the loan to be stored.
    AwaitInsert,
    Finished,
}

/// What the creation of a loan learns.
#[derive(Debug)]
pub enum CreateLoanEvent {
    /// The request: the loan as given, and the session id.
    Begin { loan: Prestamo, sessionId: String },
    SessionUser(Result<String, RedisFailure>),
    UserFound(Result<Usuario, UserError>),
    Inserted(Result<(), LoanError>),
}

/// What the creation of a loan asks for next.
#[derive(Debug)]
pub enum CreateLoanAction {
    /// Read this key.
    FetchSessionUser(String),
    LookupUser(String),
    /// Store the loan, dated, with the account `creatorId` as its lender (an
    /// offer) or its borrower (a request) and no other party.
    InsertLoan { loan: Prestamo, creatorId: i64 },
    Reply(Result<String, Rejection>),
}

/// An action, with its texts as sequences.
pub enum CreateLoanActionView {
    FetchSessionUser(Seq<char>),
    LookupUser(Seq<char>),
    InsertLoan(Prestamo, i64),
    Reply(Result<Seq<char>, (u16, Seq<char>)>),
}

impl View for CreateLoanAction {
    type V = CreateLoanActionView;

    open spec fn view(&self) -> CreateLoanActionView {
        match self {
            CreateLoanAction::FetchSessionUser(k) => CreateLoanActionView::FetchSessionUser(k@),
            CreateLoanAction::LookupUser(n) => CreateLoanActionView::LookupUser(n@),
            CreateLoanAction::InsertLoan { loan, creatorId } => CreateLoanActionView::InsertLoan(*loan, *creatorId),
            CreateLoanAction::Reply(r) => CreateLoanActionView::Reply(
                match r {
                    Ok(s) => Ok(s@),
                    Err(e) => Err(e@),
                },
            ),
        }
    }
}

/// Whether an event is one the creation of a loan waits for in a state.
pub open spec fn create_loan_fits(s: CreateLoanState, e: CreateLoanEvent) -> bool {
    match (s, e) {
        (CreateLoanState::Start, CreateLoanEvent::Begin { .. }) => true,
        (CreateLoanState::AwaitSessionUser { .. }, CreateLoanEvent::SessionUser(_)) => true,
        (CreateLoanState::AwaitUser { .. }, CreateLoanEvent::UserFound(_)) => true,
        (CreateLoanState::AwaitInsert, CreateLoanEvent::Inserted(_)) => true,
        _ => false,
    }
}

/// A loan as created by the account `creator` in `role` at `now`: dated
/// `now`, with the creator as its only party (lender of an offer, borrower of
/// a request), whatever parties the request named.
pub open spec fn created_loan(role: TipoUsuario, loan: Prestamo, now: Moment, creator: i64) -> Prestamo {
    Prestamo {
        fechaCreacion: now,
        fkPrestamista: if role == TipoUsuario::Prestamista { Some(creator) } else { None },
        fkPrestatario: if role == TipoUsuario::Prestatario { Some(creator) } else { None },
        ..loan
    }
}

/// One step of creating a loan in `role` (lender for offers, borrower for
/// requests), where the clock reads `now`. The session's account is
/// read; the rules of `loan_creation` decide; an accepted loan is dated
/// `now` and stored with the account as its creator.
pub open spec fn create_loan_step(role: TipoUsuario, s: CreateLoanState, e: CreateLoanEvent, now: Moment) -> (
    CreateLoanState,
    CreateLoanActionView,
) {
    match (s, e) {
        (CreateLoanState::Start, CreateLoanEvent::Begin { loan, sessionId }) => (
            CreateLoanState::AwaitSessionUser { loan },
            CreateLoanActionView::FetchSessionUser(session_id_prefix() + sessionId@),
        ),
        (CreateLoanState::AwaitSessionUser { loan }, CreateLoanEvent::SessionUser(r)) => match r {
            Err(f) => (CreateLoanState::Finished, CreateLoanActionView::Reply(Err((INTERNAL_SERVER_ERROR, redis_failure_text(f))))),
            Ok(name) => (CreateLoanState::AwaitUser { loan }, CreateLoanActionView::LookupUser(name@)),
        },
        (CreateLoanState::AwaitUser { loan }, CreateLoanEvent::UserFound(r)) => match r {
            Err(e) => (CreateLoanState::Finished, CreateLoanActionView::Reply(Err(user_fetch_rejection(e)))),
            Ok(u) => match loan_creation(u.tipousuario, role, now.secs as int, loan.plazoPago as int) {
                Err(e) => (CreateLoanState::Finished, CreateLoanActionView::Reply(Err(loan_rejection(e)))),
                Ok(()) => (
                    CreateLoanState::AwaitInsert,
                    CreateLoanActionView::InsertLoan(created_loan(role, loan, now, u.id), u.id),
                ),
            },
        },
        (CreateLoanState::AwaitInsert, CreateLoanEvent::Inserted(r)) => match r {
            Err(e) => (CreateLoanState::Finished, CreateLoanActionView::Reply(Err(loan_rejection(e)))),
            Ok(()) => (CreateLoanState::Finished, CreateLoanActionView::Reply(Ok("Done"@))),
        },
        _ => (CreateLoanState::Finished, CreateLoanActionView::Reply(Err((INTERNAL_SERVER_ERROR, Seq::empty())))),
    }
}

fn create_loan(role: TipoUsuario, state: CreateLoanState, event: CreateLoanEvent) -> (res: (CreateLoanState, CreateLoanAction))
    requires
        role == TipoUsuario::Prestamista || role == TipoUsuario::Prestatario,
        create_loan_fits(state, event),
    ensures
        exists|now: Moment| (res.0, res.1@) == #[trigger] create_loan_step(role, state, event, now),
{
    let ghost s0 = state;
    let ghost e0 = event;
    match (state, event) {
        (CreateLoanState::Start, CreateLoanEvent::Begin { loan, sessionId }) => {
            let key = sessionIdKey(sessionId.as_str());
            let res = (CreateLoanState::AwaitSessionUser { loan }, CreateLoanAction::FetchSessionUser(key));
            assert((res.0, res.1@) == create_loan_step(role, s0, e0, Moment { secs: 0, nanos: 0 }));
            res
        },
        (CreateLoanState::AwaitSessionUser { loan }, CreateLoanEvent::SessionUser(r)) => {
            let res = match r {
                Err(f) => (CreateLoanState::Finished, CreateLoanAction::Reply(Err(redisRejection(&f)))),
                Ok(name) => (CreateLoanState::AwaitUser { loan }, CreateLoanAction::LookupUser(name)),
            };
            assert((res.0, res.1@) == create_loan_step(role, s0, e0, Moment { secs: 0, nanos: 0 }));
            res
        },
        (CreateLoanState::AwaitUser { loan }, CreateLoanEvent::UserFound(r)) => match r {
            Err(e) => {
                let res = (CreateLoanState::Finished, CreateLoanAction::Reply(Err(userFetchRejection(&e))));
                assert((res.0, res.1@) == create_loan_step(role, s0, e0, Moment { secs: 0, nanos: 0 }));
                res
            },
            Ok(u) => {
                let mut loan = loan;
                let checked = if role == TipoUsuario::Prestamista {
                    loan.createLoanOffer(&u)
                } else {
                    loan.createLoanRequest(&u)
                };
                let ghost now = loan.fechaCreacion;
                let res = match checked {
                    Err(e) => (CreateLoanState::Finished, CreateLoanAction::Reply(Err(loanRejection(&e)))),
                    Ok(()) => {
                        let id = u.id;
                        if role == TipoUsuario::Prestamista {
                            loan.fkPrestamista = Some(id);
                            loan.fkPrestatario = None;
                        } else {
                            loan.fkPrestamista = None;
                            loan.fkPrestatario = Some(id);
                        }
                        (CreateLoanState::AwaitInsert, CreateLoanAction::InsertLoan { loan, creatorId: id })
                    },
                };
                assert((res.0, res.1@) == create_loan_step(role, s0, e0, now));
                res
            },
        },
        (CreateLoanState::AwaitInsert, CreateLoanEvent::Inserted(r)) => {
            let res = match r {
                Err(e) => (CreateLoanState::Finished, CreateLoanAction::Reply(Err(loanRejection(&e)))),
                Ok(()) => (CreateLoanState::Finished, CreateLoanAction::Reply(Ok(String::from_str("Done")))),
            };
            assert((res.0, res.1@) == create_loan_step(role, s0, e0, Moment { secs: 0, nanos: 0 }));
            res
        },
        (_, _) => {
            let res = (
                CreateLoanState::Finished,
                CreateLoanAction::Reply(Err(Rejection { status: INTERNAL_SERVER_ERROR, message: String::new() })),
            );
            assert((res.0, res.1@) == create_loan_step(role, s0, e0, Moment { secs: 0, nanos: 0 }));
            res
        },
    }
}

/// One step of creating a loan offer: the decisions of the `createLoanOffer`
/// handler. The clock is read when the account is known; whatever it reads,
/// the step is the one `create_loan_step` gives for lenders at that time.
pub fn createLoanOffer(state: CreateLoanState, event: CreateLoanEvent) -> (res: (CreateLoanState, CreateLoanAction))
    requires
        create_loan_fits(state, event),
    ensures
        exists|now: Moment| (res.0, res.1@) == #[trigger] create_loan_step(TipoUsuario::Prestamista, state, event, now),
{
    create_loan(TipoUsuario::Prestamista, state, event)
}

/// One step of creating a loan request: the decisions of the
/// `createLoanRequest` handler, as `createLoanOffer` but for borrowers.
pub fn createLoanRequest(state: CreateLoanState, event: CreateLoanEvent) -> (res: (CreateLoanState, CreateLoanAction))
    requires
        create_loan_fits(state, event),
    ensures
        exists|now: Moment| (res.0, res.1@) == #[trigger] create_loan_step(TipoUsuario::Prestatario, state, event, now),
{
    create_loan(TipoUsuario::Prestatario, state, event)
}

/// Whatever the clock reads, a loan is stored only as the session's
/// account found it: the account's kind is the one the route creates for
/// (lender for offers, borrower for requests), the loan is dated with the
/// clock, its payment deadline lies after that date, the creator is its
/// only party, and nothing else of the loan changed.
pub proof fn law_loan_stored_when_allowed(
    role: TipoUsuario,
    s: CreateLoanState,
    e: CreateLoanEvent,
    now: Moment,
    stored: Prestamo,
    creatorId: i64,
)
    requires
        role == TipoUsuario::Prestamista || role == TipoUsuario::Prestatario,
        create_loan_fits(s, e),
        create_loan_step(role, s, e, now).1 == CreateLoanActionView::InsertLoan(stored, creatorId),
    ensures
        s matches CreateLoanState::AwaitUser { loan }
            && e matches CreateLoanEvent::UserFound(Ok(u))
            && u.tipousuario == Some(role)
            && creatorId == u.id
            && stored == (Prestamo {
                fechaCreacion: now,
                fkPrestamista: if role == TipoUsuario::Prestamista { Some(u.id) } else { None },
                fkPrestatario: if role == TipoUsuario::Prestatario { Some(u.id) } else { None },
                ..loan
            })
            && now.secs < stored.plazoPago,
{
}

/// A loan once the account `u` fills the place that `role` names: the
/// lender's for a lender, the borrower's for a borrower; nothing else
/// changes.
pub open spec fn completed_loan(loan: Prestamo, u: Usuario, role: ProposalRole) -> Prestamo {
    match role {
        ProposalRole::Lender => Prestamo { fkPrestamista: Some(u.id), ..loan },
        ProposalRole::Borrower => Prestamo { fkPrestatario: Some(u.id), ..loan },
    }
}

/// Where the completion of a loan stands.
#[derive(Debug)]
pub enum CompleteState {
    Start,
    /// Waiting for the account `fkUsuario` that made the proposal.
    AwaitUser { loanId: i64, fkUsuario: i64 },
    /// Waiting for the loan that the proposing `usuario` completes.
    AwaitLoan { usuario: Usuario, loanId: i64, fkUsuario: i64 },
    /// Waiting for the completed loan to be written.
    AwaitUpdate { fkUsuario: i64, loanId: i64 },
    /// Waiting for the loan's other proposals to be cleared.
    AwaitClear { fkUsuario: i64, loanId: i64 },
    /// Waiting for the proposing account, read again.
    AwaitCompleter { loanId: i64 },
    /// Waiting for the acceptance mail to be sent.
    AwaitSend,
    Finished,
}

/// What the completion of a loan learns.
#[derive(Debug)]
pub enum CompleteEvent {
    /// The request: the proposal being accepted.
    Begin(PrestamoPropuesta),
    UserFound(Result<Usuario, UserError>),
    LoanFound(Result<Prestamo, LoanError>),
    Updated(Result<(), LoanError>),
    Cleared(Result<(), LoanError>),
    MailSent(Result<(), MailError>),
}

/// What the completion of a loan asks for next.
#[derive(Debug)]
pub enum CompleteAction {
    /// Read the account with this id.
    LookupUserById(i64),
    FetchLoan(i64),
    /// Write the parties of this loan.
    UpdateLoan(Prestamo),
    /// Remove every proposal on the loan with this id.
    ClearProposals(i64),
    SendMail(Mail),
    Reply(Result<String, Rejection>),
}

/// An action, with its texts as sequences.
pub enum CompleteActionView {
    LookupUserById(i64),
    FetchLoan(i64),
    UpdateLoan(Prestamo),
    ClearProposals(i64),
    SendMail(Mail),
    Reply(Result<Seq<char>, (u16, Seq<char>)>),
}

impl View for CompleteAction {
    type V = CompleteActionView;

    open spec fn view(&self) -> CompleteActionView {
        match self {
            CompleteAction::LookupUserById(id) => CompleteActionView::LookupUserById(*id),
            CompleteAction::FetchLoan(id) => CompleteActionView::FetchLoan(*id),
            CompleteAction::UpdateLoan(l) => CompleteActionView::UpdateLoan(*l),
            CompleteAction::ClearProposals(id) => CompleteActionView::ClearProposals(*id),
            CompleteAction::SendMail(m) => CompleteActionView::SendMail(*m),
            CompleteAction::Reply(r) => CompleteActionView::Reply(
                match r {
                    Ok(s) => Ok(s@),
                    Err(e) => Err(e@),
                },
            ),
        }
    }
}

/// Whether an event is one the completion waits for in a state.
pub open spec fn complete_fits(s: CompleteState, e: CompleteEvent) -> bool {
    match (s, e) {
        (CompleteState::Start, CompleteEvent::Begin(_)) => true,
        (CompleteState::AwaitUser { .. }, CompleteEvent::UserFound(_)) => true,
        (CompleteState::AwaitLoan { .. }, CompleteEvent::LoanFound(_)) => true,
        (CompleteState::AwaitUpdate { .. }, CompleteEvent::Updated(_)) => true,
        (CompleteState::AwaitClear { .. }, CompleteEvent::Cleared(_)) => true,
        (CompleteState::AwaitCompleter { .. }, CompleteEvent::UserFound(_)) => true,
        (CompleteState::AwaitSend, CompleteEvent::MailSent(_)) => true,
        _ => false,
    }
}

/// One step of accepting a proposal, which completes the loan. The
/// proposing account is read; the loan is read and the proposal decided
/// again (`proposal_outcome`); the account takes the empty place it may
/// fill, the loan's proposals are cleared, and the proposing account, read
/// again, is mailed that its proposal was accepted; `Done` comes once the
/// mail is sent. Failures answer as in the other loan handlers; a failed
/// mail gives 500 with the mail error's text.
pub open spec fn complete_step(s: CompleteState, e: CompleteEvent) -> (CompleteState, CompleteActionView) {
    match (s, e) {
        (CompleteState::Start, CompleteEvent::Begin(p)) => (
            CompleteState::AwaitUser { loanId: p.fkPrestamo, fkUsuario: p.fkUsuario },
            CompleteActionView::LookupUserById(p.fkUsuario),
        ),
        (CompleteState::AwaitUser { loanId, fkUsuario }, CompleteEvent::UserFound(r)) => match r {
            Err(e) => (CompleteState::Finished, CompleteActionView::Reply(Err(user_fetch_rejection(e)))),
            Ok(u) => (CompleteState::AwaitLoan { usuario: u, loanId, fkUsuario }, CompleteActionView::FetchLoan(loanId)),
        },
        (CompleteState::AwaitLoan { usuario, loanId, fkUsuario }, CompleteEvent::LoanFound(r)) => match r {
            Err(e) => (CompleteState::Finished, CompleteActionView::Reply(Err(loan_rejection(e)))),
            Ok(loan) => match proposal_outcome(usuario, loan) {
                Err(e) => (CompleteState::Finished, CompleteActionView::Reply(Err(loan_rejection(e)))),
                Ok(role) => (
                    CompleteState::AwaitUpdate { fkUsuario, loanId },
                    CompleteActionView::UpdateLoan(completed_loan(loan, usuario, role)),
                ),
            },
        },
        (CompleteState::AwaitUpdate { fkUsuario, loanId }, CompleteEvent::Updated(r)) => match r {
            Err(e) => (CompleteState::Finished, CompleteActionView::Reply(Err(loan_rejection(e)))),
            Ok(()) => (CompleteState::AwaitClear { fkUsuario, loanId }, CompleteActionView::ClearProposals(loanId)),
        },
        (CompleteState::AwaitClear { fkUsuario, loanId }, CompleteEvent::Cleared(r)) => match r {
            Err(e) => (CompleteState::Finished, CompleteActionView::Reply(Err(loan_rejection(e)))),
            Ok(()) => (CompleteState::AwaitCompleter { loanId }, CompleteActionView::LookupUserById(fkUsuario)),
        },
        (CompleteState::AwaitCompleter { loanId }, CompleteEvent::UserFound(r)) => match r {
            Err(e) => (CompleteState::Finished, CompleteActionView::Reply(Err(user_fetch_rejection(e)))),
            Ok(u) => (CompleteState::AwaitSend, CompleteActionView::SendMail(Mail::LoanProposalAccepted(u, loanId))),
        },
        (CompleteState::AwaitSend, CompleteEvent::MailSent(r)) => match r {
            Err(e) => (CompleteState::Finished, CompleteActionView::Reply(Err((INTERNAL_SERVER_ERROR, mail_error_text(e))))),
            Ok(()) => (CompleteState::Finished, CompleteActionView::Reply(Ok("Done"@))),
        },
        _ => (CompleteState::Finished, CompleteActionView::Reply(Err((INTERNAL_SERVER_ERROR, Seq::empty())))),
    }
}

/// One step of accepting a proposal: the decisions of the `completeLoan`
/// handler.
pub fn completeLoan(state: CompleteState, event: CompleteEvent) -> (res: (CompleteState, CompleteAction))
    requires
        complete_fits(state, event),
    ensures
        (res.0, res.1@) == complete_step(state, event),
{
    match (state, event) {
        (CompleteState::Start, CompleteEvent::Begin(p)) => (
            CompleteState::AwaitUser { loanId: p.fkPrestamo, fkUsuario: p.fkUsuario },
            CompleteAction::LookupUserById(p.fkUsuario),
        ),
        (CompleteState::AwaitUser { loanId, fkUsuario }, CompleteEvent::UserFound(r)) => match r {
            Err(e) => (CompleteState::Finished, CompleteAction::Reply(Err(userFetchRejection(&e)))),
            Ok(u) => (CompleteState::AwaitLoan { usuario: u, loanId, fkUsuario }, CompleteAction::FetchLoan(loanId)),
        },
        (CompleteState::AwaitLoan { usuario, loanId, fkUsuario }, CompleteEvent::LoanFound(r)) => match r {
            Err(e) => (CompleteState::Finished, CompleteAction::Reply(Err(loanRejection(&e)))),
            Ok(loan) => match PrestamoPropuesta::proposeCompleteLoan(&usuario, &loan) {
                Err(e) => (CompleteState::Finished, CompleteAction::Reply(Err(loanRejection(&e)))),
                Ok(role) => {
                    let mut loan = loan;
                    match role {
                        ProposalRole::Lender => loan.fkPrestamista = Some(usuario.id),
                        ProposalRole::Borrower => loan.fkPrestatario = Some(usuario.id),
                    }
                    (CompleteState::AwaitUpdate { fkUsuario, loanId }, CompleteAction::UpdateLoan(loan))
                },
            },
        },
        (CompleteState::AwaitUpdate { fkUsuario, loanId }, CompleteEvent::Updated(r)) => match r {
            Err(e) => (CompleteState::Finished, CompleteAction::Reply(Err(loanRejection(&e)))),
            Ok(()) => (CompleteState::AwaitClear { fkUsuario, loanId }, CompleteAction::ClearProposals(loanId)),
        },
        (CompleteState::AwaitClear { fkUsuario, loanId }, CompleteEvent::Cleared(r)) => match r {
            Err(e) => (CompleteState::Finished, CompleteAction::Reply(Err(loanRejection(&e)))),
            Ok(()) => (CompleteState::AwaitCompleter { loanId }, CompleteAction::LookupUserById(fkUsuario)),
        },
        (CompleteState::AwaitCompleter { loanId }, CompleteEvent::UserFound(r)) => match r {
            Err(e) => (CompleteState::Finished, CompleteAction::Reply(Err(userFetchRejection(&e)))),
            Ok(u) => (CompleteState::AwaitSend, CompleteAction::SendMail(Mail::LoanProposalAccepted(u, loanId))),
        },
        (CompleteState::AwaitSend, CompleteEvent::MailSent(r)) => match r {
            Err(e) => (
                CompleteState::Finished,
                CompleteAction::Reply(Err(Rejection { status: INTERNAL_SERVER_ERROR, message: e.message() })),
            ),
            Ok(()) => (CompleteState::Finished, CompleteAction::Reply(Ok(String::from_str("Done")))),
        },
        (_, _) => (
            CompleteState::Finished,
            CompleteAction::Reply(Err(Rejection { status: INTERNAL_SERVER_ERROR, message: String::new() })),
        ),
    }
}

/// The actions of a completion over a sequence of events, from a state.
pub open spec fn complete_run(s: CompleteState, events: Seq<CompleteEvent>) -> Seq<CompleteActionView>
    decreases events.len(),
{
    if events.len() == 0 {
        Seq::empty()
    } else {
        let (s1, a) = complete_step(s, events[0]);
        seq![a] + complete_run(s1, events.drop_first())
    }
}

/// Whether each event of a sequence is one the completion waits for.
pub open spec fn complete_fits_run(s: CompleteState, events: Seq<CompleteEvent>) -> bool
    decreases events.len(),
{
    events.len() == 0 || (complete_fits(s, events[0]) && complete_fits_run(complete_step(s, events[0]).0, events.drop_first()))
}

/// How many steps a state lies before the last one, which answers `Done`.
spec fn complete_stage(s: CompleteState) -> int {
    match s {
        CompleteState::Start => 6,
        CompleteState::AwaitUser { .. } => 5,
        CompleteState::AwaitLoan { .. } => 4,
        CompleteState::AwaitUpdate { .. } => 3,
        CompleteState::AwaitClear { .. } => 2,
        CompleteState::AwaitCompleter { .. } => 1,
        CompleteState::AwaitSend => 0,
        CompleteState::Finished => -1,
    }
}

proof fn lemma_complete_run_len(s: CompleteState, events: Seq<CompleteEvent>)
    ensures
        complete_run(s, events).len() == events.len(),
    decreases events.len(),
{
    if events.len() > 0 {
        lemma_complete_run_len(complete_step(s, events[0]).0, events.drop_first());
    }
}

proof fn lemma_complete_tail(s: CompleteState, events: Seq<CompleteEvent>, i: int)
    requires
        0 < i < events.len(),
        complete_fits_run(s, events),
    ensures
        complete_run(s, events)[i] == complete_run(complete_step(s, events[0]).0, events.drop_first())[i - 1],
        complete_fits_run(complete_step(s, events[0]).0, events.drop_first()),
        complete_fits(s, events[0]),
        !(complete_step(s, events[0]).0 is Finished),
        complete_stage(complete_step(s, events[0]).0) == complete_stage(s) - 1,
{
    lemma_complete_run_len(complete_step(s, events[0]).0, events.drop_first());
    let rest = events.drop_first();
    assert(complete_fits_run(complete_step(s, events[0]).0, rest));
    assert(rest.len() > 0);
    assert(complete_fits(complete_step(s, events[0]).0, rest[0]));
}

proof fn lemma_complete_update_at(s: CompleteState, events: Seq<CompleteEvent>, i: int, l: Prestamo)
    requires
        complete_fits_run(s, events),
        0 <= i < events.len(),
        complete_run(s, events)[i] == CompleteActionView::UpdateLoan(l),
    ensures
        i == complete_stage(s) - 4,
    decreases events.len(),
{
    if i > 0 {
        lemma_complete_tail(s, events, i);
        lemma_complete_update_at(complete_step(s, events[0]).0, events.drop_first(), i - 1, l);
    }
}

proof fn lemma_complete_done_at(s: CompleteState, events: Seq<CompleteEvent>, i: int)
    requires
        complete_fits_run(s, events),
        0 <= i < events.len(),
        complete_run(s, events)[i] matches CompleteActionView::Reply(Ok(_)),
    ensures
        i == complete_stage(s),
    decreases events.len(),
{
    if i > 0 {
        lemma_complete_tail(s, events, i);
        lemma_complete_done_at(complete_step(s, events[0]).0, events.drop_first(), i - 1);
    }
}

/// Accepting a proposal writes the loan it names only as read, with the
/// proposing account in the one empty place that the rules of proposals
/// (`proposal_outcome`) let it fill, and nothing else changed.
pub proof fn law_completion_fills_allowed_place(events: Seq<CompleteEvent>, i: int, l: Prestamo)
    requires
        complete_fits_run(CompleteState::Start, events),
        0 <= i < events.len(),
        complete_run(CompleteState::Start, events)[i] == CompleteActionView::UpdateLoan(l),
    ensures
        i == 2,
        events[0] matches CompleteEvent::Begin(p)
            && complete_run(CompleteState::Start, events)[0] == CompleteActionView::LookupUserById(p.fkUsuario)
            && complete_run(CompleteState::Start, events)[1] == CompleteActionView::FetchLoan(p.fkPrestamo),
        events[1] matches CompleteEvent::UserFound(Ok(u))
            && events[2] matches CompleteEvent::LoanFound(Ok(loan))
            && proposal_outcome(u, loan) matches Ok(role)
            && l == completed_loan(loan, u, role),
{
    lemma_complete_update_at(CompleteState::Start, events, i, l);
    let s0 = CompleteState::Start;
    lemma_complete_tail(s0, events, 2);
    let s1 = complete_step(s0, events[0]).0;
    let e1 = events.drop_first();
    lemma_complete_tail(s1, e1, 1);
    let e2 = e1.drop_first();
    assert(e2[0] == events[2]);
    assert(e1[0] == events[1]);
    lemma_complete_tail(s0, events, 1);
}

/// A completion is answered `Done` only after the loan was written, its
/// proposals cleared, and the proposing account mailed that its proposal on
/// that loan was accepted.
pub proof fn law_completion_done_after_mail(events: Seq<CompleteEvent>, i: int)
    requires
        complete_fits_run(CompleteState::Start, events),
        0 <= i < events.len(),
        complete_run(CompleteState::Start, events)[i] matches CompleteActionView::Reply(Ok(_)),
    ensures
        i == 6,
        complete_run(CompleteState::Start, events)[2] is UpdateLoan,
        events[3] matches CompleteEvent::Updated(Ok(_)),
        events[4] matches CompleteEvent::Cleared(Ok(_)),
        events[0] matches CompleteEvent::Begin(p)
            && events[5] matches CompleteEvent::UserFound(Ok(c))
            && complete_run(CompleteState::Start, events)[3] == CompleteActionView::ClearProposals(p.fkPrestamo)
            && complete_run(CompleteState::Start, events)[4] == CompleteActionView::LookupUserById(p.fkUsuario)
            && complete_run(CompleteState::Start, events)[5] == CompleteActionView::SendMail(
                Mail::LoanProposalAccepted(c, p.fkPrestamo),
            ),
        events[6] matches CompleteEvent::MailSent(Ok(_)),
{
    lemma_complete_done_at(CompleteState::Start, events, i);
    let s0 = CompleteState::Start;
    let s1 = complete_step(s0, events[0]).0;
    let e1 = events.drop_first();
    let s2 = complete_step(s1, e1[0]).0;
    let e2 = e1.drop_first();
    let s3 = complete_step(s2, e2[0]).0;
    let e3 = e2.drop_first();
    let s4 = complete_step(s3, e3[0]).0;
    let e4 = e3.drop_first();
    let s5 = complete_step(s4, e4[0]).0;
    let e5 = e4.drop_first();
    let s6 = complete_step(s5, e5[0]).0;
    let e6 = e5.drop_first();
    lemma_complete_tail(s0, events, 6);
    lemma_complete_tail(s1, e1, 5);
    lemma_complete_tail(s2, e2, 4);
    lemma_complete_tail(s3, e3, 3);
    lemma_complete_tail(s4, e4, 2);
    lemma_complete_tail(s5, e5, 1);
    lemma_complete_run_len(s6, e6);
    assert(e6[0] == events[6]);
    assert(e5[0] == events[5]);
    assert(e4[0] == events[4]);
    assert(e3[0] == events[3]);
    assert(e2[0] == events[2]);
    assert(e1[0] == events[1]);
    lemma_complete_tail(s0, events, 2);
    lemma_complete_tail(s1, e1, 1);
    lemma_complete_tail(s0, events, 3);
    lemma_complete_tail(s1, e1, 2);
    lemma_complete_tail(s2, e2, 1);
    lemma_complete_tail(s0, events, 4);
    lemma_complete_tail(s1, e1, 3);
    lemma_complete_tail(s2, e2, 2);
    lemma_complete_tail(s3, e3, 1);
    lemma_complete_tail(s0, events, 5);
    lemma_complete_tail(s1, e1, 4);
    lemma_complete_tail(s2, e2, 3);
    lemma_complete_tail(s3, e3, 2);
    lemma_complete_tail(s4, e4, 1);
}

/// Two loans agree on everything but their parties.
pub open spec fn same_terms(a: Prestamo, b: Prestamo) -> bool {
    &&& a.id == b.id
    &&& a.fechaCreacion == b.fechaCreacion
    &&& a.plazoPago == b.plazoPago
    &&& a.intervaloPago == b.intervaloPago
    &&& a.riesgo == b.riesgo
}

/// Accepting the proposal of an account that is not yet a party of the loan
/// fills the loan's empty place of that account's kind: a borrower becomes
/// the borrower and the lender stays; a lender becomes the lender and the
/// borrower stays. The loan's terms do not change.
pub proof fn law_completion_places_proposer(usuario: Usuario, loanId: i64, fkUsuario: i64, loan: Prestamo)
    requires
        loan.fkPrestamista != Some(usuario.id),
        loan.fkPrestatario != Some(usuario.id),
    ensures
        (usuario.tipousuario == Some(TipoUsuario::Prestatario) && loan.fkPrestatario is None) ==> (complete_step(
            CompleteState::AwaitLoan { usuario, loanId, fkUsuario },
            CompleteEvent::LoanFound(Ok(loan)),
        ).1 matches CompleteActionView::UpdateLoan(l)
            && l.fkPrestatario == Some(usuario.id)
            && l.fkPrestamista == loan.fkPrestamista
            && same_terms(l, loan)),
        (usuario.tipousuario == Some(TipoUsuario::Prestamista) && loan.fkPrestamista is None) ==> (complete_step(
            CompleteState::AwaitLoan { usuario, loanId, fkUsuario },
            CompleteEvent::LoanFound(Ok(loan)),
        ).1 matches CompleteActionView::UpdateLoan(l)
            && l.fkPrestamista == Some(usuario.id)
            && l.fkPrestatario == loan.fkPrestatario
            && same_terms(l, loan)),
{
}

/// A loan is written on accepting a proposal only where its proposing
/// account may fill an empty place: the account is no party of the loan yet,
/// and either it is a borrower, the loan had no borrower, and it is now the
/// borrower beside the same lender; or it is a lender, the loan had no
/// lender, and it is now the lender beside the same borrower.
pub proof fn law_completion_writes_only_allowed(
    usuario: Usuario,
    loanId: i64,
    fkUsuario: i64,
    loan: Prestamo,
    l: Prestamo,
)
    requires
        complete_step(CompleteState::AwaitLoan { usuario, loanId, fkUsuario }, CompleteEvent::LoanFound(Ok(loan))).1
            == CompleteActionView::UpdateLoan(l),
    ensures
        loan.fkPrestamista != Some(usuario.id),
        loan.fkPrestatario != Some(usuario.id),
        same_terms(l, loan),
        (usuario.tipousuario == Some(TipoUsuario::Prestatario) && loan.fkPrestatario is None
            && l.fkPrestatario == Some(usuario.id) && l.fkPrestamista == loan.fkPrestamista)
            || (usuario.tipousuario == Some(TipoUsuario::Prestamista) && loan.fkPrestamista is None
            && l.fkPrestamista == Some(usuario.id) && l.fkPrestatario == loan.fkPrestatario),
{
}

/// Once the loan is read, a proposal by an account outside it is stored,
/// for that account and the loan the request names, exactly where the
/// account may fill an empty place of its kind; a borrower's proposal keeps
/// the wallet the request gives, a lender's keeps none.
pub proof fn law_proposal_stores_allowed(usuario: Usuario, loanId: i64, walletId: Option<String>, loan: Prestamo)
    requires
        loan.fkPrestamista != Some(usuario.id),
        loan.fkPrestatario != Some(usuario.id),
    ensures
        (usuario.tipousuario == Some(TipoUsuario::Prestatario) && loan.fkPrestatario is None) ==> propose_step(
            ProposeState::AwaitLoan { usuario, loanId, walletId },
            ProposeEvent::LoanFound(Ok(loan)),
        ).1 == ProposeActionView::StoreProposal(loanId, opt_text(walletId), usuario.id),
        (usuario.tipousuario == Some(TipoUsuario::Prestamista) && loan.fkPrestamista is None) ==> propose_step(
            ProposeState::AwaitLoan { usuario, loanId, walletId },
            ProposeEvent::LoanFound(Ok(loan)),
        ).1 == ProposeActionView::StoreProposal(loanId, None, usuario.id),
        !((usuario.tipousuario == Some(TipoUsuario::Prestatario) && loan.fkPrestatario is None)
            || (usuario.tipousuario == Some(TipoUsuario::Prestamista) && loan.fkPrestamista is None))
            ==> propose_step(ProposeState::AwaitLoan { usuario, loanId, walletId }, ProposeEvent::LoanFound(Ok(loan))).1
            is Reply,
{
}

/// Once the session's account is read, a loan is stored exactly where the
/// account is of the kind the route creates for (lender for offers,
/// borrower for requests) and the payment deadline lies after the clock's
/// reading: dated with that reading, with the account as its only party,
/// its terms as requested. Otherwise the request is answered with a
/// rejection and nothing is stored.
pub proof fn law_loan_stored_exactly_when_allowed(role: TipoUsuario, loan: Prestamo, u: Usuario, now: Moment)
    requires
        role == TipoUsuario::Prestamista || role == TipoUsuario::Prestatario,
    ensures
        (u.tipousuario == Some(role) && now.secs < loan.plazoPago) ==> (create_loan_step(
            role,
            CreateLoanState::AwaitUser { loan },
            CreateLoanEvent::UserFound(Ok(u)),
            now,
        ).1 matches CreateLoanActionView::InsertLoan(l, c)
            && c == u.id
            && l.fechaCreacion == now
            && l.id == loan.id
            && l.plazoPago == loan.plazoPago
            && l.intervaloPago == loan.intervaloPago
            && l.riesgo == loan.riesgo
            && (role == TipoUsuario::Prestamista ==> l.fkPrestamista == Some(u.id) && l.fkPrestatario is None)
            && (role == TipoUsuario::Prestatario ==> l.fkPrestatario == Some(u.id) && l.fkPrestamista is None)),
        !(u.tipousuario == Some(role) && now.secs < loan.plazoPago) ==> (create_loan_step(
            role,
            CreateLoanState::AwaitUser { loan },
            CreateLoanEvent::UserFound(Ok(u)),
            now,
        ).1 matches CreateLoanActionView::Reply(r) && r is Err),
{
}

/// The loan once a borrower takes its borrower's place.
pub open spec fn with_borrower(loan: Prestamo, id: i64) -> Prestamo {
    Prestamo { fkPrestatario: Some(id), ..loan }
}

/// The loan once a lender takes its lender's place.
pub open spec fn with_lender(loan: Prestamo, id: i64) -> Prestamo {
    Prestamo { fkPrestamista: Some(id), ..loan }
}

/// Accepting the proposal of a borrower outside a loan that has no borrower,
/// or of a lender outside a loan that has no lender, in which every write
/// and the mail succeed, answers `Done`: the loan is written with the
/// proposer in that place and nothing else changed, the loan's proposals are
/// cleared, and the proposer, read again, is mailed that its proposal on the
/// loan was accepted.
pub proof fn law_completion_completes(p: PrestamoPropuesta, u: Usuario, loan: Prestamo, c: Usuario)
    requires
        loan.fkPrestamista != Some(u.id),
        loan.fkPrestatario != Some(u.id),
        (u.tipousuario == Some(TipoUsuario::Prestatario) && loan.fkPrestatario is None)
            || (u.tipousuario == Some(TipoUsuario::Prestamista) && loan.fkPrestamista is None),
    ensures
        complete_fits_run(
            CompleteState::Start,
            seq![
                CompleteEvent::Begin(p),
                CompleteEvent::UserFound(Ok(u)),
                CompleteEvent::LoanFound(Ok(loan)),
                CompleteEvent::Updated(Ok(())),
                CompleteEvent::Cleared(Ok(())),
                CompleteEvent::UserFound(Ok(c)),
                CompleteEvent::MailSent(Ok(())),
            ],
        ),
        complete_run(
            CompleteState::Start,
            seq![
                CompleteEvent::Begin(p),
                CompleteEvent::UserFound(Ok(u)),
                CompleteEvent::LoanFound(Ok(loan)),
                CompleteEvent::Updated(Ok(())),
                CompleteEvent::Cleared(Ok(())),
                CompleteEvent::UserFound(Ok(c)),
                CompleteEvent::MailSent(Ok(())),
            ],
        ) == seq![
            CompleteActionView::LookupUserById(p.fkUsuario),
            CompleteActionView::FetchLoan(p.fkPrestamo),
            CompleteActionView::UpdateLoan(
                if u.tipousuario == Some(TipoUsuario::Prestatario) {
                    with_borrower(loan, u.id)
                } else {
                    with_lender(loan, u.id)
                },
            ),
            CompleteActionView::ClearProposals(p.fkPrestamo),
            CompleteActionView::LookupUserById(p.fkUsuario),
            CompleteActionView::SendMail(Mail::LoanProposalAccepted(c, p.fkPrestamo)),
            CompleteActionView::Reply(Ok("Done"@)),
        ],
{
    reveal_with_fuel(complete_run, 8);
    reveal_with_fuel(complete_fits_run, 8);
    let events = seq![
        CompleteEvent::Begin(p),
        CompleteEvent::UserFound(Ok(u)),
        CompleteEvent::LoanFound(Ok(loan)),
        CompleteEvent::Updated(Ok(())),
        CompleteEvent::Cleared(Ok(())),
        CompleteEvent::UserFound(Ok(c)),
        CompleteEvent::MailSent(Ok(())),
    ];
    assert(complete_run(CompleteState::Start, events) =~= seq![
        CompleteActionView::LookupUserById(p.fkUsuario),
        CompleteActionView::FetchLoan(p.fkPrestamo),
        CompleteActionView::UpdateLoan(
            if u.tipousuario == Some(TipoUsuario::Prestatario) {
                with_borrower(loan, u.id)
            } else {
                with_lender(loan, u.id)
            },
        ),
        CompleteActionView::ClearProposals(p.fkPrestamo),
        CompleteActionView::LookupUserById(p.fkUsuario),
        CompleteActionView::SendMail(Mail::LoanProposalAccepted(c, p.fkPrestamo)),
        CompleteActionView::Reply(Ok("Done"@)),
    ]);
}

/// A proposal by the session's account, outside the loan, to fill the
/// loan's empty place of its kind, in which the store and the mail succeed,
/// answers `Done`: the proposal is stored for that account and loan (with
/// the wallet only for a borrower), and the loan's creator as read again
/// (its lender, else its borrower) is mailed a proposal naming the proposer
/// and the loan.
pub proof fn law_proposal_completes(
    loanId: i64,
    walletId: Option<String>,
    sessionId: String,
    name: String,
    u: Usuario,
    loan: Prestamo,
    stored: Prestamo,
    cid: i64,
    creator: Usuario,
)
    requires
        loan.fkPrestamista != Some(u.id),
        loan.fkPrestatario != Some(u.id),
        (u.tipousuario == Some(TipoUsuario::Prestatario) && loan.fkPrestatario is None)
            || (u.tipousuario == Some(TipoUsuario::Prestamista) && loan.fkPrestamista is None),
        stored.fkPrestamista == Some(cid) || (stored.fkPrestamista is None && stored.fkPrestatario == Some(cid)),
    ensures
        propose_fits_run(
            ProposeState::Start,
            seq![
                ProposeEvent::Begin { loanId, walletId, sessionId },
                ProposeEvent::SessionUser(Ok(name)),
                ProposeEvent::UserFound(Ok(u)),
                ProposeEvent::LoanFound(Ok(loan)),
                ProposeEvent::Stored(Ok(())),
                ProposeEvent::LoanFound(Ok(stored)),
                ProposeEvent::CreatorFound(Ok(creator)),
                ProposeEvent::MailSent(Ok(())),
            ],
        ),
        propose_run(
            ProposeState::Start,
            seq![
                ProposeEvent::Begin { loanId, walletId, sessionId },
                ProposeEvent::SessionUser(Ok(name)),
                ProposeEvent::UserFound(Ok(u)),
                ProposeEvent::LoanFound(Ok(loan)),
                ProposeEvent::Stored(Ok(())),
                ProposeEvent::LoanFound(Ok(stored)),
                ProposeEvent::CreatorFound(Ok(creator)),
                ProposeEvent::MailSent(Ok(())),
            ],
        ) == seq![
            ProposeActionView::FetchSessionUser(session_id_prefix() + sessionId@),
            ProposeActionView::LookupUser(name@),
            ProposeActionView::FetchLoan(loanId),
            ProposeActionView::StoreProposal(
                loanId,
                if u.tipousuario == Some(TipoUsuario::Prestatario) { opt_text(walletId) } else { None },
                u.id,
            ),
            ProposeActionView::FetchLoan(loanId),
            ProposeActionView::LookupCreator(cid),
            ProposeActionView::SendMail(Mail::LoanProposal(creator, u, stored.id)),
            ProposeActionView::Reply(Ok("Done"@)),
        ],
{
    reveal_with_fuel(propose_run, 9);
    reveal_with_fuel(propose_fits_run, 9);
    let events = seq![
                ProposeEvent::Begin { loanId, walletId, sessionId },
                ProposeEvent::SessionUser(Ok(name)),
                ProposeEvent::UserFound(Ok(u)),
                ProposeEvent::LoanFound(Ok(loan)),
                ProposeEvent::Stored(Ok(())),
                ProposeEvent::LoanFound(Ok(stored)),
                ProposeEvent::CreatorFound(Ok(creator)),
                ProposeEvent::MailSent(Ok(())),
            ];
    assert(propose_run(ProposeState::Start, events) =~= seq![
            ProposeActionView::FetchSessionUser(session_id_prefix() + sessionId@),
            ProposeActionView::LookupUser(name@),
            ProposeActionView::FetchLoan(loanId),
            ProposeActionView::StoreProposal(
                loanId,
                if u.tipousuario == Some(TipoUsuario::Prestatario) { opt_text(walletId) } else { None },
                u.id,
            ),
            ProposeActionView::FetchLoan(loanId),
            ProposeActionView::LookupCreator(cid),
            ProposeActionView::SendMail(Mail::LoanProposal(creator, u, stored.id)),
            ProposeActionView::Reply(Ok("Done"@)),
        ]);
}

} // verus!
