//! The handler that gathers what the profile page shows of the session's
//! user: the account, its credit profile and the proposals on its loans.
use vstd::prelude::*;
use crate::errors::{redisRejection, redis_failure_text, DbFailure, RedisFailure, Rejection, INTERNAL_SERVER_ERROR};
use crate::perfil_crediticio::PerfilCrediticio;
use crate::prestamo::{loanRejection, loan_rejection, LoanError};
use crate::prestamo_propuesta::{PrestamoPropuesta, PropuestaItem};
use crate::redis_server::{sessionIdKey, session_id_prefix};
use crate::routes::{userFetchRejection, user_fetch_rejection};
use crate::usuario::{UserError, Usuario};

verus! {

/// What the profile page shows of a user besides the loans: the account,
/// its credit profile, and each proposal on its loans with the proposing
/// account.
#[derive(Debug)]
pub struct UserInfo {
    pub usuario: Usuario,
    pub perfil: PerfilCrediticio,
    pub loanProposals: Vec<PropuestaItem>,
}

/// A `UserInfo` with its proposals as a sequence.
pub struct UserInfoView {
    pub usuario: Usuario,
    pub perfil: PerfilCrediticio,
    pub loanProposals: Seq<PropuestaItem>,
}

impl View for UserInfo {
    type V = UserInfoView;

    open spec fn view(&self) -> UserInfoView {
        UserInfoView { usuario: self.usuario, perfil: self.perfil, loanProposals: self.loanProposals@ }
    }
}

/// Where the gathering stands.
#[derive(Debug)]
pub enum UserInfoState {
    Start,
    /// Waiting for the user name of the session.
    AwaitSessionUser,
    /// Waiting for the account of the session's user.
    AwaitUser,
    /// Waiting for the credit profile of `usuario`.
    AwaitCredit { usuario: Usuario },
    /// Waiting for the list of the user's loans.
    AwaitLoans { usuario: Usuario, perfil: PerfilCrediticio },
    /// Waiting for the proposals on the user's loans.
    AwaitProposals { usuario: Usuario, perfil: PerfilCrediticio },
    /// Waiting for the account that made the proposal `proposals[items.len()]`;
    /// `items` holds the earlier proposals with their accounts.
    AwaitProposers {
        usuario: Usuario,
        perfil: PerfilCrediticio,
        proposals: Vec<PrestamoPropuesta>,
        items: Vec<PropuestaItem>,
    },
    Finished,
}

/// A state, with its lists as sequences.
pub enum UserInfoStateView {
    Start,
    AwaitSessionUser,
    AwaitUser,
    AwaitCredit { usuario: Usuario },
    AwaitLoans { usuario: Usuario, perfil: PerfilCrediticio },
    AwaitProposals { usuario: Usuario, perfil: PerfilCrediticio },
    AwaitProposers {
        usuario: Usuario,
        perfil: PerfilCrediticio,
        proposals: Seq<PrestamoPropuesta>,
        items: Seq<PropuestaItem>,
    },
    Finished,
}

impl View for UserInfoState {
    type V = UserInfoStateView;

    open spec fn view(&self) -> UserInfoStateView {
        match self {
            UserInfoState::Start => UserInfoStateView::Start,
            UserInfoState::AwaitSessionUser => UserInfoStateView::AwaitSessionUser,
            UserInfoState::AwaitUser => UserInfoStateView::AwaitUser,
            UserInfoState::AwaitCredit { usuario } => UserInfoStateView::AwaitCredit { usuario: *usuario },
            UserInfoState::AwaitLoans { usuario, perfil } => UserInfoStateView::AwaitLoans { usuario: *usuario, perfil: *perfil },
            UserInfoState::AwaitProposals { usuario, perfil } => UserInfoStateView::AwaitProposals {
                usuario: *usuario,
                perfil: *perfil,
            },
            UserInfoState::AwaitProposers { usuario, perfil, proposals, items } => UserInfoStateView::AwaitProposers {
                usuario: *usuario,
                perfil: *perfil,
                proposals: proposals@,
                items: items@,
            },
            UserInfoState::Finished => UserInfoStateView::Finished,
        }
    }
}

/// What the gathering learns.
#[derive(Debug)]
pub enum UserInfoEvent {
    /// The request: the session id.
    Begin(String),
    SessionUser(Result<String, RedisFailure>),
    UserFound(Result<Usuario, UserError>),
    CreditFound(Result<PerfilCrediticio, DbFailure>),
    /// Whether the user's loans could be listed; the caller keeps the list
    /// and answers with it beside the `UserInfo`.
    LoansListed(Result<(), LoanError>),
    ProposalsFound(Result<Vec<PrestamoPropuesta>, LoanError>),
    /// The account that made the proposal asked for.
    ProposerFound(Usuario),
}

/// An event, with its texts and lists as sequences.
pub enum UserInfoEventView {
    Begin(Seq<char>),
    SessionUser(Result<Seq<char>, RedisFailure>),
    UserFound(Result<Usuario, UserError>),
    CreditFound(Result<PerfilCrediticio, DbFailure>),
    LoansListed(Result<(), LoanError>),
    ProposalsFound(Result<Seq<PrestamoPropuesta>, LoanError>),
    ProposerFound(Usuario),
}

impl View for UserInfoEvent {
    type V = UserInfoEventView;

    open spec fn view(&self) -> UserInfoEventView {
        match self {
            UserInfoEvent::Begin(id) => UserInfoEventView::Begin(id@),
            UserInfoEvent::SessionUser(r) => UserInfoEventView::SessionUser(
                match r {
                    Ok(n) => Ok(n@),
                    Err(f) => Err(*f),
                },
            ),
            UserInfoEvent::UserFound(r) => UserInfoEventView::UserFound(*r),
            UserInfoEvent::CreditFound(r) => UserInfoEventView::CreditFound(*r),
            UserInfoEvent::LoansListed(r) => UserInfoEventView::LoansListed(*r),
            UserInfoEvent::ProposalsFound(r) => UserInfoEventView::ProposalsFound(
                match r {
                    Ok(ps) => Ok(ps@),
                    Err(e) => Err(*e),
                },
            ),
            UserInfoEvent::ProposerFound(u) => UserInfoEventView::ProposerFound(*u),
        }
    }
}

/// What the gathering asks for next.
#[derive(Debug)]
pub enum UserInfoAction {
    /// Read this key.
    FetchSessionUser(String),
    LookupUser(String),
    /// Read the credit profile of the account with this id.
    FetchCredit(i64),
    /// List the loans of the account with this id.
    FetchLoans(i64),
    /// List the proposals on the loans of the account with this id.
    FetchProposals(i64),
    /// Read the account with this id.
    LookupProposer(i64),
    Reply(Result<UserInfo, Rejection>),
}

/// An action, with its texts and lists as sequences.
pub enum UserInfoActionView {
    FetchSessionUser(Seq<char>),
    LookupUser(Seq<char>),
    FetchCredit(i64),
    FetchLoans(i64),
    FetchProposals(i64),
    LookupProposer(i64),
    Reply(Result<UserInfoView, (u16, Seq<char>)>),
}

impl View for UserInfoAction {
    type V = UserInfoActionView;

    open spec fn view(&self) -> UserInfoActionView {
        match self {
            UserInfoAction::FetchSessionUser(k) => UserInfoActionView::FetchSessionUser(k@),
            UserInfoAction::LookupUser(n) => UserInfoActionView::LookupUser(n@),
            UserInfoAction::FetchCredit(id) => UserInfoActionView::FetchCredit(*id),
            UserInfoAction::FetchLoans(id) => UserInfoActionView::FetchLoans(*id),
            UserInfoAction::FetchProposals(id) => UserInfoActionView::FetchProposals(*id),
            UserInfoAction::LookupProposer(id) => UserInfoActionView::LookupProposer(*id),
            UserInfoAction::Reply(r) => UserInfoActionView::Reply(
                match r {
                    Ok(info) => Ok(info@),
                    Err(e) => Err(e@),
                },
            ),
        }
    }
}

/// Whether an event is one the gathering waits for in a state; a state that
/// waits for a proposer has a proposal left to look up.
pub open spec fn user_info_fits(s: UserInfoStateView, e: UserInfoEventView) -> bool {
    match (s, e) {
        (UserInfoStateView::Start, UserInfoEventView::Begin(_)) => true,
        (UserInfoStateView::AwaitSessionUser, UserInfoEventView::SessionUser(_)) => true,
        (UserInfoStateView::AwaitUser, UserInfoEventView::UserFound(_)) => true,
        (UserInfoStateView::AwaitCredit { .. }, UserInfoEventView::CreditFound(_)) => true,
        (UserInfoStateView::AwaitLoans { .. }, UserInfoEventView::LoansListed(_)) => true,
        (UserInfoStateView::AwaitProposals { .. }, UserInfoEventView::ProposalsFound(_)) => true,
        (UserInfoStateView::AwaitProposers { proposals, items, .. }, UserInfoEventView::ProposerFound(_)) => items.len()
            < proposals.len(),
        _ => false,
    }
}

/// The proposal `p` shown with the account `u` that made it.
pub open spec fn proposal_item(p: PrestamoPropuesta, u: Usuario) -> PropuestaItem {
    PropuestaItem { fkPrestamo: p.fkPrestamo, usuario: u }
}

/// One step of gathering the profile page. Any failure before the proposers
/// ends the gathering with 500, but a failed listing of loans or proposals,
/// which is answered as a loan error. Each proposal is then shown, in order,
/// with the account that made it.
pub open spec fn user_info_step(s: UserInfoStateView, e: UserInfoEventView) -> (UserInfoStateView, UserInfoActionView) {
    match (s, e) {
        (UserInfoStateView::Start, UserInfoEventView::Begin(id)) => (
            UserInfoStateView::AwaitSessionUser,
            UserInfoActionView::FetchSessionUser(session_id_prefix() + id),
        ),
        (UserInfoStateView::AwaitSessionUser, UserInfoEventView::SessionUser(r)) => match r {
            Err(f) => (UserInfoStateView::Finished, UserInfoActionView::Reply(Err((INTERNAL_SERVER_ERROR, redis_failure_text(f))))),
            Ok(name) => (UserInfoStateView::AwaitUser, UserInfoActionView::LookupUser(name)),
        },
        (UserInfoStateView::AwaitUser, UserInfoEventView::UserFound(r)) => match r {
            Err(e) => (UserInfoStateView::Finished, UserInfoActionView::Reply(Err(user_fetch_rejection(e)))),
            Ok(u) => (UserInfoStateView::AwaitCredit { usuario: u }, UserInfoActionView::FetchCredit(u.id)),
        },
        (UserInfoStateView::AwaitCredit { usuario }, UserInfoEventView::CreditFound(r)) => match r {
            Err(f) => (UserInfoStateView::Finished, UserInfoActionView::Reply(Err((INTERNAL_SERVER_ERROR, f.text_of())))),
            Ok(p) => (UserInfoStateView::AwaitLoans { usuario, perfil: p }, UserInfoActionView::FetchLoans(usuario.id)),
        },
        (UserInfoStateView::AwaitLoans { usuario, perfil }, UserInfoEventView::LoansListed(r)) => match r {
            Err(e) => (UserInfoStateView::Finished, UserInfoActionView::Reply(Err(loan_rejection(e)))),
            Ok(_) => (UserInfoStateView::AwaitProposals { usuario, perfil }, UserInfoActionView::FetchProposals(usuario.id)),
        },
        (UserInfoStateView::AwaitProposals { usuario, perfil }, UserInfoEventView::ProposalsFound(r)) => match r {
            Err(e) => (UserInfoStateView::Finished, UserInfoActionView::Reply(Err(loan_rejection(e)))),
            Ok(ps) => if ps.len() == 0 {
                (
                    UserInfoStateView::Finished,
                    UserInfoActionView::Reply(Ok(UserInfoView { usuario, perfil, loanProposals: Seq::empty() })),
                )
            } else {
                (
                    UserInfoStateView::AwaitProposers { usuario, perfil, proposals: ps, items: Seq::empty() },
                    UserInfoActionView::LookupProposer(ps[0].fkUsuario),
                )
            },
        },
        (UserInfoStateView::AwaitProposers { usuario, perfil, proposals, items }, UserInfoEventView::ProposerFound(u)) => {
            let items2 = items.push(proposal_item(proposals[items.len() as int], u));
            if items2.len() == proposals.len() {
                (UserInfoStateView::Finished, UserInfoActionView::Reply(Ok(UserInfoView { usuario, perfil, loanProposals: items2 })))
            } else {
                (
                    UserInfoStateView::AwaitProposers { usuario, perfil, proposals, items: items2 },
                    UserInfoActionView::LookupProposer(proposals[items2.len() as int].fkUsuario),
                )
            }
        },
        _ => (UserInfoStateView::Finished, UserInfoActionView::Reply(Err((INTERNAL_SERVER_ERROR, Seq::empty())))),
    }
}

/// One step of gathering the profile page: the decisions of the
/// `getUserInfo` handler.
pub fn getUserInfo(state: UserInfoState, event: UserInfoEvent) -> (res: (UserInfoState, UserInfoAction))
    requires
        user_info_fits(state@, event@),
    ensures
        (res.0@, res.1@) == user_info_step(state@, event@),
{
    match (state, event) {
        (UserInfoState::Start, UserInfoEvent::Begin(id)) => (
            UserInfoState::AwaitSessionUser,
            UserInfoAction::FetchSessionUser(sessionIdKey(id.as_str())),
        ),
        (UserInfoState::AwaitSessionUser, UserInfoEvent::SessionUser(r)) => match r {
            Err(f) => (UserInfoState::Finished, UserInfoAction::Reply(Err(redisRejection(&f)))),
            Ok(name) => (UserInfoState::AwaitUser, UserInfoAction::LookupUser(name)),
        },
        (UserInfoState::AwaitUser, UserInfoEvent::UserFound(r)) => match r {
            Err(e) => (UserInfoState::Finished, UserInfoAction::Reply(Err(userFetchRejection(&e)))),
            Ok(u) => {
                let id = u.id;
                (UserInfoState::AwaitCredit { usuario: u }, UserInfoAction::FetchCredit(id))
            },
        },
        (UserInfoState::AwaitCredit { usuario }, UserInfoEvent::CreditFound(r)) => match r {
            Err(f) => (
                UserInfoState::Finished,
                UserInfoAction::Reply(Err(Rejection { status: INTERNAL_SERVER_ERROR, message: f.text() })),
            ),
            Ok(p) => {
                let id = usuario.id;
                (UserInfoState::AwaitLoans { usuario, perfil: p }, UserInfoAction::FetchLoans(id))
            },
        },
        (UserInfoState::AwaitLoans { usuario, perfil }, UserInfoEvent::LoansListed(r)) => match r {
            Err(e) => (UserInfoState::Finished, UserInfoAction::Reply(Err(loanRejection(&e)))),
            Ok(()) => {
                let id = usuario.id;
                (UserInfoState::AwaitProposals { usuario, perfil }, UserInfoAction::FetchProposals(id))
            },
        },
        (UserInfoState::AwaitProposals { usuario, perfil }, UserInfoEvent::ProposalsFound(r)) => match r {
            Err(e) => (UserInfoState::Finished, UserInfoAction::Reply(Err(loanRejection(&e)))),
            Ok(ps) => {
                if ps.len() == 0 {
                    (
                        UserInfoState::Finished,
                        UserInfoAction::Reply(Ok(UserInfo { usuario, perfil, loanProposals: Vec::new() })),
                    )
                } else {
                    let first = ps[0].fkUsuario;
                    (
                        UserInfoState::AwaitProposers { usuario, perfil, proposals: ps, items: Vec::new() },
                        UserInfoAction::LookupProposer(first),
                    )
                }
            },
        },
        (UserInfoState::AwaitProposers { usuario, perfil, proposals, items }, UserInfoEvent::ProposerFound(u)) => {
            let mut items = items;
            let fk = proposals[items.len()].fkPrestamo;
            items.push(PropuestaItem { fkPrestamo: fk, usuario: u });
            if items.len() == proposals.len() {
                (UserInfoState::Finished, UserInfoAction::Reply(Ok(UserInfo { usuario, perfil, loanProposals: items })))
            } else {
                let next = proposals[items.len()].fkUsuario;
                (UserInfoState::AwaitProposers { usuario, perfil, proposals, items }, UserInfoAction::LookupProposer(next))
            }
        },
        (_, _) => (
            UserInfoState::Finished,
            UserInfoAction::Reply(Err(Rejection { status: INTERNAL_SERVER_ERROR, message: String::new() })),
        ),
    }
}

/// The actions of the gathering over a sequence of events, from a state.
pub open spec fn user_info_run(s: UserInfoStateView, events: Seq<UserInfoEventView>) -> Seq<UserInfoActionView>
    decreases events.len(),
{
    if events.len() == 0 {
        Seq::empty()
    } else {
        let (s1, a) = user_info_step(s, events[0]);
        seq![a] + user_info_run(s1, events.drop_first())
    }
}

/// Whether each event of a sequence is one the gathering waits for.
pub open spec fn user_info_fits_run(s: UserInfoStateView, events: Seq<UserInfoEventView>) -> bool
    decreases events.len(),
{
    events.len() == 0 || (user_info_fits(s, events[0]) && user_info_fits_run(
        user_info_step(s, events[0]).0,
        events.drop_first(),
    ))
}

proof fn lemma_user_info_run_len(s: UserInfoStateView, events: Seq<UserInfoEventView>)
    ensures
        user_info_run(s, events).len() == events.len(),
    decreases events.len(),
{
    if events.len() > 0 {
        lemma_user_info_run_len(user_info_step(s, events[0]).0, events.drop_first());
    }
}

proof fn lemma_user_info_tail(s: UserInfoStateView, events: Seq<UserInfoEventView>, i: int)
    requires
        0 < i < events.len(),
        user_info_fits_run(s, events),
    ensures
        user_info_run(s, events)[i] == user_info_run(user_info_step(s, events[0]).0, events.drop_first())[i - 1],
        user_info_fits_run(user_info_step(s, events[0]).0, events.drop_first()),
        user_info_fits(s, events[0]),
        !(user_info_step(s, events[0]).0 is Finished),
{
    lemma_user_info_run_len(user_info_step(s, events[0]).0, events.drop_first());
    if user_info_step(s, events[0]).0 is Finished {
        assert(!user_info_fits(UserInfoStateView::Finished, events.drop_first()[0]));
    }
}

/// While proposers are looked up, the answer keeps the earlier items and
/// shows each further proposal with the account that the next events bring.
proof fn lemma_user_info_proposers(
    usuario: Usuario,
    perfil: PerfilCrediticio,
    ps: Seq<PrestamoPropuesta>,
    items: Seq<PropuestaItem>,
    events: Seq<UserInfoEventView>,
    i: int,
    info: UserInfoView,
)
    requires
        user_info_fits_run(UserInfoStateView::AwaitProposers { usuario, perfil, proposals: ps, items }, events),
        0 <= i < events.len(),
        user_info_run(UserInfoStateView::AwaitProposers { usuario, perfil, proposals: ps, items }, events)[i]
            == UserInfoActionView::Reply(Ok(info)),
    ensures
        i == ps.len() - items.len() - 1,
        info.usuario == usuario,
        info.perfil == perfil,
        info.loanProposals.len() == ps.len(),
        forall|j: int| 0 <= j < items.len() ==> #[trigger] info.loanProposals[j] == items[j],
        forall|j: int|
            #![trigger ps[j]]
            items.len() <= j < ps.len() ==> (events[j - items.len()] is ProposerFound)
                && info.loanProposals[j] == proposal_item(ps[j], events[j - items.len()]->ProposerFound_0),
        forall|j: int|
            #![trigger ps[j]]
            items.len() < j < ps.len() ==> user_info_run(
                UserInfoStateView::AwaitProposers { usuario, perfil, proposals: ps, items },
                events,
            )[j - items.len() - 1] == UserInfoActionView::LookupProposer(ps[j].fkUsuario),
    decreases events.len(),
{
    let s = UserInfoStateView::AwaitProposers { usuario, perfil, proposals: ps, items };
    let items2 = items.push(proposal_item(ps[items.len() as int], events[0]->ProposerFound_0));
    lemma_user_info_run_len(s, events);
    if i == 0 {
        assert(items2.len() == ps.len());
        assert forall|j: int| #![trigger ps[j]] items.len() <= j < ps.len() implies (events[j - items.len()] is ProposerFound)
            && info.loanProposals[j] == proposal_item(ps[j], events[j - items.len()]->ProposerFound_0) by {
            assert(j == items.len());
        }
    } else {
        lemma_user_info_tail(s, events, i);
        let rest = events.drop_first();
        let s1 = UserInfoStateView::AwaitProposers { usuario, perfil, proposals: ps, items: items2 };
        assert(user_info_step(s, events[0]).0 == s1);
        lemma_user_info_proposers(usuario, perfil, ps, items2, rest, i - 1, info);
        assert forall|j: int| 0 <= j < items.len() implies #[trigger] info.loanProposals[j] == items[j] by {
            assert(info.loanProposals[j] == items2[j]);
        }
        assert forall|j: int| #![trigger ps[j]] items.len() <= j < ps.len() implies (events[j - items.len()] is ProposerFound)
            && info.loanProposals[j] == proposal_item(ps[j], events[j - items.len()]->ProposerFound_0) by {
            if j == items.len() {
                assert(info.loanProposals[j] == items2[j]);
            } else {
                assert(rest[j - items2.len()] == events[j - items.len()]);
            }
        }
        assert forall|j: int| #![trigger ps[j]] items.len() < j < ps.len() implies user_info_run(s, events)[j - items.len() - 1]
            == UserInfoActionView::LookupProposer(ps[j].fkUsuario) by {
            if j > items2.len() {
                lemma_user_info_tail(s, events, j - items.len() - 1);
                assert(user_info_run(s1, rest)[j - items2.len() - 1] == UserInfoActionView::LookupProposer(ps[j].fkUsuario));
            }
        }
    }
}

/// The profile page is answered only for the account of the session that
/// was found, with its credit profile, once its loans were listed; it shows
/// every proposal on the user's loans, in the order read, each with the
/// account looked up by the proposer's id.
pub proof fn law_user_info_shows_proposals(events: Seq<UserInfoEventView>, i: int, info: UserInfoView)
    requires
        user_info_fits_run(UserInfoStateView::Start, events),
        0 <= i < events.len(),
        user_info_run(UserInfoStateView::Start, events)[i] == UserInfoActionView::Reply(Ok(info)),
    ensures
        events.len() > 5,
        events[2] matches UserInfoEventView::UserFound(Ok(u)) && info.usuario == u,
        events[3] matches UserInfoEventView::CreditFound(Ok(p)) && info.perfil == p,
        events[4] matches UserInfoEventView::LoansListed(Ok(_)),
        events[5] matches UserInfoEventView::ProposalsFound(Ok(ps))
            && i == 5 + ps.len()
            && info.loanProposals.len() == ps.len()
            && (forall|j: int|
                0 <= j < ps.len() ==> (#[trigger] events[6 + j] is ProposerFound)
                    && info.loanProposals[j] == proposal_item(ps[j], events[6 + j]->ProposerFound_0))
            && (forall|j: int|
                0 <= j < ps.len() ==> #[trigger] user_info_run(UserInfoStateView::Start, events)[5 + j]
                    == UserInfoActionView::LookupProposer(ps[j].fkUsuario)),
{
    let s0 = UserInfoStateView::Start;
    let s1 = user_info_step(s0, events[0]).0;
    let e1 = events.drop_first();
    let s2 = user_info_step(s1, e1[0]).0;
    let e2 = e1.drop_first();
    let s3 = user_info_step(s2, e2[0]).0;
    let e3 = e2.drop_first();
    let s4 = user_info_step(s3, e3[0]).0;
    let e4 = e3.drop_first();
    lemma_user_info_run_len(s0, events);
    assert(i >= 5) by {
        if i > 0 {
            lemma_user_info_tail(s0, events, i);
            lemma_user_info_run_len(s1, e1);
            if i > 1 {
                lemma_user_info_tail(s1, e1, i - 1);
                lemma_user_info_run_len(s2, e2);
                if i > 2 {
                    lemma_user_info_tail(s2, e2, i - 2);
                    lemma_user_info_run_len(s3, e3);
                    if i > 3 {
                        lemma_user_info_tail(s3, e3, i - 3);
                        lemma_user_info_run_len(s4, e4);
                    }
                }
            }
        }
    }
    lemma_user_info_tail(s0, events, i);
    lemma_user_info_tail(s1, e1, i - 1);
    lemma_user_info_tail(s2, e2, i - 2);
    lemma_user_info_tail(s3, e3, i - 3);
    lemma_user_info_tail(s4, e4, i - 4);
    let s5 = user_info_step(s4, e4[0]).0;
    let e5 = e4.drop_first();
    lemma_user_info_run_len(s5, e5);
    assert(e1[0] == events[1] && e2[0] == events[2] && e3[0] == events[3] && e4[0] == events[4] && e5[0] == events[5]);
    let u = s5->AwaitProposals_usuario;
    let p = s5->AwaitProposals_perfil;
    let ps = e5[0]->ProposalsFound_0->Ok_0;
    let s6 = user_info_step(s5, e5[0]).0;
    let e6 = e5.drop_first();
    if i > 5 {
        lemma_user_info_tail(s5, e5, i - 5);
        assert(s6 == UserInfoStateView::AwaitProposers { usuario: u, perfil: p, proposals: ps, items: Seq::empty() });
        lemma_user_info_proposers(u, p, ps, Seq::empty(), e6, i - 6, info);
    }
    assert forall|j: int| 0 <= j < ps.len() implies (#[trigger] events[6 + j] is ProposerFound)
        && info.loanProposals[j] == proposal_item(ps[j], events[6 + j]->ProposerFound_0) by {
        assert(e6[j] == events[6 + j]);
    }
    assert forall|j: int| 0 <= j < ps.len() implies #[trigger] user_info_run(UserInfoStateView::Start, events)[5 + j]
        == UserInfoActionView::LookupProposer(ps[j].fkUsuario) by {
        lemma_user_info_tail(s0, events, 5 + j);
        lemma_user_info_tail(s1, e1, 4 + j);
        lemma_user_info_tail(s2, e2, 3 + j);
        lemma_user_info_tail(s3, e3, 2 + j);
        lemma_user_info_tail(s4, e4, 1 + j);
        if j > 0 {
            lemma_user_info_tail(s5, e5, j);
        }
    }
}

/// The events that bring the accounts that made the proposals, in order.
pub open spec fn proposer_events(proposers: Seq<Usuario>) -> Seq<UserInfoEventView> {
    Seq::new(proposers.len(), |k: int| UserInfoEventView::ProposerFound(proposers[k]))
}

/// The proposals `ps` from index `from` on, each shown with the account in
/// `proposers` at the same place counted from `from`.
pub open spec fn shown_from(ps: Seq<PrestamoPropuesta>, from: int, proposers: Seq<Usuario>) -> Seq<PropuestaItem> {
    Seq::new(proposers.len(), |k: int| PropuestaItem { fkPrestamo: ps[from + k].fkPrestamo, usuario: proposers[k] })
}

proof fn lemma_user_info_shows_rest(
    u: Usuario,
    p: PerfilCrediticio,
    ps: Seq<PrestamoPropuesta>,
    items: Seq<PropuestaItem>,
    proposers: Seq<Usuario>,
)
    requires
        proposers.len() > 0,
        items.len() + proposers.len() == ps.len(),
    ensures
        user_info_fits_run(
            UserInfoStateView::AwaitProposers { usuario: u, perfil: p, proposals: ps, items },
            proposer_events(proposers),
        ),
        user_info_run(
            UserInfoStateView::AwaitProposers { usuario: u, perfil: p, proposals: ps, items },
            proposer_events(proposers),
        ).last() == UserInfoActionView::Reply(
            Ok(UserInfoView { usuario: u, perfil: p, loanProposals: items + shown_from(ps, items.len() as int, proposers) }),
        ),
    decreases proposers.len(),
{
    let s = UserInfoStateView::AwaitProposers { usuario: u, perfil: p, proposals: ps, items };
    let evs = proposer_events(proposers);
    let items2 = items.push(proposal_item(ps[items.len() as int], proposers[0]));
    assert(evs[0] == UserInfoEventView::ProposerFound(proposers[0]));
    lemma_user_info_run_len(s, evs);
    assert(user_info_fits(s, evs[0]));
    if proposers.len() == 1 {
        assert(evs.drop_first().len() == 0);
        assert(user_info_fits_run(user_info_step(s, evs[0]).0, evs.drop_first()));
        assert(items2 =~= items + shown_from(ps, items.len() as int, proposers));
    } else {
        let rest = proposers.drop_first();
        assert(proposer_events(rest) =~= evs.drop_first());
        lemma_user_info_shows_rest(u, p, ps, items2, rest);
        let s1 = UserInfoStateView::AwaitProposers { usuario: u, perfil: p, proposals: ps, items: items2 };
        assert(user_info_step(s, evs[0]).0 == s1);
        lemma_user_info_run_len(s1, evs.drop_first());
        assert(items2 + shown_from(ps, items2.len() as int, rest) =~= items + shown_from(ps, items.len() as int, proposers));
        assert(user_info_run(s, evs).last() == user_info_run(s1, evs.drop_first()).last());
    }
}

/// The profile page of a session's account, whose credit profile and loans
/// are read, shows the account, its credit profile, and every proposal on
/// its loans in the order read, each with the account found for it.
pub proof fn law_user_info_completes(
    sessionId: Seq<char>,
    name: Seq<char>,
    u: Usuario,
    p: PerfilCrediticio,
    ps: Seq<PrestamoPropuesta>,
    proposers: Seq<Usuario>,
)
    requires
        proposers.len() == ps.len(),
    ensures
        user_info_fits_run(
            UserInfoStateView::Start,
            seq![
                UserInfoEventView::Begin(sessionId),
                UserInfoEventView::SessionUser(Ok(name)),
                UserInfoEventView::UserFound(Ok(u)),
                UserInfoEventView::CreditFound(Ok(p)),
                UserInfoEventView::LoansListed(Ok(())),
                UserInfoEventView::ProposalsFound(Ok(ps)),
            ] + proposer_events(proposers),
        ),
        user_info_run(
            UserInfoStateView::Start,
            seq![
                UserInfoEventView::Begin(sessionId),
                UserInfoEventView::SessionUser(Ok(name)),
                UserInfoEventView::UserFound(Ok(u)),
                UserInfoEventView::CreditFound(Ok(p)),
                UserInfoEventView::LoansListed(Ok(())),
                UserInfoEventView::ProposalsFound(Ok(ps)),
            ] + proposer_events(proposers),
        ).last() == UserInfoActionView::Reply(
            Ok(UserInfoView { usuario: u, perfil: p, loanProposals: shown_from(ps, 0, proposers) }),
        ),
{
    let evs = seq![
        UserInfoEventView::Begin(sessionId),
        UserInfoEventView::SessionUser(Ok(name)),
        UserInfoEventView::UserFound(Ok(u)),
        UserInfoEventView::CreditFound(Ok(p)),
        UserInfoEventView::LoansListed(Ok(())),
        UserInfoEventView::ProposalsFound(Ok(ps)),
    ] + proposer_events(proposers);
    let s5 = UserInfoStateView::AwaitProposals { usuario: u, perfil: p };
    let e5 = evs.drop_first().drop_first().drop_first().drop_first().drop_first();
    assert(e5 =~= seq![UserInfoEventView::ProposalsFound(Ok(ps))] + proposer_events(proposers));
    let e6 = e5.drop_first();
    assert(e6 =~= proposer_events(proposers));
    lemma_user_info_run_len(UserInfoStateView::Start, evs);
    lemma_user_info_run_len(s5, e5);
    assert(e5[0] == UserInfoEventView::ProposalsFound(Ok(ps)));
    if ps.len() == 0 {
        assert(e6.len() == 0);
        assert(user_info_step(s5, e5[0]).0 == UserInfoStateView::Finished);
        assert(user_info_fits_run(UserInfoStateView::Finished, e6));
        assert(user_info_fits(s5, e5[0]));
        assert(user_info_fits_run(s5, e5));
        assert(shown_from(ps, 0, proposers) =~= Seq::<PropuestaItem>::empty());
    } else {
        let s6 = UserInfoStateView::AwaitProposers { usuario: u, perfil: p, proposals: ps, items: Seq::empty() };
        lemma_user_info_shows_rest(u, p, ps, Seq::empty(), proposers);
        lemma_user_info_run_len(s6, e6);
        assert(Seq::<PropuestaItem>::empty() + shown_from(ps, 0, proposers) =~= shown_from(ps, 0, proposers));
        assert(user_info_step(s5, e5[0]).0 == s6);
        assert(user_info_fits_run(s5, e5));
        assert(user_info_run(s5, e5).last() == user_info_run(s6, e6).last());
    }
    let s1 = UserInfoStateView::AwaitSessionUser;
    let s2 = UserInfoStateView::AwaitUser;
    let s3 = UserInfoStateView::AwaitCredit { usuario: u };
    let s4 = UserInfoStateView::AwaitLoans { usuario: u, perfil: p };
    let e1 = evs.drop_first();
    let e2 = e1.drop_first();
    let e3 = e2.drop_first();
    let e4 = e3.drop_first();
    assert(user_info_fits_run(s5, e5));
    assert(user_info_fits_run(s4, e4));
    assert(user_info_fits_run(s3, e3));
    assert(user_info_fits_run(s2, e2));
    assert(user_info_fits_run(s1, e1));
    assert(user_info_run(s4, e4).last() == user_info_run(s5, e5).last());
    assert(user_info_run(s3, e3).last() == user_info_run(s4, e4).last());
    assert(user_info_run(s2, e2).last() == user_info_run(s3, e3).last());
    assert(user_info_run(s1, e1).last() == user_info_run(s2, e2).last());
    assert(user_info_run(UserInfoStateView::Start, evs).last() == user_info_run(s1, e1).last());
}

} // verus!
