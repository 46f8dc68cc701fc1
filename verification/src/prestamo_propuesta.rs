//! Proposals to complete a loan: a lender takes up a request, or a borrower
//! takes up an offer.
use vstd::prelude::*;
use crate::prestamo::{LoanError, Prestamo};
use crate::usuario::{TipoUsuario, Usuario};

verus! {

/// A stored proposal: who proposes to complete which loan, with the wallet
/// that receives the money.
#[derive(Debug)]
pub struct PrestamoPropuesta {
    pub fkPrestamo: i64,
    pub walletId: String,
    pub fkUsuario: i64,
}

/// A proposal as shown to the loan's owner: the loan and the proposing user.
#[derive(Debug)]
pub struct PropuestaItem {
    pub fkPrestamo: i64,
    pub usuario: Usuario,
}

/// The side from which a proposal completes a loan: a lender fills the
/// lender's place (stored without wallet), a borrower the borrower's place
/// (stored with the wallet given).
#[derive(Debug, Clone, Copy, PartialEq, Eq, Structural)]
pub enum ProposalRole {
    Lender,
    Borrower,
}

/// The outcome of a proposal by `user` on `loan`.
pub open spec fn proposal_outcome(user: Usuario, loan: Prestamo) -> Result<ProposalRole, LoanError> {
    if loan.fkPrestamista == Some(user.id) || loan.fkPrestatario == Some(user.id) {
        Err(LoanError::InvalidUser)
    } else {
        match user.tipousuario {
            None => Err(LoanError::InvalidUserType { found: None }),
            Some(TipoUsuario::Administrador) => Err(
                LoanError::InvalidUserType { found: Some(TipoUsuario::Administrador) },
            ),
            Some(TipoUsuario::Prestamista) => if loan.fkPrestamista is Some {
                Err(LoanError::UserUnauthorized { expected: None, found: Some(TipoUsuario::Prestamista) })
            } else {
                Ok(ProposalRole::Lender)
            },
            Some(TipoUsuario::Prestatario) => if loan.fkPrestatario is Some {
                Err(LoanError::UserUnauthorized { expected: None, found: Some(TipoUsuario::Prestatario) })
            } else {
                Ok(ProposalRole::Borrower)
            },
        }
    }
}

impl PrestamoPropuesta {
    /// Decides a proposal by `user` to complete `loan`: nobody who already
    /// takes part in the loan may propose; an administrator or a user without
    /// a kind may not; a lender may only fill a loan that has no lender, a
    /// borrower only one that has no borrower.
    pub fn proposeCompleteLoan(user: &Usuario, loan: &Prestamo) -> (res: Result<ProposalRole, LoanError>)
        ensures
            res == proposal_outcome(*user, *loan),
    {
        if loan.fkPrestamista == Some(user.id) || loan.fkPrestatario == Some(user.id) {
            return Err(LoanError::InvalidUser);
        }
        match user.tipousuario {
            None => Err(LoanError::InvalidUserType { found: None }),
            Some(TipoUsuario::Administrador) => Err(
                LoanError::InvalidUserType { found: Some(TipoUsuario::Administrador) },
            ),
            Some(TipoUsuario::Prestamista) => {
                if loan.fkPrestamista.is_some() {
                    Err(LoanError::UserUnauthorized { expected: None, found: Some(TipoUsuario::Prestamista) })
                } else {
                    Ok(ProposalRole::Lender)
                }
            },
            Some(TipoUsuario::Prestatario) => {
                if loan.fkPrestatario.is_some() {
                    Err(LoanError::UserUnauthorized { expected: None, found: Some(TipoUsuario::Prestatario) })
                } else {
                    Ok(ProposalRole::Borrower)
                }
            },
        }
    }
}

/// An accepted proposal comes from a user outside the loan and fills an
/// empty place that matches the user's kind: lenders fill the lender's
/// place, borrowers the borrower's.
pub proof fn law_proposal_fills_empty_place(user: Usuario, loan: Prestamo)
    ensures
        proposal_outcome(user, loan) is Ok ==> {
            &&& loan.fkPrestamista != Some(user.id)
            &&& loan.fkPrestatario != Some(user.id)
        },
        proposal_outcome(user, loan) == Ok::<ProposalRole, LoanError>(ProposalRole::Lender) ==> {
            &&& user.tipousuario == Some(TipoUsuario::Prestamista)
            &&& loan.fkPrestamista is None
        },
        proposal_outcome(user, loan) == Ok::<ProposalRole, LoanError>(ProposalRole::Borrower) ==> {
            &&& user.tipousuario == Some(TipoUsuario::Prestatario)
            &&& loan.fkPrestatario is None
        },
{
}

/// A user outside the loan may propose to fill the empty place of its kind:
/// a borrower the borrower's place, a lender the lender's place. A party of
/// the loan may not propose on it.
pub proof fn law_proposal_allowed_when_place_empty(user: Usuario, loan: Prestamo)
    ensures
        (loan.fkPrestamista == Some(user.id) || loan.fkPrestatario == Some(user.id))
            ==> proposal_outcome(user, loan) == Err::<ProposalRole, LoanError>(LoanError::InvalidUser),
        (loan.fkPrestamista != Some(user.id) && loan.fkPrestatario != Some(user.id)
            && user.tipousuario == Some(TipoUsuario::Prestatario) && loan.fkPrestatario is None)
            ==> proposal_outcome(user, loan) == Ok::<ProposalRole, LoanError>(ProposalRole::Borrower),
        (loan.fkPrestamista != Some(user.id) && loan.fkPrestatario != Some(user.id)
            && user.tipousuario == Some(TipoUsuario::Prestamista) && loan.fkPrestamista is None)
            ==> proposal_outcome(user, loan) == Ok::<ProposalRole, LoanError>(ProposalRole::Lender),
{
}

} // verus!
