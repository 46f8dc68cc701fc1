//! Loans: offers made by lenders and requests made by borrowers.
use vstd::prelude::*;
use crate::errors::{DbFailure, Rejection, BAD_REQUEST, FORBIDDEN, INTERNAL_SERVER_ERROR};
use crate::misc::{utc_now, Moment};
use crate::usuario::{TipoUsuario, Usuario};

verus! {

/// Why an operation on a loan failed.
#[derive(Debug)]
pub enum LoanError {
    /// A database query failed.
    DbError(DbFailure),
    /// The payment deadline is not after the creation of the loan.
    InvalidDate,
    /// The user already takes part in the loan.
    InvalidUser,
    /// The user's kind of account (or its absence) does not allow this.
    InvalidUserType { found: Option<TipoUsuario> },
    /// The user's kind of account is not the one the operation needs.
    UserUnauthorized { expected: Option<TipoUsuario>, found: Option<TipoUsuario> },
}

/// The debug text of a kind of account.
pub open spec fn tipo_text(t: TipoUsuario) -> Seq<char> {
    match t {
        TipoUsuario::Prestatario => "Prestatario"@,
        TipoUsuario::Prestamista => "Prestamista"@,
        TipoUsuario::Administrador => "Administrador"@,
    }
}

/// The debug text of an optional kind of account: `None` or `Some(..)`.
pub open spec fn opt_tipo_text(t: Option<TipoUsuario>) -> Seq<char> {
    match t {
        None => "None"@,
        Some(t) => "Some("@ + tipo_text(t) + ")"@,
    }
}

/// The text of a loan error.
pub open spec fn loan_error_text(e: LoanError) -> Seq<char> {
    match e {
        LoanError::DbError(_) => "There was an error while executing a database query"@,
        LoanError::InvalidDate => "The provided date is invalid"@,
        LoanError::InvalidUser => "The provided user can not take part in this loan"@,
        LoanError::InvalidUserType { found } => "User provided has an invalid type "@ + opt_tipo_text(found),
        LoanError::UserUnauthorized { .. } => "User is unauthorized for this operation (expected: ?, found: ?)"@,
    }
}

fn tipo_str(t: TipoUsuario) -> (res: &'static str)
    ensures
        res@ == tipo_text(t),
{
    match t {
        TipoUsuario::Prestatario => "Prestatario",
        TipoUsuario::Prestamista => "Prestamista",
        TipoUsuario::Administrador => "Administrador",
    }
}

impl LoanError {
    /// The error's text.
    pub fn message(&self) -> (res: String)
        ensures
            res@ == loan_error_text(*self),
    {
        match self {
            LoanError::DbError(_) => String::from_str("There was an error while executing a database query"),
            LoanError::InvalidDate => String::from_str("The provided date is invalid"),
            LoanError::InvalidUser => String::from_str("The provided user can not take part in this loan"),
            LoanError::InvalidUserType { found } => {
                let mut s = String::from_str("User provided has an invalid type ");
                match found {
                    None => s.append("None"),
                    Some(t) => {
                        s.append("Some(");
                        s.append(tipo_str(*t));
                        s.append(")");
                    },
                }
                s
            },
            LoanError::UserUnauthorized { .. } => String::from_str(
                "User is unauthorized for this operation (expected: ?, found: ?)",
            ),
        }
    }
}

/// The status a handler answers a loan error with.
pub open spec fn loan_error_status(e: LoanError) -> u16 {
    match e {
        LoanError::DbError(_) => INTERNAL_SERVER_ERROR,
        LoanError::InvalidDate | LoanError::InvalidUser => BAD_REQUEST,
        LoanError::InvalidUserType { .. } => BAD_REQUEST,
        LoanError::UserUnauthorized { .. } => FORBIDDEN,
    }
}

/// The answer to a loan error, as a status and a text.
pub open spec fn loan_rejection(e: LoanError) -> (u16, Seq<char>) {
    (loan_error_status(e), loan_error_text(e))
}

/// The answer to a loan error: a failed query is the server's fault (500),
/// a wrong date or user the client's (400), a user without the right kind of
/// account is forbidden (403).
pub fn loanRejection(e: &LoanError) -> (res: Rejection)
    ensures
        res.status == loan_error_status(*e),
        res.message@ == loan_error_text(*e),
        res@ == loan_rejection(*e),
{
    let status = match e {
        LoanError::DbError(_) => INTERNAL_SERVER_ERROR,
        LoanError::InvalidDate | LoanError::InvalidUser => BAD_REQUEST,
        LoanError::InvalidUserType { .. } => BAD_REQUEST,
        LoanError::UserUnauthorized { .. } => FORBIDDEN,
    };
    Rejection { status, message: e.message() }
}

/// A loan as its rules read it. It was created at `fechaCreacion`; the
/// payment deadline is in whole seconds since the Unix epoch. A loan offer
/// has a lender (`fkPrestamista`) and no borrower yet, a loan request the
/// other way round.
#[derive(Debug)]
pub struct Prestamo {
    pub id: i64,
    pub fechaCreacion: Moment,
    pub plazoPago: i64,
    pub intervaloPago: String,
    pub riesgo: i32,
    pub fkPrestatario: Option<i64>,
    pub fkPrestamista: Option<i64>,
}

/// Whether an account may create a loan in `role` (lender for offers,
/// borrower for requests): `None` where it may, else the error.
pub open spec fn role_error(tipo: Option<TipoUsuario>, role: TipoUsuario) -> Option<LoanError> {
    match tipo {
        None => Some(LoanError::InvalidUserType { found: None }),
        Some(TipoUsuario::Administrador) => Some(
            LoanError::InvalidUserType { found: Some(TipoUsuario::Administrador) },
        ),
        Some(t) => if t == role {
            None
        } else {
            Some(LoanError::UserUnauthorized { expected: Some(role), found: Some(t) })
        },
    }
}

/// The outcome of creating a loan in `role` at time `now` with the payment
/// deadline `plazo`: the account's kind is checked first, then the deadline
/// must lie after `now`.
pub open spec fn loan_creation(tipo: Option<TipoUsuario>, role: TipoUsuario, now: int, plazo: int) -> Result<(), LoanError> {
    match role_error(tipo, role) {
        Some(e) => Err(e),
        None => if now >= plazo { Err(LoanError::InvalidDate) } else { Ok(()) },
    }
}

/// Checks the rules for creating a loan in `role` at `now`.
pub fn checkLoanCreation(tipo: Option<TipoUsuario>, role: TipoUsuario, now: i64, plazo: i64) -> (res: Result<(), LoanError>)
    requires
        role == TipoUsuario::Prestamista || role == TipoUsuario::Prestatario,
    ensures
        res == loan_creation(tipo, role, now as int, plazo as int),
{
    match tipo {
        None => return Err(LoanError::InvalidUserType { found: None }),
        Some(TipoUsuario::Administrador) => return Err(
            LoanError::InvalidUserType { found: Some(TipoUsuario::Administrador) },
        ),
        Some(t) => {
            if t != role {
                return Err(LoanError::UserUnauthorized { expected: Some(role), found: Some(t) });
            }
        },
    }
    if now >= plazo {
        Err(LoanError::InvalidDate)
    } else {
        Ok(())
    }
}

impl Prestamo {
    fn create(&mut self, creator: &Usuario, role: TipoUsuario) -> (res: Result<(), LoanError>)
        requires
            role == TipoUsuario::Prestamista || role == TipoUsuario::Prestatario,
        ensures
            match role_error(creator.tipousuario, role) {
                Some(e) => res == Err::<(), LoanError>(e) && *final(self) == *old(self),
                None => {
                    &&& *final(self) == Prestamo { fechaCreacion: final(self).fechaCreacion, ..*old(self) }
                    &&& res == loan_creation(creator.tipousuario, role, final(self).fechaCreacion.secs as int, old(self).plazoPago as int)
                },
            },
    {
        match creator.tipousuario {
            None => return Err(LoanError::InvalidUserType { found: None }),
            Some(TipoUsuario::Administrador) => return Err(
                LoanError::InvalidUserType { found: Some(TipoUsuario::Administrador) },
            ),
            Some(t) => {
                if t != role {
                    return Err(LoanError::UserUnauthorized { expected: Some(role), found: Some(t) });
                }
            },
        }
        self.fechaCreacion = utc_now();
        checkLoanCreation(creator.tipousuario, role, self.fechaCreacion.secs, self.plazoPago)
    }

    /// Prepares a loan offer by `offerer`: only a lender may offer; the
    /// creation date becomes now, and the payment deadline must lie after it.
    /// On success the offer is ready to be stored with the offerer as lender.
    pub fn createLoanOffer(&mut self, offerer: &Usuario) -> (res: Result<(), LoanError>)
        ensures
            match role_error(offerer.tipousuario, TipoUsuario::Prestamista) {
                Some(e) => res == Err::<(), LoanError>(e) && *final(self) == *old(self),
                None => {
                    &&& *final(self) == Prestamo { fechaCreacion: final(self).fechaCreacion, ..*old(self) }
                    &&& res == loan_creation(offerer.tipousuario, TipoUsuario::Prestamista,
                        final(self).fechaCreacion.secs as int, old(self).plazoPago as int)
                },
            },
    {
        self.create(offerer, TipoUsuario::Prestamista)
    }

    /// Prepares a loan request by `requester`: only a borrower may request;
    /// the creation date becomes now, and the payment deadline must lie after
    /// it. On success the request is ready to be stored with the requester as
    /// borrower.
    pub fn createLoanRequest(&mut self, requester: &Usuario) -> (res: Result<(), LoanError>)
        ensures
            match role_error(requester.tipousuario, TipoUsuario::Prestatario) {
                Some(e) => res == Err::<(), LoanError>(e) && *final(self) == *old(self),
                None => {
                    &&& *final(self) == Prestamo { fechaCreacion: final(self).fechaCreacion, ..*old(self) }
                    &&& res == loan_creation(requester.tipousuario, TipoUsuario::Prestatario,
                        final(self).fechaCreacion.secs as int, old(self).plazoPago as int)
                },
            },
    {
        self.create(requester, TipoUsuario::Prestatario)
    }

    /// The user who created the loan: the lender where there is one, else
    /// the borrower; `None` for a loan with neither.
    pub fn loanCreatorId(&self) -> (res: Option<i64>)
        ensures
            res == match self.fkPrestamista {
                Some(l) => Some(l),
                None => self.fkPrestatario,
            },
    {
        match self.fkPrestamista {
            Some(l) => Some(l),
            None => self.fkPrestatario,
        }
    }
}

/// Creating a loan succeeds exactly for a lender (offers) or a borrower
/// (requests) whose deadline lies after the creation time; so no account can
/// both offer and request loans.
pub proof fn law_loan_creation(tipo: Option<TipoUsuario>, now: int, plazo: int)
    ensures
        loan_creation(tipo, TipoUsuario::Prestamista, now, plazo) is Ok
            <==> (tipo == Some(TipoUsuario::Prestamista) && now < plazo),
        loan_creation(tipo, TipoUsuario::Prestatario, now, plazo) is Ok
            <==> (tipo == Some(TipoUsuario::Prestatario) && now < plazo),
        !(role_error(tipo, TipoUsuario::Prestamista) is None && role_error(tipo, TipoUsuario::Prestatario) is None),
{
}

} // verus!
