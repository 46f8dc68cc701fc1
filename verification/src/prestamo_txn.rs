//! Payments recorded against a loan, by their transaction id on a chain.
use vstd::prelude::*;
use crate::prestamo::{LoanError, Prestamo};
use crate::usuario::{TipoUsuario, Usuario};

verus! {

/// The chains on which payments are accepted.
#[derive(Debug, Clone, Copy, PartialEq, Eq, Structural)]
pub enum AcceptedBlockchains {
    Monero,
    Bitcoin,
    BitcoinTestnet,
    Ethereum,
    EthereumTestnet,
}

impl Default for AcceptedBlockchains {
    fn default() -> (res: Self)
        ensures
            res == AcceptedBlockchains::Monero,
    {
        AcceptedBlockchains::Monero
    }
}

/// Every accepted chain, in the order they are declared.
pub open spec fn all_blockchains() -> Seq<AcceptedBlockchains> {
    seq![
        AcceptedBlockchains::Monero,
        AcceptedBlockchains::Bitcoin,
        AcceptedBlockchains::BitcoinTestnet,
        AcceptedBlockchains::Ethereum,
        AcceptedBlockchains::EthereumTestnet,
    ]
}

/// The accepted chains, in the order they are declared; each occurs once.
pub fn getAcceptedCurrencies() -> (res: Vec<AcceptedBlockchains>)
    ensures
        res@ == all_blockchains(),
        forall|c: AcceptedBlockchains| #[trigger] res@.contains(c),
{
    let mut res: Vec<AcceptedBlockchains> = Vec::new();
    res.push(AcceptedBlockchains::Monero);
    res.push(AcceptedBlockchains::Bitcoin);
    res.push(AcceptedBlockchains::BitcoinTestnet);
    res.push(AcceptedBlockchains::Ethereum);
    res.push(AcceptedBlockchains::EthereumTestnet);
    proof {
        assert forall|c: AcceptedBlockchains| #[trigger] res@.contains(c) by {
            match c {
                AcceptedBlockchains::Monero => assert(res@[0] == c),
                AcceptedBlockchains::Bitcoin => assert(res@[1] == c),
                AcceptedBlockchains::BitcoinTestnet => assert(res@[2] == c),
                AcceptedBlockchains::Ethereum => assert(res@[3] == c),
                AcceptedBlockchains::EthereumTestnet => assert(res@[4] == c),
            }
        }
    }
    res
}

/// A payment of a loan: the loan and the transaction id.
#[derive(Debug)]
pub struct PrestamoTxn {
    pub fkPrestamo: i64,
    pub txnId: String,
}

/// A request to record a payment.
#[derive(Debug)]
pub struct InputTxn {
    pub txn: PrestamoTxn,
}

/// Whether the account may record payments at all (before the loan is read).
pub open spec fn txn_user_outcome(user: Usuario) -> Result<(), LoanError> {
    if user.tipousuario == Some(TipoUsuario::Administrador) {
        Err(LoanError::InvalidUserType { found: Some(TipoUsuario::Administrador) })
    } else {
        Ok(())
    }
}

/// Whether `user` may record a payment of `loan`.
pub open spec fn txn_outcome(user: Usuario, loan: Prestamo) -> Result<(), LoanError> {
    match txn_user_outcome(user) {
        Err(e) => Err(e),
        Ok(()) => match user.tipousuario {
            Some(TipoUsuario::Prestamista) => if loan.fkPrestatario is None {
                Err(LoanError::UserUnauthorized { expected: None, found: Some(TipoUsuario::Prestamista) })
            } else {
                Ok(())
            },
            Some(TipoUsuario::Prestatario) => if loan.fkPrestamista is None {
                Err(LoanError::UserUnauthorized { expected: None, found: Some(TipoUsuario::Prestatario) })
            } else {
                Ok(())
            },
            _ => Ok(()),
        },
    }
}

impl PrestamoTxn {
    /// The first check of a payment, made before the loan is read:
    /// administrators may not record payments.
    pub fn authorizeTxnUser(user: &Usuario) -> (res: Result<(), LoanError>)
        ensures
            res == txn_user_outcome(*user),
    {
        if user.tipousuario == Some(TipoUsuario::Administrador) {
            Err(LoanError::InvalidUserType { found: Some(TipoUsuario::Administrador) })
        } else {
            Ok(())
        }
    }

    /// Decides whether `user` may record this payment of `loan`: not an
    /// administrator; a lender only on a loan that has a borrower, a borrower
    /// only on a loan that has a lender. On success the payment is ready to be
    /// stored.
    pub fn addTxn(&self, user: &Usuario, loan: &Prestamo) -> (res: Result<(), LoanError>)
        ensures
            res == txn_outcome(*user, *loan),
    {
        Self::authorizeTxnUser(user)?;
        match user.tipousuario {
            Some(TipoUsuario::Administrador) => Err(LoanError::InvalidDate),
            Some(TipoUsuario::Prestamista) => {
                if loan.fkPrestatario.is_none() {
                    Err(LoanError::UserUnauthorized { expected: None, found: Some(TipoUsuario::Prestamista) })
                } else {
                    Ok(())
                }
            },
            Some(TipoUsuario::Prestatario) => {
                if loan.fkPrestamista.is_none() {
                    Err(LoanError::UserUnauthorized { expected: None, found: Some(TipoUsuario::Prestatario) })
                } else {
                    Ok(())
                }
            },
            None => Ok(()),
        }
    }
}

/// A payment is recorded by a lender only on a loan with a borrower, and by
/// a borrower only on a loan with a lender; administrators never record one.
pub proof fn law_txn_parties(user: Usuario, loan: Prestamo)
    ensures
        txn_outcome(user, loan) is Ok ==> user.tipousuario != Some(TipoUsuario::Administrador),
        (txn_outcome(user, loan) is Ok && user.tipousuario == Some(TipoUsuario::Prestamista))
            ==> loan.fkPrestatario is Some,
        (txn_outcome(user, loan) is Ok && user.tipousuario == Some(TipoUsuario::Prestatario))
            ==> loan.fkPrestamista is Some,
{
}

} // verus!
