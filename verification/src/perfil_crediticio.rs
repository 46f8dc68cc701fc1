//! The credit profile a borrower registers with.
use vstd::prelude::*;
use crate::errors::{DbFailure, Rejection, rowsAffectedOutcome, BAD_REQUEST, INTERNAL_SERVER_ERROR};

verus! {

/// A user's credit profile. The documents are optional texts.
#[derive(Debug)]
pub struct PerfilCrediticio {
    pub id: i64,
    pub fkUsuario: i64,
    pub dni: String,
    pub historialCrediticio: Option<String>,
    pub extractoBancario: Option<String>,
    pub comprobanteDeIngreso: Option<String>,
    pub descripcionFinanciera: Option<String>,
}

/// A field after a change: the new value where one is given, else the old.
pub open spec fn changed(old: Option<String>, new: Option<String>) -> Option<String> {
    match new {
        Some(v) => Some(v),
        None => old,
    }
}

/// A profile after a change: each document that the change gives replaces
/// the old one; id, owner and DNI stay.
pub open spec fn profile_changed(p: PerfilCrediticio, change: PerfilCrediticio) -> PerfilCrediticio {
    PerfilCrediticio {
        historialCrediticio: changed(p.historialCrediticio, change.historialCrediticio),
        extractoBancario: changed(p.extractoBancario, change.extractoBancario),
        comprobanteDeIngreso: changed(p.comprobanteDeIngreso, change.comprobanteDeIngreso),
        descripcionFinanciera: changed(p.descripcionFinanciera, change.descripcionFinanciera),
        ..p
    }
}

fn clone_opt(s: &Option<String>) -> (res: Option<String>)
    ensures
        res == *s,
{
    match s {
        Some(v) => Some(v.clone()),
        None => None,
    }
}

impl PerfilCrediticio {
    /// Applies a change of credit data: every document given in `change`
    /// replaces the stored one, the others stay.
    pub fn applyChanges(&mut self, change: &PerfilCrediticio)
        ensures
            *final(self) == profile_changed(*old(self), *change),
    {
        if change.historialCrediticio.is_some() {
            self.historialCrediticio = clone_opt(&change.historialCrediticio);
        }
        if change.extractoBancario.is_some() {
            self.extractoBancario = clone_opt(&change.extractoBancario);
        }
        if change.comprobanteDeIngreso.is_some() {
            self.comprobanteDeIngreso = clone_opt(&change.comprobanteDeIngreso);
        }
        if change.descripcionFinanciera.is_some() {
            self.descripcionFinanciera = clone_opt(&change.descripcionFinanciera);
        }
    }
}

/// Applying the same change twice gives what applying it once gives, and a
/// change that gives no document leaves the profile as it was.
pub proof fn law_profile_change(p: PerfilCrediticio, change: PerfilCrediticio)
    ensures
        profile_changed(profile_changed(p, change), change) == profile_changed(p, change),
        (change.historialCrediticio is None && change.extractoBancario is None
            && change.comprobanteDeIngreso is None && change.descripcionFinanciera is None)
            ==> profile_changed(p, change) == p,
{
}

/// Each document that a change gives is the one the changed profile holds;
/// each document it leaves out is the profile's old one; id, owner and DNI
/// stay.
pub proof fn law_profile_change_per_document(p: PerfilCrediticio, change: PerfilCrediticio)
    ensures
        change.historialCrediticio is Some
            ==> profile_changed(p, change).historialCrediticio == change.historialCrediticio,
        change.historialCrediticio is None ==> profile_changed(p, change).historialCrediticio == p.historialCrediticio,
        change.extractoBancario is Some ==> profile_changed(p, change).extractoBancario == change.extractoBancario,
        change.extractoBancario is None ==> profile_changed(p, change).extractoBancario == p.extractoBancario,
        change.comprobanteDeIngreso is Some
            ==> profile_changed(p, change).comprobanteDeIngreso == change.comprobanteDeIngreso,
        change.comprobanteDeIngreso is None ==> profile_changed(p, change).comprobanteDeIngreso == p.comprobanteDeIngreso,
        change.descripcionFinanciera is Some
            ==> profile_changed(p, change).descripcionFinanciera == change.descripcionFinanciera,
        change.descripcionFinanciera is None
            ==> profile_changed(p, change).descripcionFinanciera == p.descripcionFinanciera,
        profile_changed(p, change).id == p.id,
        profile_changed(p, change).fkUsuario == p.fkUsuario,
        profile_changed(p, change).dni == p.dni,
{
}

/// The answer to a failed read of a credit profile: a missing profile is the
/// client's fault (400), anything else the server's (500).
pub fn creditLookupRejection(f: &DbFailure) -> (res: Rejection)
    ensures
        match f {
            DbFailure::RowNotFound { .. } => res.status == BAD_REQUEST && res.message@ == "Credit history does not exist"@,
            _ => res.status == INTERNAL_SERVER_ERROR && res.message@ == f.text_of(),
        },
{
    match f {
        DbFailure::RowNotFound { .. } => Rejection::new(BAD_REQUEST, "Credit history does not exist"),
        _ => Rejection { status: INTERNAL_SERVER_ERROR, message: f.text() },
    }
}

/// The answer to an update of credit data, by the rows it changed.
pub fn creditUpdateOutcome(rows: u64) -> (res: Result<String, Rejection>)
    ensures
        rows == 0 ==> (res matches Err(r) && r.status == BAD_REQUEST
            && r.message@ == "There was an error while updating the credit data"@),
        rows == 1 ==> (res matches Ok(s) && s@ == "Done"@),
        rows > 1 ==> (res matches Err(r) && r.status == INTERNAL_SERVER_ERROR
            && r.message@ == "This should not have happened."@),
{
    match rowsAffectedOutcome(rows, "There was an error while updating the credit data") {
        Ok(()) => Ok(String::from_str("Done")),
        Err(r) => Err(r),
    }
}

} // verus!
