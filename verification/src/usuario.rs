//! User accounts and their passwords.
use vstd::prelude::*;
use crate::errors::{DbFailure, Rejection, BAD_REQUEST, INTERNAL_SERVER_ERROR, UNAUTHORIZED};
use argon2::password_hash::{PasswordHasher, PasswordVerifier};

verus! {

/// The kind of account a user holds.
#[derive(Debug, Clone, Copy, PartialEq, Eq, Structural)]
pub enum TipoUsuario {
    Prestatario,
    Prestamista,
    Administrador,
}

impl Default for TipoUsuario {
    fn default() -> (res: Self)
        ensures
            res == TipoUsuario::Prestatario,
    {
        TipoUsuario::Prestatario
    }
}

/// Why an operation on a user failed.
#[derive(Debug)]
pub enum UserError {
    /// The worker that hashed or checked a password did not finish.
    MultithreadError,
    /// A database query failed.
    DbError(DbFailure),
}

impl UserError {
    /// The error's text.
    pub fn message(&self) -> (res: String)
        ensures
            self is MultithreadError ==> res@ == "Thread failed to execute task until completion"@,
            self is DbError ==> res@ == "There was an error while executing a database query"@,
    {
        match self {
            UserError::MultithreadError => String::from_str("Thread failed to execute task until completion"),
            UserError::DbError(_) => String::from_str("There was an error while executing a database query"),
        }
    }
}

/// The answer to a failed lookup of a user.
pub open spec fn user_lookup_rejection(e: UserError) -> (u16, Seq<char>) {
    match e {
        UserError::MultithreadError => (INTERNAL_SERVER_ERROR, "There was an error while processing your request"@),
        UserError::DbError(DbFailure::RowNotFound { .. }) => (BAD_REQUEST, "User does not exist"@),
        UserError::DbError(f) => (INTERNAL_SERVER_ERROR, f.text_of()),
    }
}

/// The answer to a failed lookup of a user: an unknown user is the client's
/// fault (400), anything else the server's (500).
pub fn userLookupRejection(e: &UserError) -> (res: Rejection)
    ensures
        res@ == user_lookup_rejection(*e),
{
    match e {
        UserError::MultithreadError => Rejection::new(INTERNAL_SERVER_ERROR, "There was an error while processing your request"),
        UserError::DbError(DbFailure::RowNotFound { .. }) => Rejection::new(BAD_REQUEST, "User does not exist"),
        UserError::DbError(f) => Rejection { status: INTERNAL_SERVER_ERROR, message: f.text() },
    }
}

/// The answer to a failed password check.
pub open spec fn password_check_rejection(r: Result<bool, UserError>) -> Option<(u16, Seq<char>)> {
    match r {
        Err(UserError::MultithreadError) => Some((INTERNAL_SERVER_ERROR, "There was an error while processing your request"@)),
        Err(UserError::DbError(f)) => Some((INTERNAL_SERVER_ERROR, f.text_of())),
        Ok(false) => Some((UNAUTHORIZED, "Wrong password"@)),
        Ok(true) => None,
    }
}

/// How a handler reads a password check: a match goes on, a mismatch is
/// unauthorized (401), a failed check is the server's fault (500).
pub fn checkPasswordOutcome(r: &Result<bool, UserError>) -> (res: Result<(), Rejection>)
    ensures
        match password_check_rejection(*r) {
            None => res is Ok,
            Some(rej) => res matches Err(e) && e@ == rej,
        },
{
    match r {
        Err(UserError::MultithreadError) => Err(
            Rejection::new(INTERNAL_SERVER_ERROR, "There was an error while processing your request"),
        ),
        Err(UserError::DbError(f)) => Err(Rejection { status: INTERNAL_SERVER_ERROR, message: f.text() }),
        Ok(valid) => {
            if *valid {
                Ok(())
            } else {
                Err(Rejection::new(UNAUTHORIZED, "Wrong password"))
            }
        },
    }
}

/// The answer to an update of an account: `ok_text` on success, else 500
/// with the error's text.
pub fn userUpdateOutcome(r: &Result<u64, UserError>, ok_text: &str) -> (res: Result<String, Rejection>)
    ensures
        match r {
            Ok(_) => res matches Ok(t) && t@ == ok_text@,
            Err(UserError::MultithreadError) => res matches Err(e)
                && e@ == (INTERNAL_SERVER_ERROR, "Thread failed to execute task until completion"@),
            Err(UserError::DbError(_)) => res matches Err(e)
                && e@ == (INTERNAL_SERVER_ERROR, "There was an error while executing a database query"@),
        },
{
    match r {
        Ok(_) => Ok(String::from_str(ok_text)),
        Err(e) => Err(Rejection { status: INTERNAL_SERVER_ERROR, message: e.message() }),
    }
}

/// A user account. `contrasenna` holds the plain password when it comes
/// from a request, and its PHC hash once stored.
#[derive(Debug)]
pub struct Usuario {
    pub id: i64,
    pub email: String,
    pub nombrecompleto: String,
    pub nombreusuario: String,
    pub contrasenna: String,
    pub idwallet: Option<String>,
    pub tipousuario: Option<TipoUsuario>,
    pub habilitado: bool,
}

/// What `argon2::PasswordHasher::hash_password` (default Argon2 parameters)
/// gives for a password and a B64 salt, as a PHC string, or `None` where it
/// refuses them.
pub uninterp spec fn argon2_phc(password: Seq<char>, salt: Seq<char>) -> Option<Seq<char>>;

/// What `argon2::PasswordVerifier::verify_password` (default Argon2) answers
/// for a password against a PHC string: `Some(ok)`, or `None` where the PHC
/// string does not parse.
pub uninterp spec fn argon2_verdict(password: Seq<char>, phc: Seq<char>) -> Option<bool>;

/// Draws a fresh salt with `password_hash::SaltString::generate` from the
/// operating system's generator: 16 random bytes written in unpadded B64,
/// so 22 characters. Which characters is not promised: they are random.
#[verifier::external_body]
fn fresh_salt() -> (res: String)
    ensures
        res@.len() == 22,
{
    argon2::password_hash::SaltString::generate(&mut argon2::password_hash::rand_core::OsRng).as_str().to_string()
}

/// Calls `argon2::PasswordHasher::hash_password` with `Argon2::default()`.
/// The result is `argon2_phc` of the arguments; and a PHC string that it
/// produces verifies the same password (`verify_password` recomputes the hash
/// with the salt and parameters that the string records).
#[verifier::external_body]
fn argon2_hash(password: &str, salt: &str) -> (res: Option<String>)
    ensures
        match res {
            Some(h) => argon2_phc(password@, salt@) == Some(h@),
            None => argon2_phc(password@, salt@) is None,
        },
        res matches Some(h) ==> argon2_verdict(password@, h@) == Some(true),
{
    let salt = argon2::password_hash::Salt::from_b64(salt).ok()?;
    argon2::Argon2::default().hash_password(password.as_bytes(), salt).ok().map(|h| h.to_string())
}

/// Parses `phc` with `password_hash::PasswordHash::new` and calls
/// `argon2::PasswordVerifier::verify_password` with `Argon2::default()`.
/// The result is `argon2_verdict` of the arguments.
#[verifier::external_body]
fn argon2_verify(password: &str, phc: &str) -> (res: Option<bool>)
    ensures
        res == argon2_verdict(password@, phc@),
{
    let parsed = argon2::password_hash::PasswordHash::new(phc).ok()?;
    Some(argon2::Argon2::default().verify_password(password.as_bytes(), &parsed).is_ok())
}

impl Clone for Usuario {
    fn clone(&self) -> (res: Self)
        ensures
            res == *self,
    {
        let idwallet = match &self.idwallet {
            Some(w) => Some(w.clone()),
            None => None,
        };
        Usuario {
            id: self.id,
            email: self.email.clone(),
            nombrecompleto: self.nombrecompleto.clone(),
            nombreusuario: self.nombreusuario.clone(),
            contrasenna: self.contrasenna.clone(),
            idwallet,
            tipousuario: self.tipousuario,
            habilitado: self.habilitado,
        }
    }
}

/// An account after its password was hashed into `h`: only the password
/// field changed, and it holds `h`, a PHC string of the old password with
/// some 22-character salt, which the old password checks out against.
pub open spec fn password_hashed(before: Usuario, after: Usuario, h: String) -> bool {
    &&& after == before.with_contrasenna(h)
    &&& exists|salt: Seq<char>| salt.len() == 22 && #[trigger] argon2_phc(before.contrasenna@, salt) == Some(h@)
    &&& argon2_verdict(before.contrasenna@, h@) == Some(true)
}

/// The outcome of checking a password against a PHC string: the verdict, or
/// `MultithreadError` where the string does not parse.
pub open spec fn pwd_check(password: Seq<char>, phc: Seq<char>) -> Result<bool, UserError> {
    match argon2_verdict(password, phc) {
        Some(ok) => Ok(ok),
        None => Err(UserError::MultithreadError),
    }
}

/// A password that `generatePwd` hashed checks out: `validatePwd` with the
/// old password against the stored field answers `Ok(true)`.
pub proof fn law_hashed_password_checks(before: Usuario, after: Usuario, h: String)
    requires
        password_hashed(before, after, h),
    ensures
        pwd_check(before.contrasenna@, after.contrasenna@) == Ok::<bool, UserError>(true),
{
}

/// The account `after` is `before` with its password hashed with `salt`:
/// the PHC string `argon2_phc` gives where the hasher accepts them, which
/// the old password checks out against; else the password left as it was
/// (the handlers go on with it; the hashing worker failed). Nothing else
/// changes.
pub open spec fn hashed_with(before: Usuario, salt: Seq<char>, after: Usuario) -> bool {
    &&& after == before.with_contrasenna(after.contrasenna)
    &&& match argon2_phc(before.contrasenna@, salt) {
        Some(h) => after.contrasenna@ == h && argon2_verdict(before.contrasenna@, h) == Some(true),
        None => after == before,
    }
}

/// A password hashed with a salt the hasher accepts is stored as a hash that
/// the password checks out against: `validatePwd` with it answers `Ok(true)`.
pub proof fn law_salted_hash_checks(before: Usuario, salt: Seq<char>, after: Usuario)
    requires
        hashed_with(before, salt, after),
        argon2_phc(before.contrasenna@, salt) is Some,
    ensures
        pwd_check(before.contrasenna@, after.contrasenna@) == Ok::<bool, UserError>(true),
        after.contrasenna@ == argon2_phc(before.contrasenna@, salt)->0,
{
}

impl Usuario {
    /// The same account with another password field.
    pub open spec fn with_contrasenna(self, c: String) -> Usuario {
        Usuario { contrasenna: c, ..self }
    }

    /// Hashes the password field with Argon2 and a fresh salt, stores the PHC
    /// string in its place and returns it. Where the hasher refuses, the
    /// account is left as it was and `MultithreadError` comes back (the
    /// worker that hashes fails).
    pub fn generatePwd(&mut self) -> (res: Result<String, UserError>)
        ensures
            match res {
                Ok(h) => password_hashed(*old(self), *final(self), h),
                Err(e) => {
                    &&& e is MultithreadError
                    &&& *final(self) == *old(self)
                },
            },
    {
        let salt = fresh_salt();
        match argon2_hash(self.contrasenna.as_str(), salt.as_str()) {
            Some(h) => {
                self.contrasenna = h.clone();
                Ok(h)
            },
            None => Err(UserError::MultithreadError),
        }
    }

    /// Draws a fresh salt for hashing a password: 22 characters of unpadded
    /// B64 from the operating system's generator.
    pub fn newSalt() -> (res: String)
        ensures
            res@.len() == 22,
    {
        fresh_salt()
    }

    /// The account with its password hashed with `salt` (left as it was
    /// where the hasher refuses).
    pub fn hashedWith(&self, salt: &str) -> (res: Usuario)
        ensures
            hashed_with(*self, salt@, res),
    {
        let mut res = self.clone();
        match argon2_hash(self.contrasenna.as_str(), salt) {
            Some(h) => {
                res.contrasenna = h;
            },
            None => {},
        }
        res
    }

    /// Checks the password field against a stored PHC string. A PHC string
    /// that does not parse gives `MultithreadError` (the worker that checks
    /// fails).
    pub fn validatePwd(&self, PHC: String) -> (res: Result<bool, UserError>)
        ensures
            res == pwd_check(self.contrasenna@, PHC@),
    {
        match argon2_verify(self.contrasenna.as_str(), PHC.as_str()) {
            Some(ok) => Ok(ok),
            None => Err(UserError::MultithreadError),
        }
    }
}

} // verus!
