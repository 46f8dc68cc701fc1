//! Mails sent to users: signup confirmations and password restores, each
//! carrying a one-time id kept in Redis.
use vstd::prelude::*;
use crate::errors::{Rejection, INTERNAL_SERVER_ERROR, NO_CONTENT};
use crate::misc::{decimalText, generateRnd, hex_upper, int_text, is_upper_hex_char, sha512_224_digest};
use crate::redis_server::{confirmationKey, restoreKey, confirmation_prefix, restore_prefix, DEFAULT_MAILCONF_EXPIRATION, DEFAULT_PWDRESTORE_EXPIRATION};
use crate::mailbox::{mailbox_parses, parse_mailbox, ParsedMailbox};
use crate::usuario::Usuario;

verus! {

#[verifier::external_type_specification]
#[verifier::external_body]
pub struct ExEmailError(lettre::error::Error);

#[verifier::external_type_specification]
#[verifier::external_body]
pub struct ExSmtpError(lettre::transport::smtp::Error);

/// Why a mail could not be sent.
#[derive(Debug)]
pub enum MailError {
    /// The test mail is never sent.
    Test,
    /// An address did not parse.
    AddressError(lettre::address::AddressError),
    /// The message could not be built.
    EmailError(lettre::error::Error),
    /// The SMTP server did not take the message.
    SendError(lettre::transport::smtp::Error),
}

/// The text of a mail error.
pub open spec fn mail_error_text(e: MailError) -> Seq<char> {
    match e {
        MailError::Test => "Email service test."@,
        MailError::AddressError(_) => "There was an error while parsing the email address"@,
        MailError::EmailError(_) => "There was an error while parsing the email body"@,
        MailError::SendError(_) => "There was an error while sending the email"@,
    }
}

impl MailError {
    /// The error's text.
    pub fn message(&self) -> (res: String)
        ensures
            res@ == mail_error_text(*self),
    {
        match self {
            MailError::Test => String::from_str("Email service test."),
            MailError::AddressError(_) => String::from_str("There was an error while parsing the email address"),
            MailError::EmailError(_) => String::from_str("There was an error while parsing the email body"),
            MailError::SendError(_) => String::from_str("There was an error while sending the email"),
        }
    }
}

/// The answer to a mail that could not be sent: the test mail gives 204
/// with `test`; any other failure 500 with the text of the underlying error.
pub fn mailRejection(e: &MailError) -> (res: Rejection)
    ensures
        match e {
            MailError::Test => res.status == NO_CONTENT && res.message@ == "test"@,
            MailError::AddressError(r) => res.status == INTERNAL_SERVER_ERROR
                && vstd::string::to_string_from_display_ensures(r, res.message),
            MailError::EmailError(r) => res.status == INTERNAL_SERVER_ERROR
                && vstd::string::to_string_from_display_ensures(r, res.message),
            MailError::SendError(r) => res.status == INTERNAL_SERVER_ERROR
                && vstd::string::to_string_from_display_ensures(r, res.message),
        },
{
    match e {
        MailError::Test => Rejection::new(NO_CONTENT, "test"),
        MailError::AddressError(r) => Rejection { status: INTERNAL_SERVER_ERROR, message: r.to_string() },
        MailError::EmailError(r) => Rejection { status: INTERNAL_SERVER_ERROR, message: r.to_string() },
        MailError::SendError(r) => Rejection { status: INTERNAL_SERVER_ERROR, message: r.to_string() },
    }
}

/// A mail to a user: a signup confirmation or a password restore, each with
/// the user and its one-time id; a loan proposal, to the loan's creator
/// (first), naming the proposing user (second) and the loan; the news that
/// a proposal on a loan was accepted, to the proposing user; or the test
/// mail.
#[derive(Debug)]
pub enum Mail {
    SignupConfirm(Usuario, String),
    PwdRestore(Usuario, String),
    LoanProposal(Usuario, Usuario, i64),
    LoanProposalAccepted(Usuario, i64),
    Test,
}

/// The kinds of mail that carry a one-time id.
#[derive(Debug, Clone, Copy, PartialEq, Eq, Structural)]
pub enum MailKind {
    SignupConfirm,
    PwdRestore,
}

/// The name under which a kind of id is looked up.
pub open spec fn kind_name(k: MailKind) -> Seq<char> {
    match k {
        MailKind::SignupConfirm => "confirmationId"@,
        MailKind::PwdRestore => "restoreId"@,
    }
}

/// The key under which an id of a kind is kept.
pub open spec fn mail_key(k: MailKind, id: Seq<char>) -> Seq<char> {
    match k {
        MailKind::SignupConfirm => confirmation_prefix() + id,
        MailKind::PwdRestore => restore_prefix() + id,
    }
}

/// The kind named by a lookup name, if any.
pub open spec fn kind_named(name: Seq<char>) -> Option<MailKind> {
    if name == "confirmationId"@ {
        Some(MailKind::SignupConfirm)
    } else if name == "restoreId"@ {
        Some(MailKind::PwdRestore)
    } else {
        None
    }
}

/// The seconds an id of a kind lives.
pub open spec fn kind_ttl(k: MailKind) -> nat {
    match k {
        MailKind::SignupConfirm => DEFAULT_MAILCONF_EXPIRATION as nat,
        MailKind::PwdRestore => DEFAULT_PWDRESTORE_EXPIRATION as nat,
    }
}

/// Where a mail's id is looked up: the kind named `IdType` (`confirmationId`
/// or `restoreId`) and the key of `id` for it; `None` for any other name (the
/// test mail, which is not stored).
pub fn mailLookup(IdType: &str, id: &str) -> (res: Option<(MailKind, String)>)
    ensures
        match kind_named(IdType@) {
            Some(k) => (res matches Some((k2, key)) && k2 == k && key@ == mail_key(k, id@)),
            None => res is None,
        },
{
    let name = String::from_str(IdType);
    if name == String::from_str("confirmationId") {
        Some((MailKind::SignupConfirm, confirmationKey(id)))
    } else if name == String::from_str("restoreId") {
        Some((MailKind::PwdRestore, restoreKey(id)))
    } else {
        None
    }
}

impl Mail {
    /// The mail that an id found under a kind stands for: the kind's mail with
    /// the stored user and the id.
    pub fn get(kind: MailKind, user: Usuario, id: &String) -> (res: Mail)
        ensures
            match kind {
                MailKind::SignupConfirm => res == Mail::SignupConfirm(user, *id),
                MailKind::PwdRestore => res == Mail::PwdRestore(user, *id),
            },
    {
        match kind {
            MailKind::SignupConfirm => Mail::SignupConfirm(user, id.clone()),
            MailKind::PwdRestore => Mail::PwdRestore(user, id.clone()),
        }
    }

    /// Gives the mail a fresh one-time id (56 upper-case hexadecimal digits)
    /// and returns the key under which its user is to be kept and for how many
    /// seconds; the test mail keeps nothing.
    pub fn save(&mut self) -> (res: Option<(String, usize)>)
        ensures
            match *old(self) {
                Mail::SignupConfirm(u, _) => {
                    &&& *final(self) matches Mail::SignupConfirm(u2, id)
                    &&& u2 == u
                    &&& id@.len() == 56
                    &&& exists|entropy: Seq<u8>| entropy.len() == 8 && id@ == hex_upper(#[trigger] sha512_224_digest(entropy))
                    &&& res matches Some((key, ttl))
                    &&& key@ == mail_key(MailKind::SignupConfirm, id@)
                    &&& ttl as nat == kind_ttl(MailKind::SignupConfirm)
                },
                Mail::PwdRestore(u, _) => {
                    &&& *final(self) matches Mail::PwdRestore(u2, id)
                    &&& u2 == u
                    &&& id@.len() == 56
                    &&& exists|entropy: Seq<u8>| entropy.len() == 8 && id@ == hex_upper(#[trigger] sha512_224_digest(entropy))
                    &&& res matches Some((key, ttl))
                    &&& key@ == mail_key(MailKind::PwdRestore, id@)
                    &&& ttl as nat == kind_ttl(MailKind::PwdRestore)
                },
                Mail::LoanProposal(..) | Mail::LoanProposalAccepted(..) => res is None && *final(self) == *old(self),
                Mail::Test => res is None && *final(self) == Mail::Test,
            },
    {
        match self {
            Mail::SignupConfirm(_, confirmationId) => {
                let id = generateRnd(64);
                let key = confirmationKey(id.as_str());
                *confirmationId = id;
                Some((key, DEFAULT_MAILCONF_EXPIRATION))
            },
            Mail::PwdRestore(_, restoreId) => {
                let id = generateRnd(64);
                let key = restoreKey(id.as_str());
                *restoreId = id;
                Some((key, DEFAULT_PWDRESTORE_EXPIRATION))
            },
            Mail::LoanProposal(..) | Mail::LoanProposalAccepted(..) => None,
            Mail::Test => None,
        }
    }
}

/// The sender of every mail.
pub open spec fn sender_text() -> Seq<char> {
    "loanMe <no-reply@loanMe.com>"@
}

/// The recipient of a mail to `u`: `full name <email>`.
pub open spec fn recipient_text(u: Usuario) -> Seq<char> {
    u.nombrecompleto@ + " <"@ + u.email@ + ">"@
}

/// The body of a loan proposal mail: who proposes, and which loan.
pub open spec fn proposal_body(proposer: Usuario, loan: i64) -> Seq<char> {
    "User "@ + proposer.nombreusuario@ + " proposes to complete your loan "@ + int_text(loan as int)
}

/// The body of the mail that tells a proposer its proposal was accepted.
pub open spec fn accepted_body(loan: i64) -> Seq<char> {
    "Your proposal to complete loan "@ + int_text(loan as int) + " was accepted"@
}

/// Recipient, subject and body of a mail; the test mail has none.
pub open spec fn mail_text(m: Mail) -> Option<(Seq<char>, Seq<char>, Seq<char>)> {
    match m {
        Mail::SignupConfirm(u, id) => Some((recipient_text(u), "Confirm your signup in order to use your account"@, id@)),
        Mail::PwdRestore(u, id) => Some((recipient_text(u), "Restore pwd"@, id@)),
        Mail::LoanProposal(creator, proposer, loan) => Some(
            (recipient_text(creator), "Loan proposal"@, proposal_body(proposer, loan)),
        ),
        Mail::LoanProposalAccepted(proposer, loan) => Some(
            (recipient_text(proposer), "Loan proposal accepted"@, accepted_body(loan)),
        ),
        Mail::Test => None,
    }
}

/// A mail ready for the SMTP transport: parsed sender and recipient,
/// subject and plain-text body.
#[derive(Debug)]
pub struct MailEnvelope {
    pub from: ParsedMailbox,
    pub to: ParsedMailbox,
    pub subject: String,
    pub body: String,
}

fn recipient(u: &Usuario) -> (res: String)
    ensures
        res@ == recipient_text(*u),
{
    let mut s = u.nombrecompleto.clone();
    s.append(" <");
    s.append(u.email.as_str());
    s.append(">");
    s
}

impl Mail {
    /// Recipient, subject and body of the mail; the test mail is never sent.
    /// The body is the one-time id.
    pub fn content(&self) -> (res: Result<(String, String, String), MailError>)
        ensures
            match mail_text(*self) {
                Some(t) => res matches Ok(c) && c.0@ == t.0 && c.1@ == t.1 && c.2@ == t.2,
                None => res matches Err(e) && e is Test,
            },
    {
        match self {
            Mail::SignupConfirm(u, id) => Ok((
                recipient(u),
                String::from_str("Confirm your signup in order to use your account"),
                id.clone(),
            )),
            Mail::PwdRestore(u, id) => Ok((recipient(u), String::from_str("Restore pwd"), id.clone())),
            Mail::LoanProposal(creator, proposer, loan) => {
                let mut body = String::from_str("User ");
                body.append(proposer.nombreusuario.as_str());
                body.append(" proposes to complete your loan ");
                body.append(decimalText(*loan).as_str());
                Ok((recipient(creator), String::from_str("Loan proposal"), body))
            },
            Mail::LoanProposalAccepted(proposer, loan) => {
                let mut body = String::from_str("Your proposal to complete loan ");
                body.append(decimalText(*loan).as_str());
                body.append(" was accepted");
                Ok((recipient(proposer), String::from_str("Loan proposal accepted"), body))
            },
            Mail::Test => Err(MailError::Test),
        }
    }

    /// Builds what sending the mail hands to the SMTP transport: the sender
    /// `loanMe <no-reply@loanMe.com>` and the recipient are parsed as
    /// mailboxes (the sender first), each kept with the text it came from; an
    /// address that does not parse gives
    /// `AddressError`; the test mail gives `Test`.
    pub fn prepare(&self) -> (res: Result<MailEnvelope, MailError>)
        ensures
            match mail_text(*self) {
                None => res matches Err(e) && e is Test,
                Some(t) => if !mailbox_parses(sender_text()) || !mailbox_parses(t.0) {
                    res matches Err(e) && e is AddressError
                } else {
                    res matches Ok(env) && env.from@ == sender_text() && env.to@ == t.0 && env.subject@ == t.1
                        && env.body@ == t.2
                },
            },
    {
        let (to, subject, body) = self.content()?;
        proof {
            reveal_strlit("loanMe <no-reply@loanMe.com>");
        }
        let from = match parse_mailbox("loanMe <no-reply@loanMe.com>") {
            Ok(m) => m,
            Err(e) => return Err(MailError::AddressError(e)),
        };
        let to = match parse_mailbox(to.as_str()) {
            Ok(m) => m,
            Err(e) => return Err(MailError::AddressError(e)),
        };
        Ok(MailEnvelope { from, to, subject, body })
    }
}

/// An id saved under a kind is found again by looking it up under that
/// kind's name: the lookup names the same kind, and so the key under which
/// `Mail::save` kept the id.
pub proof fn law_mail_save_then_get(k: MailKind, id: Seq<char>)
    ensures
        kind_named(kind_name(k)) matches Some(k2) && k2 == k && mail_key(k2, id) == mail_key(k, id),
{
    assert("confirmationId"@ != "restoreId"@) by {
        reveal_strlit("confirmationId");
        reveal_strlit("restoreId");
        assert("confirmationId"@[0] != "restoreId"@[0]);
    }
}

/// A signup confirmation and a password restore go to the user they carry,
/// addressed `full name <email>`, with their own subject and the one-time
/// id as the whole body; a loan proposal goes to the loan's creator and an
/// accepted proposal to the proposer; the test mail is never sent.
pub proof fn law_mail_addressing(u: Usuario, other: Usuario, id: String, loan: i64)
    ensures
        mail_text(Mail::SignupConfirm(u, id)) == Some(
            (u.nombrecompleto@ + " <"@ + u.email@ + ">"@, "Confirm your signup in order to use your account"@, id@),
        ),
        mail_text(Mail::PwdRestore(u, id)) == Some((u.nombrecompleto@ + " <"@ + u.email@ + ">"@, "Restore pwd"@, id@)),
        mail_text(Mail::LoanProposal(u, other, loan)) matches Some((to, subject, _))
            && to == u.nombrecompleto@ + " <"@ + u.email@ + ">"@ && subject == "Loan proposal"@,
        mail_text(Mail::LoanProposalAccepted(u, loan)) matches Some((to, subject, _))
            && to == u.nombrecompleto@ + " <"@ + u.email@ + ">"@ && subject == "Loan proposal accepted"@,
        mail_text(Mail::Test) is None,
        sender_text() == "loanMe <no-reply@loanMe.com>"@,
{
}

} // verus!
