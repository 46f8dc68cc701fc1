//! Parsed mailboxes, kept with the text they were parsed from. Only
//! `parse_mailbox` builds one, so the text names the mailbox it holds.
use vstd::prelude::*;

verus! {

#[verifier::external_type_specification]
#[verifier::external_body]
pub struct ExMailbox(lettre::message::Mailbox);

#[verifier::external_type_specification]
#[verifier::external_body]
pub struct ExAddressError(lettre::address::AddressError);

/// A mailbox together with the text it was parsed from.
#[derive(Debug)]
pub struct ParsedMailbox {
    text: String,
    mailbox: lettre::message::Mailbox,
}

impl View for ParsedMailbox {
    type V = Seq<char>;

    /// The text the mailbox was parsed from.
    closed spec fn view(&self) -> Seq<char> {
        self.text@
    }
}

impl ParsedMailbox {
    /// The text the mailbox was parsed from.
    pub fn text(&self) -> (res: &String)
        ensures
            res@ == self@,
    {
        &self.text
    }

    /// The mailbox, for the transport.
    pub fn into_mailbox(self) -> lettre::message::Mailbox {
        self.mailbox
    }

    /// The mailbox, for reading its name and address.
    pub fn mailbox(&self) -> &lettre::message::Mailbox {
        &self.mailbox
    }
}

/// Whether `<lettre::message::Mailbox as FromStr>::from_str` accepts a text.
pub uninterp spec fn mailbox_parses(text: Seq<char>) -> bool;

/// Parses a mailbox (`Name <address>` or a bare address) with
/// `<lettre::message::Mailbox as FromStr>::from_str`. It succeeds exactly
/// where `mailbox_parses` holds, and the result keeps the text it was parsed
/// from; the mailbox itself is opaque here.
#[verifier::external_body]
pub(crate) fn parse_mailbox(text: &str) -> (res: Result<ParsedMailbox, lettre::address::AddressError>)
    ensures
        res is Ok == mailbox_parses(text@),
        res matches Ok(p) ==> p@ == text@,
{
    text.parse::<lettre::message::Mailbox>().map(|mailbox| ParsedMailbox { text: text.to_string(), mailbox })
}

} // verus!
