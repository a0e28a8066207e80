use crate::text::owned;
use bitcoincore_rpc::bitcoin;
use std::str::FromStr;
use vstd::prelude::*;

verus! {

/// Whether a character is a hexadecimal digit, in either case.
pub open spec fn is_hex_digit(c: char) -> bool {
    ('0' <= c && c <= '9') || ('a' <= c && c <= 'f') || ('A' <= c && c <= 'F')
}

/// Whether a text names a transaction: sixty-four hexadecimal digits.
pub open spec fn is_txid_text(text: Seq<char>) -> bool {
    text.len() == 64 && forall|i: int| 0 <= i < text.len() ==> is_hex_digit(#[trigger] text[i])
}

/// The `Display` form of the hex error with which `bitcoin::Txid::from_str` turns a text down.
pub uninterp spec fn txid_refusal(text: Seq<char>) -> Seq<char>;

/// What reading a text as a transaction id gives: the text itself where it names one,
/// the parser's message where it does not.
pub open spec fn parsed_txid(text: Seq<char>) -> Result<Seq<char>, Seq<char>> {
    if is_txid_text(text) {
        Ok(text)
    } else {
        Err(txid_refusal(text))
    }
}

/// The id of a transaction, kept as the text that named it.
#[derive(Debug, PartialEq, Eq)]
pub struct Txid {
    hex: String,
}

impl View for Txid {
    type V = Seq<char>;

    closed spec fn view(&self) -> Seq<char> {
        self.hex@
    }
}

impl Txid {
    /// The text that names the transaction.
    pub fn as_text(&self) -> (text: &str)
        ensures
            text@ == self@,
    {
        self.hex.as_str()
    }
}

/// Calls `bitcoin::Txid::from_str` and keeps only whether it succeeded.
///
/// Trusted: the call succeeds exactly on texts of sixty-four hexadecimal digits (an even
/// number of bytes, thirty-two of them once decoded, each pair read with `to_digit(16)`);
/// on any other text the error's `Display` form comes back.
#[verifier::external_body]
fn txid_fault(text: &str) -> (fault: Option<String>)
    ensures
        match fault {
            None => is_txid_text(text@),
            Some(message) => !is_txid_text(text@) && message@ == txid_refusal(text@),
        },
{
    match bitcoin::Txid::from_str(text) {
        Ok(_) => None,
        Err(e) => Some(e.to_string()),
    }
}

/// Reads a transaction id.
///
/// Succeeds exactly on sixty-four hexadecimal digits and keeps the text as given;
/// any other text is turned down with the parser's message.
pub fn parse_txid(text: &str) -> (outcome: Result<Txid, String>)
    ensures
        match outcome {
            Ok(txid) => parsed_txid(text@) == Ok::<Seq<char>, Seq<char>>(txid@),
            Err(message) => parsed_txid(text@) == Err::<Seq<char>, Seq<char>>(message@),
        },
{
    match txid_fault(text) {
        None => Ok(Txid { hex: owned(text) }),
        Some(message) => Err(message),
    }
}

} // verus!
