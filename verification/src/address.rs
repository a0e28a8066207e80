use bitcoincore_rpc::bitcoin;
use std::str::FromStr;
use vstd::prelude::*;

verus! {

/// The chain an address or a service belongs to.
#[derive(Clone, Copy, Debug, PartialEq, Eq, Structural)]
pub enum Network {
    Bitcoin,
    Testnet,
    Signet,
    Regtest,
}

/// What the address parser reads out of a text that it accepts.
pub struct ParsedAddress {
    /// The network that the text's prefix or version byte points to.
    pub network: Network,
    /// Whether the address is of a legacy kind (pay to public key hash or pay to script hash).
    pub legacy: bool,
    /// The address as the parser writes it back.
    pub written: Seq<char>,
}

/// Why an address text was turned down.
#[derive(Clone, Copy, Debug, PartialEq, Eq, Structural)]
pub enum AddressFaultKind {
    /// The text is no address at all.
    Malformed,
    /// The text is an address of a network other than the required one.
    WrongNetwork,
}

/// A refusal of an address text, with the parser's own words.
#[derive(Debug, PartialEq, Eq)]
pub struct AddressFault {
    pub kind: AddressFaultKind,
    pub message: String,
}

/// A refusal of an address text, with its message as a sequence of characters.
pub struct AddressFaultView {
    pub kind: AddressFaultKind,
    pub message: Seq<char>,
}

impl View for AddressFault {
    type V = AddressFaultView;

    open spec fn view(&self) -> AddressFaultView {
        AddressFaultView { kind: self.kind, message: self.message@ }
    }
}

/// What `bitcoin::Address::from_str` makes of a text: `None` where it returns an error,
/// otherwise the parsed address's network, whether its type is legacy, and its `Display` form.
pub uninterp spec fn parsed_address(text: Seq<char>) -> Option<ParsedAddress>;

/// The `Display` form of the `bitcoin::address::Error` with which a text is turned down
/// for a required network.
pub uninterp spec fn address_refusal(text: Seq<char>, required: Network) -> Seq<char>;

/// Whether an address found on one network may be used on the required one.
/// Mainnet addresses are only valid on mainnet. The test networks share their legacy
/// addresses; of the other kinds, those of the regression-test network stand apart.
pub open spec fn valid_for_network(found: Network, legacy: bool, required: Network) -> bool {
    found == required || (found != Network::Bitcoin && required != Network::Bitcoin && (legacy || (
    found != Network::Regtest && required != Network::Regtest)))
}

/// The outcome of parsing a text as an address and holding it to a network.
pub open spec fn checked_address(text: Seq<char>, required: Network) -> Result<
    Seq<char>,
    AddressFaultView,
> {
    match parsed_address(text) {
        None => Err(
            AddressFaultView {
                kind: AddressFaultKind::Malformed,
                message: address_refusal(text, required),
            },
        ),
        Some(parsed) => if valid_for_network(parsed.network, parsed.legacy, required) {
            Ok(parsed.written)
        } else {
            Err(
                AddressFaultView {
                    kind: AddressFaultKind::WrongNetwork,
                    message: address_refusal(text, required),
                },
            )
        },
    }
}

/// Whether a result of the address check is the one that the model gives.
pub open spec fn is_checked_address(
    outcome: Result<String, AddressFault>,
    text: Seq<char>,
    required: Network,
) -> bool {
    match checked_address(text, required) {
        Ok(written) => outcome matches Ok(address) && address@ == written,
        Err(fault) => outcome matches Err(refusal) && refusal@ == fault,
    }
}

/// Calls `bitcoin::Address::from_str` and then `require_network` on what it parsed.
///
/// Trusted: a text that `from_str` refuses gives a `Malformed` fault; a parsed address
/// passes `require_network` exactly under the rule of `valid_for_network`, read off
/// `Address::is_valid_for_network`, and is then handed back in its `Display` form;
/// otherwise the fault is `WrongNetwork`. Either fault carries the error's `Display` form.
#[verifier::external_body]
fn require_address(text: &str, required: Network) -> (outcome: Result<String, AddressFault>)
    ensures
        match parsed_address(text@) {
            None => outcome matches Err(refusal) && refusal.kind == AddressFaultKind::Malformed
                && refusal.message@ == address_refusal(text@, required),
            Some(parsed) => if valid_for_network(parsed.network, parsed.legacy, required) {
                outcome matches Ok(address) && address@ == parsed.written
            } else {
                outcome matches Err(refusal) && refusal.kind == AddressFaultKind::WrongNetwork
                    && refusal.message@ == address_refusal(text@, required)
            },
        },
{
    let network = match required {
        Network::Bitcoin => bitcoin::Network::Bitcoin,
        Network::Testnet => bitcoin::Network::Testnet,
        Network::Signet => bitcoin::Network::Signet,
        Network::Regtest => bitcoin::Network::Regtest,
    };
    match bitcoin::Address::from_str(text) {
        Ok(parsed) => match parsed.require_network(network) {
            Ok(address) => Ok(address.to_string()),
            Err(e) => Err(AddressFault { kind: AddressFaultKind::WrongNetwork, message: e.to_string() }),
        },
        Err(e) => Err(AddressFault { kind: AddressFaultKind::Malformed, message: e.to_string() }),
    }
}

/// Parses a text as an address and holds it to the required network.
///
/// Returns the address as the parser writes it, or the fault: `Malformed` where the text
/// is no address, `WrongNetwork` where the address is not valid for `required`.
pub fn check_address(text: &str, required: Network) -> (outcome: Result<String, AddressFault>)
    ensures
        is_checked_address(outcome, text@, required),
{
    require_address(text, required)
}

} // verus!
