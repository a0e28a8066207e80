use crate::address::{check_address, is_checked_address, AddressFault, Network};
use crate::text::{joined, optional_text, owned, same_text, single_text, text_views};
use crate::wallet::{
    blind_receive_call, create_utxos_call, recipient_views, send_call, single_recipient, FeeRate,
    Recipient, RecipientView, WalletCall, WalletCallView, MIN_CONFIRMATIONS, TRANSPORT_ENDPOINT,
};
use vstd::prelude::*;

verus! {

/// The keys of one user: made once, when the user is created, and never changed.
#[derive(Debug, PartialEq, Eq)]
pub struct KeySet {
    pub mnemonic: String,
    pub account_xpub: String,
    pub account_xpub_fingerprint: String,
}

/// The keys of a user, as sequences of characters.
pub struct KeySetView {
    pub mnemonic: Seq<char>,
    pub account_xpub: Seq<char>,
    pub account_xpub_fingerprint: Seq<char>,
}

impl View for KeySet {
    type V = KeySetView;

    open spec fn view(&self) -> KeySetView {
        KeySetView {
            mnemonic: self.mnemonic@,
            account_xpub: self.account_xpub@,
            account_xpub_fingerprint: self.account_xpub_fingerprint@,
        }
    }
}

/// An entry of the registry: a name and the keys that were made for it. The wallet that
/// belongs to the entry is held by whoever performs the wallet requests, under the same name.
#[derive(Debug, PartialEq, Eq)]
pub struct User {
    pub name: String,
    pub keys: KeySet,
}

/// A user, with its texts as sequences of characters.
pub struct UserView {
    pub name: Seq<char>,
    pub keys: KeySetView,
}

impl View for User {
    type V = UserView;

    open spec fn view(&self) -> UserView {
        UserView { name: self.name@, keys: self.keys@ }
    }
}

/// The directory in which the wallet of the user of that name keeps its files.
pub open spec fn data_dir_of(name: Seq<char>) -> Seq<char> {
    "data/"@ + name
}

/// The recipients of a transfer of an asset that is looked up among the holdings: the one
/// recipient where the holdings list the asset, none where they do not.
pub open spec fn recipients_among(
    holdings: Seq<Seq<char>>,
    asset_id: Seq<char>,
    recipient_id: Seq<char>,
    amount: u64,
) -> Seq<RecipientView> {
    if holdings.contains(asset_id) {
        seq![single_recipient(asset_id, recipient_id, amount)]
    } else {
        Seq::empty()
    }
}

/// The request that issues a unique asset.
pub open spec fn issue_call(
    ticker: Seq<char>,
    name: Seq<char>,
    details: Option<Seq<char>>,
    precision: u8,
    media_file_path: Option<Seq<char>>,
    attachments_file_paths: Seq<Seq<char>>,
) -> WalletCallView {
    WalletCallView::IssueAssetUda {
        ticker,
        name,
        details,
        precision,
        media_file_path,
        attachments_file_paths,
    }
}

/// Whether a list of texts holds the wanted one.
pub fn holds_text(list: &Vec<String>, wanted: &str) -> (found: bool)
    ensures
        found == text_views(list@).contains(wanted@),
{
    let mut i: usize = 0;
    while i < list.len()
        invariant
            i <= list.len(),
            forall|j: int| 0 <= j < i ==> text_views(list@)[j] != wanted@,
        decreases list.len() - i,
    {
        if same_text(list[i].as_str(), wanted) {
            assert(text_views(list@)[i as int] == wanted@);
            return true;
        }
        i += 1;
    }
    false
}

impl User {
    /// The entry for a name and its freshly made keys.
    pub fn new(name: &str, keys: KeySet) -> (user: User)
        ensures
            user@ == (UserView { name: name@, keys: keys@ }),
    {
        User { name: owned(name), keys }
    }

    /// The directory in which this user's wallet keeps its files.
    pub fn data_dir(name: &str) -> (path: String)
        ensures
            path@ == data_dir_of(name@),
    {
        joined("data/", name)
    }

    /// Holds the address that the wallet derived to the regression-test network.
    ///
    /// Returns the address as the parser writes it, or the fault with which the parser
    /// or the network rule turned it down.
    pub fn get_address(&self, wallet_address: &str) -> (outcome: Result<String, AddressFault>)
        ensures
            is_checked_address(outcome, wallet_address@, Network::Regtest),
    {
        check_address(wallet_address, Network::Regtest)
    }

    /// The request that submits a transfer to the given recipients at the given fee rate.
    pub fn send_uda(&self, recipients: Vec<Recipient>, fee_rate: FeeRate) -> (call: WalletCall)
        ensures
            call@ == send_call(recipient_views(recipients@), fee_rate),
    {
        WalletCall::Send {
            recipients,
            skip_sync: false,
            fee_rate,
            min_confirmations: MIN_CONFIRMATIONS,
        }
    }

    /// The request that sends `amount` of an asset to a blinded output.
    ///
    /// The asset is looked up among the unique assets that the wallet holds, by its exact
    /// id. Where it is found the transfer has that one recipient; where it is not, the
    /// transfer is submitted without recipients, for the wallet to turn down.
    pub fn send(
        &self,
        holdings: &Vec<String>,
        asset_id: String,
        recipient_id: String,
        amount: u64,
        fee_rate: FeeRate,
    ) -> (call: WalletCall)
        ensures
            call@ == send_call(
                recipients_among(text_views(holdings@), asset_id@, recipient_id@, amount),
                fee_rate,
            ),
    {
        let mut recipients: Vec<Recipient> = Vec::new();
        if holds_text(holdings, asset_id.as_str()) {
            recipients.push(Recipient::single(asset_id, recipient_id, amount));
        }
        assert(recipient_views(recipients@) =~= recipients_among(
            text_views(holdings@),
            asset_id@,
            recipient_id@,
            amount,
        ));
        self.send_uda(recipients, fee_rate)
    }

    /// The request that issues a unique asset.
    pub fn issue_nft(
        &self,
        ticker: String,
        name: String,
        details: Option<String>,
        precision: u8,
        media_file_path: Option<String>,
        attachments_file_paths: Vec<String>,
    ) -> (call: WalletCall)
        ensures
            call@ == issue_call(
                ticker@,
                name@,
                optional_text(details),
                precision,
                optional_text(media_file_path),
                text_views(attachments_file_paths@),
            ),
    {
        WalletCall::IssueAssetUda {
            ticker,
            name,
            details,
            precision,
            media_file_path,
            attachments_file_paths,
        }
    }

    /// The request for a blinded receipt: always by the one fixed transport endpoint.
    pub fn blind_receive(&self) -> (call: WalletCall)
        ensures
            call@ == blind_receive_call(),
    {
        WalletCall::BlindReceive {
            transport_endpoints: single_text(owned(TRANSPORT_ENDPOINT)),
            min_confirmations: MIN_CONFIRMATIONS,
        }
    }

    /// The request that carves out fresh spendable outputs at the given fee rate.
    pub fn create_utxo(&self, fee_rate: FeeRate) -> (call: WalletCall)
        ensures
            call@ == create_utxos_call(fee_rate),
    {
        WalletCall::CreateUtxos { include_settled: true, count: None, size: None, fee_rate }
    }

    /// The request that lists the transfers of an asset.
    pub fn list_transfers(&self, asset_id: String) -> (call: WalletCall)
        ensures
            call@ == (WalletCallView::ListTransfers { asset_id: asset_id@ }),
    {
        WalletCall::ListTransfers { asset_id }
    }

    /// The request that lists the plain spendable outputs with one confirmation.
    pub fn get_balance(&self) -> (call: WalletCall)
        ensures
            call@ == (WalletCallView::ListUnspentsVanilla { min_confirmations: MIN_CONFIRMATIONS }),
    {
        WalletCall::ListUnspentsVanilla { min_confirmations: MIN_CONFIRMATIONS }
    }
}

} // verus!
