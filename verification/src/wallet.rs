use crate::text::{optional_text, owned, single_text, text_views};
use vstd::prelude::*;

verus! {

/// The transport endpoint that every blinded receipt and every transfer names.
pub const TRANSPORT_ENDPOINT: &'static str = "rpc://127.0.0.1:3000/json-rpc";

/// The number of confirmations asked of receipts, transfers and balances.
pub const MIN_CONFIRMATIONS: u8 = 1;

/// A fee rate, carried as the bit pattern of the number that the wallet takes.
/// The service hands it on unread.
#[derive(Clone, Copy, Debug, PartialEq, Eq, Structural)]
pub struct FeeRate {
    pub bits: u32,
}

/// One recipient of a transfer: which asset, to which blinded output, how much, by which
/// endpoints.
#[derive(Debug, PartialEq, Eq)]
pub struct Recipient {
    pub asset_id: String,
    pub recipient_id: String,
    pub amount: u64,
    pub transport_endpoints: Vec<String>,
}

/// A recipient, with its texts as sequences of characters.
pub struct RecipientView {
    pub asset_id: Seq<char>,
    pub recipient_id: Seq<char>,
    pub amount: u64,
    pub transport_endpoints: Seq<Seq<char>>,
}

impl View for Recipient {
    type V = RecipientView;

    open spec fn view(&self) -> RecipientView {
        RecipientView {
            asset_id: self.asset_id@,
            recipient_id: self.recipient_id@,
            amount: self.amount,
            transport_endpoints: text_views(self.transport_endpoints@),
        }
    }
}

/// The views of a list of recipients.
pub open spec fn recipient_views(recipients: Seq<Recipient>) -> Seq<RecipientView> {
    recipients.map_values(|recipient: Recipient| recipient@)
}

/// A request to a user's wallet. The wallet itself lives outside this library; whoever
/// holds it performs the request and reports what came of it.
#[derive(Debug, PartialEq, Eq)]
pub enum WalletCall {
    /// Derive a receiving address.
    GetAddress,
    /// Produce a blinded receipt for any asset and amount.
    BlindReceive { transport_endpoints: Vec<String>, min_confirmations: u8 },
    /// Issue a unique asset.
    IssueAssetUda {
        ticker: String,
        name: String,
        details: Option<String>,
        precision: u8,
        media_file_path: Option<String>,
        attachments_file_paths: Vec<String>,
    },
    /// List the assets of every schema.
    ListAssets,
    /// List the spendable outputs as the indexer sees them.
    ListUnspents { include_settled: bool },
    /// List the plain spendable outputs with enough confirmations.
    ListUnspentsVanilla { min_confirmations: u8 },
    /// Carve out fresh spendable outputs.
    CreateUtxos {
        include_settled: bool,
        count: Option<u8>,
        size: Option<u32>,
        fee_rate: FeeRate,
    },
    /// Submit a transfer.
    Send {
        recipients: Vec<Recipient>,
        skip_sync: bool,
        fee_rate: FeeRate,
        min_confirmations: u8,
    },
    /// Bring every pending transfer up to date with the indexer.
    Refresh,
    /// List the transfers of one asset.
    ListTransfers { asset_id: String },
}

/// A request to a wallet, with its texts as sequences of characters.
pub enum WalletCallView {
    GetAddress,
    BlindReceive { transport_endpoints: Seq<Seq<char>>, min_confirmations: u8 },
    IssueAssetUda {
        ticker: Seq<char>,
        name: Seq<char>,
        details: Option<Seq<char>>,
        precision: u8,
        media_file_path: Option<Seq<char>>,
        attachments_file_paths: Seq<Seq<char>>,
    },
    ListAssets,
    ListUnspents { include_settled: bool },
    ListUnspentsVanilla { min_confirmations: u8 },
    CreateUtxos {
        include_settled: bool,
        count: Option<u8>,
        size: Option<u32>,
        fee_rate: FeeRate,
    },
    Send {
        recipients: Seq<RecipientView>,
        skip_sync: bool,
        fee_rate: FeeRate,
        min_confirmations: u8,
    },
    Refresh,
    ListTransfers { asset_id: Seq<char> },
}

impl View for WalletCall {
    type V = WalletCallView;

    open spec fn view(&self) -> WalletCallView {
        match self {
            WalletCall::GetAddress => WalletCallView::GetAddress,
            WalletCall::BlindReceive { transport_endpoints, min_confirmations } => {
                WalletCallView::BlindReceive {
                    transport_endpoints: text_views(transport_endpoints@),
                    min_confirmations: *min_confirmations,
                }
            },
            WalletCall::IssueAssetUda {
                ticker,
                name,
                details,
                precision,
                media_file_path,
                attachments_file_paths,
            } => WalletCallView::IssueAssetUda {
                ticker: ticker@,
                name: name@,
                details: optional_text(*details),
                precision: *precision,
                media_file_path: optional_text(*media_file_path),
                attachments_file_paths: text_views(attachments_file_paths@),
            },
            WalletCall::ListAssets => WalletCallView::ListAssets,
            WalletCall::ListUnspents { include_settled } => WalletCallView::ListUnspents {
                include_settled: *include_settled,
            },
            WalletCall::ListUnspentsVanilla { min_confirmations } => {
                WalletCallView::ListUnspentsVanilla { min_confirmations: *min_confirmations }
            },
            WalletCall::CreateUtxos { include_settled, count, size, fee_rate } => {
                WalletCallView::CreateUtxos {
                    include_settled: *include_settled,
                    count: *count,
                    size: *size,
                    fee_rate: *fee_rate,
                }
            },
            WalletCall::Send { recipients, skip_sync, fee_rate, min_confirmations } => {
                WalletCallView::Send {
                    recipients: recipient_views(recipients@),
                    skip_sync: *skip_sync,
                    fee_rate: *fee_rate,
                    min_confirmations: *min_confirmations,
                }
            },
            WalletCall::Refresh => WalletCallView::Refresh,
            WalletCall::ListTransfers { asset_id } => WalletCallView::ListTransfers {
                asset_id: asset_id@,
            },
        }
    }
}

/// The request for a blinded receipt: the one fixed endpoint, one confirmation.
pub open spec fn blind_receive_call() -> WalletCallView {
    WalletCallView::BlindReceive {
        transport_endpoints: seq![TRANSPORT_ENDPOINT@],
        min_confirmations: MIN_CONFIRMATIONS,
    }
}

/// The recipient of a transfer of `amount` of one asset to one blinded output.
pub open spec fn single_recipient(
    asset_id: Seq<char>,
    recipient_id: Seq<char>,
    amount: u64,
) -> RecipientView {
    RecipientView {
        asset_id,
        recipient_id,
        amount,
        transport_endpoints: seq![TRANSPORT_ENDPOINT@],
    }
}

/// The request that submits a transfer to the given recipients: the sync is never
/// skipped, and one confirmation is asked for.
pub open spec fn send_call(recipients: Seq<RecipientView>, fee_rate: FeeRate) -> WalletCallView {
    WalletCallView::Send {
        recipients,
        skip_sync: false,
        fee_rate,
        min_confirmations: MIN_CONFIRMATIONS,
    }
}

/// The request that carves out as many outputs as the wallet sees fit, of its own size.
pub open spec fn create_utxos_call(fee_rate: FeeRate) -> WalletCallView {
    WalletCallView::CreateUtxos { include_settled: true, count: None, size: None, fee_rate }
}

impl Recipient {
    /// A recipient of `amount` of an asset at a blinded output, reached by the fixed
    /// transport endpoint.
    pub fn single(asset_id: String, recipient_id: String, amount: u64) -> (recipient: Recipient)
        ensures
            recipient@ == single_recipient(asset_id@, recipient_id@, amount),
    {
        Recipient {
            asset_id,
            recipient_id,
            amount,
            transport_endpoints: single_text(owned(TRANSPORT_ENDPOINT)),
        }
    }
}

} // verus!
