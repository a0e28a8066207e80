use crate::text::optional_text;
use crate::wallet::FeeRate;
use vstd::prelude::*;

verus! {

/// One line of input, once it has been read as a command.
#[derive(Debug, PartialEq, Eq)]
pub enum Commands {
    Mine { blocks: u64 },
    CreateUser { name: String },
    ReceiveBlind { user: String },
    SendBtc { amount_sat: u64, address: String },
    Sync { txid: Option<String> },
    GetAddr { user: String },
    SendNft { user: String, asset_id: String, recipient_id: String, amount: u64, fee: FeeRate },
    IssueNft {
        user: String,
        ticker: String,
        precision: u8,
        name: String,
        attachments_file_paths: String,
    },
    GetBalance { user: String },
    MineToAddress { address: String, num_blocks: u64 },
    CreateUtxo { user: String, fee: FeeRate },
    ListNfts { user: String },
    ListTransfers { user: String, asset_id: String },
}

/// A command, with its texts as sequences of characters.
pub enum CommandsView {
    Mine { blocks: u64 },
    CreateUser { name: Seq<char> },
    ReceiveBlind { user: Seq<char> },
    SendBtc { amount_sat: u64, address: Seq<char> },
    Sync { txid: Option<Seq<char>> },
    GetAddr { user: Seq<char> },
    SendNft {
        user: Seq<char>,
        asset_id: Seq<char>,
        recipient_id: Seq<char>,
        amount: u64,
        fee: FeeRate,
    },
    IssueNft {
        user: Seq<char>,
        ticker: Seq<char>,
        precision: u8,
        name: Seq<char>,
        attachments_file_paths: Seq<char>,
    },
    GetBalance { user: Seq<char> },
    MineToAddress { address: Seq<char>, num_blocks: u64 },
    CreateUtxo { user: Seq<char>, fee: FeeRate },
    ListNfts { user: Seq<char> },
    ListTransfers { user: Seq<char>, asset_id: Seq<char> },
}

impl View for Commands {
    type V = CommandsView;

    open spec fn view(&self) -> CommandsView {
        match self {
            Commands::Mine { blocks } => CommandsView::Mine { blocks: *blocks },
            Commands::CreateUser { name } => CommandsView::CreateUser { name: name@ },
            Commands::ReceiveBlind { user } => CommandsView::ReceiveBlind { user: user@ },
            Commands::SendBtc { amount_sat, address } => CommandsView::SendBtc {
                amount_sat: *amount_sat,
                address: address@,
            },
            Commands::Sync { txid } => CommandsView::Sync { txid: optional_text(*txid) },
            Commands::GetAddr { user } => CommandsView::GetAddr { user: user@ },
            Commands::SendNft { user, asset_id, recipient_id, amount, fee } => {
                CommandsView::SendNft {
                    user: user@,
                    asset_id: asset_id@,
                    recipient_id: recipient_id@,
                    amount: *amount,
                    fee: *fee,
                }
            },
            Commands::IssueNft { user, ticker, precision, name, attachments_file_paths } => {
                CommandsView::IssueNft {
                    user: user@,
                    ticker: ticker@,
                    precision: *precision,
                    name: name@,
                    attachments_file_paths: attachments_file_paths@,
                }
            },
            Commands::GetBalance { user } => CommandsView::GetBalance { user: user@ },
            Commands::MineToAddress { address, num_blocks } => CommandsView::MineToAddress {
                address: address@,
                num_blocks: *num_blocks,
            },
            Commands::CreateUtxo { user, fee } => CommandsView::CreateUtxo {
                user: user@,
                fee: *fee,
            },
            Commands::ListNfts { user } => CommandsView::ListNfts { user: user@ },
            Commands::ListTransfers { user, asset_id } => CommandsView::ListTransfers {
                user: user@,
                asset_id: asset_id@,
            },
        }
    }
}

impl CommandsView {
    /// The user that a command is about, for the commands that are about one.
    pub open spec fn user(self) -> Option<Seq<char>> {
        match self {
            CommandsView::ReceiveBlind { user } => Some(user),
            CommandsView::GetAddr { user } => Some(user),
            CommandsView::SendNft { user, .. } => Some(user),
            CommandsView::IssueNft { user, .. } => Some(user),
            CommandsView::GetBalance { user } => Some(user),
            CommandsView::CreateUtxo { user, .. } => Some(user),
            CommandsView::ListNfts { user } => Some(user),
            CommandsView::ListTransfers { user, .. } => Some(user),
            _ => None,
        }
    }
}

} // verus!
