use crate::text::text_views;
use crate::txid::Txid;
use crate::user::{KeySet, KeySetView};
use crate::wallet::{FeeRate, WalletCall, WalletCallView};
use vstd::prelude::*;

verus! {

/// How long the sync barrier pauses before each question to the indexer, in milliseconds.
pub const POLL_INTERVAL_MS: u64 = 100;

/// Work that only the outside world can do: a call to the full node, to the indexer or to
/// a user's wallet.
#[derive(Debug, PartialEq, Eq)]
pub enum Request {
    /// Ask the full node for a fresh receiving address. Answered by `Event::Address`.
    NewAddress,
    /// Have the full node produce blocks that pay to an address. Answered by
    /// `Event::Blocks`.
    Generate { blocks: u64, address: String },
    /// Ask the full node for its block count. Answered by `Event::Height`.
    BlockCount,
    /// Pause, then ask the indexer for the block header at a height. Answered by
    /// `Event::Header`, also where the question failed.
    PollHeader { height: u64, pause_ms: u64 },
    /// Block until the indexer has seen a transaction. Answered by `Event::TxSeen`.
    WaitTx { txid: Txid },
    /// Have the full node pay an amount to an address. Answered by `Event::Txid`.
    SendToAddress { address: String, amount_sat: u64 },
    /// Make keys for a new user, open the wallet in its directory and bring it online.
    /// Answered by `Event::Keys`.
    OpenWallet { name: String, data_dir: String },
    /// Call the wallet of a user. Answered by the event that carries what the call
    /// returns.
    Wallet { user: String, call: WalletCall },
}

/// A request, with its texts as sequences of characters.
pub enum RequestView {
    NewAddress,
    Generate { blocks: u64, address: Seq<char> },
    BlockCount,
    PollHeader { height: u64, pause_ms: u64 },
    WaitTx { txid: Seq<char> },
    SendToAddress { address: Seq<char>, amount_sat: u64 },
    OpenWallet { name: Seq<char>, data_dir: Seq<char> },
    Wallet { user: Seq<char>, call: WalletCallView },
}

impl View for Request {
    type V = RequestView;

    open spec fn view(&self) -> RequestView {
        match self {
            Request::NewAddress => RequestView::NewAddress,
            Request::Generate { blocks, address } => RequestView::Generate {
                blocks: *blocks,
                address: address@,
            },
            Request::BlockCount => RequestView::BlockCount,
            Request::PollHeader { height, pause_ms } => RequestView::PollHeader {
                height: *height,
                pause_ms: *pause_ms,
            },
            Request::WaitTx { txid } => RequestView::WaitTx { txid: txid@ },
            Request::SendToAddress { address, amount_sat } => RequestView::SendToAddress {
                address: address@,
                amount_sat: *amount_sat,
            },
            Request::OpenWallet { name, data_dir } => RequestView::OpenWallet {
                name: name@,
                data_dir: data_dir@,
            },
            Request::Wallet { user, call } => RequestView::Wallet { user: user@, call: call@ },
        }
    }
}

/// The unique assets that a wallet lists: their ids in the wallet's order, and the list
/// as pretty-printed text.
#[derive(Debug, PartialEq, Eq)]
pub struct AssetList {
    pub ids: Vec<String>,
    pub rendered: String,
}

/// A list of unique assets, with its texts as sequences of characters.
pub struct AssetListView {
    pub ids: Seq<Seq<char>>,
    pub rendered: Seq<char>,
}

impl View for AssetList {
    type V = AssetListView;

    open spec fn view(&self) -> AssetListView {
        AssetListView { ids: text_views(self.ids@), rendered: self.rendered@ }
    }
}

/// The view of a list of unique assets that may be absent.
pub open spec fn optional_assets(assets: Option<AssetList>) -> Option<AssetListView> {
    match assets {
        Some(list) => Some(list@),
        None => None,
    }
}

/// What came of a request.
#[derive(Debug, PartialEq, Eq)]
pub enum Event {
    /// An address, as text.
    Address(String),
    /// The hashes of the blocks that were produced.
    Blocks(Vec<String>),
    /// The full node's block count.
    Height(u64),
    /// Whether the indexer has the header at a height.
    Header { height: u64, present: bool },
    /// The indexer has seen the transaction.
    TxSeen,
    /// The id of the transaction that was submitted.
    Txid(String),
    /// The keys of the wallet that was opened.
    Keys(KeySet),
    /// A result of the wallet, as pretty-printed text.
    Rendered(String),
    /// The unique assets of the wallet, if it keeps a list of them.
    UniqueAssets(Option<AssetList>),
    /// The number of spendable outputs.
    Unspents(u64),
    /// The number of outputs that were created.
    Created(u8),
    /// The wallet is up to date.
    Refreshed,
    /// The request failed, with the words of whoever failed it.
    Failed(String),
}

/// An event, with its texts as sequences of characters.
pub enum EventView {
    Address(Seq<char>),
    Blocks(Seq<Seq<char>>),
    Height(u64),
    Header { height: u64, present: bool },
    TxSeen,
    Txid(Seq<char>),
    Keys(KeySetView),
    Rendered(Seq<char>),
    UniqueAssets(Option<AssetListView>),
    Unspents(u64),
    Created(u8),
    Refreshed,
    Failed(Seq<char>),
}

impl EventView {
    /// Whether the event reports that the indexer has the header at the height.
    pub open spec fn shows_header(self, height: u64) -> bool {
        self == (EventView::Header { height, present: true })
    }
}

impl View for Event {
    type V = EventView;

    open spec fn view(&self) -> EventView {
        match self {
            Event::Address(text) => EventView::Address(text@),
            Event::Blocks(hashes) => EventView::Blocks(text_views(hashes@)),
            Event::Height(height) => EventView::Height(*height),
            Event::Header { height, present } => EventView::Header {
                height: *height,
                present: *present,
            },
            Event::TxSeen => EventView::TxSeen,
            Event::Txid(text) => EventView::Txid(text@),
            Event::Keys(keys) => EventView::Keys(keys@),
            Event::Rendered(text) => EventView::Rendered(text@),
            Event::UniqueAssets(assets) => EventView::UniqueAssets(optional_assets(*assets)),
            Event::Unspents(count) => EventView::Unspents(*count),
            Event::Created(count) => EventView::Created(*count),
            Event::Refreshed => EventView::Refreshed,
            Event::Failed(message) => EventView::Failed(message@),
        }
    }
}

/// What the sync barrier was started for.
#[derive(Clone, Copy, Debug, PartialEq, Eq, Structural)]
pub enum AfterSync {
    /// A sync of its own: it ends in a word of success.
    Success,
    /// Blocks were mined before it: it ends in their number.
    Mined { blocks: u64 },
}

/// What is to be done with the outcome of the request that is under way.
#[derive(Debug, PartialEq, Eq)]
pub enum Next {
    /// Hold the fresh address to the regression-test network and mine to it.
    Mine { blocks: u64, sync: bool },
    /// Report the number of blocks, after a sync where one was asked for.
    Mined { blocks: u64, sync: bool },
    /// Take the block count as the height to wait for.
    Poll { txid: Option<Txid>, after: AfterSync },
    /// Ask again until the indexer has the header at the height.
    Polling { height: u64, txid: Option<Txid>, after: AfterSync },
    /// End the sync.
    Synced { after: AfterSync },
    /// Show the hashes of the blocks.
    ShowBlocks,
    /// Show the transaction id as it is.
    ShowTxid,
    /// Show the transaction id as a JSON string.
    ShowJsonTxid,
    /// Hold the address to the regression-test network and show it.
    ShowAddress,
    /// Show the text as it is.
    Show,
    /// Show the number.
    ShowCount,
    /// Show the list of unique assets.
    ShowAssets,
    /// Look the asset up among the unique assets and send it.
    Send { user: String, asset_id: String, recipient_id: String, amount: u64, fee: FeeRate },
    /// Issue the asset if the user holds a spendable output.
    Issue { user: String, ticker: String, name: String, precision: u8, attachment: String },
    /// List the transfers of the asset.
    Transfers { user: String, asset_id: String },
    /// Register the user with the keys of the wallet.
    Register { name: String },
}

/// What is to follow a request, with its texts as sequences of characters.
pub enum NextView {
    Mine { blocks: u64, sync: bool },
    Mined { blocks: u64, sync: bool },
    Poll { txid: Option<Seq<char>>, after: AfterSync },
    Polling { height: u64, txid: Option<Seq<char>>, after: AfterSync },
    Synced { after: AfterSync },
    ShowBlocks,
    ShowTxid,
    ShowJsonTxid,
    ShowAddress,
    Show,
    ShowCount,
    ShowAssets,
    Send {
        user: Seq<char>,
        asset_id: Seq<char>,
        recipient_id: Seq<char>,
        amount: u64,
        fee: FeeRate,
    },
    Issue {
        user: Seq<char>,
        ticker: Seq<char>,
        name: Seq<char>,
        precision: u8,
        attachment: Seq<char>,
    },
    Transfers { user: Seq<char>, asset_id: Seq<char> },
    Register { name: Seq<char> },
}

/// The view of a transaction id that may be absent.
pub open spec fn optional_txid(txid: Option<Txid>) -> Option<Seq<char>> {
    match txid {
        Some(txid) => Some(txid@),
        None => None,
    }
}

impl View for Next {
    type V = NextView;

    open spec fn view(&self) -> NextView {
        match self {
            Next::Mine { blocks, sync } => NextView::Mine { blocks: *blocks, sync: *sync },
            Next::Mined { blocks, sync } => NextView::Mined { blocks: *blocks, sync: *sync },
            Next::Poll { txid, after } => NextView::Poll {
                txid: optional_txid(*txid),
                after: *after,
            },
            Next::Polling { height, txid, after } => NextView::Polling {
                height: *height,
                txid: optional_txid(*txid),
                after: *after,
            },
            Next::Synced { after } => NextView::Synced { after: *after },
            Next::ShowBlocks => NextView::ShowBlocks,
            Next::ShowTxid => NextView::ShowTxid,
            Next::ShowJsonTxid => NextView::ShowJsonTxid,
            Next::ShowAddress => NextView::ShowAddress,
            Next::Show => NextView::Show,
            Next::ShowCount => NextView::ShowCount,
            Next::ShowAssets => NextView::ShowAssets,
            Next::Send { user, asset_id, recipient_id, amount, fee } => NextView::Send {
                user: user@,
                asset_id: asset_id@,
                recipient_id: recipient_id@,
                amount: *amount,
                fee: *fee,
            },
            Next::Issue { user, ticker, name, precision, attachment } => NextView::Issue {
                user: user@,
                ticker: ticker@,
                name: name@,
                precision: *precision,
                attachment: attachment@,
            },
            Next::Transfers { user, asset_id } => NextView::Transfers {
                user: user@,
                asset_id: asset_id@,
            },
            Next::Register { name } => NextView::Register { name: name@ },
        }
    }
}

/// A command that is under way: the request to perform now, and what to do with its outcome.
#[derive(Debug, PartialEq, Eq)]
pub struct Task {
    pub request: Request,
    pub next: Next,
}

/// A command under way, with its texts as sequences of characters.
pub struct TaskView {
    pub request: RequestView,
    pub next: NextView,
}

impl View for Task {
    type V = TaskView;

    open spec fn view(&self) -> TaskView {
        TaskView { request: self.request@, next: self.next@ }
    }
}

/// The kind of an answer.
#[derive(Clone, Copy, Debug, PartialEq, Eq, Structural)]
pub enum ReplyKind {
    /// The command was carried out.
    Done,
    /// The name is taken: nothing was created.
    UserExists,
    /// No user has that name.
    UserNotFound,
    /// The user holds no spendable output: nothing was issued.
    NoFunds,
    /// The wallet keeps no list of unique assets.
    NoAssets,
    /// A text is no address.
    InvalidAddress,
    /// An address belongs to another network.
    WrongNetwork,
    /// A text is no transaction id.
    InvalidTxid,
    /// A request failed.
    Refused,
    /// An event does not answer the request that was under way.
    Unexpected,
}

impl ReplyKind {
    /// Whether the answer reports an error, to be shown as one.
    pub open spec fn is_error(self) -> bool {
        self == ReplyKind::InvalidAddress || self == ReplyKind::WrongNetwork || self
            == ReplyKind::InvalidTxid || self == ReplyKind::Refused || self
            == ReplyKind::Unexpected
    }

    /// Whether the answer reports an error, to be shown as one.
    #[verifier::when_used_as_spec(is_error)]
    pub fn reports_error(self) -> (error: bool)
        ensures
            error == self.is_error(),
    {
        match self {
            ReplyKind::InvalidAddress => true,
            ReplyKind::WrongNetwork => true,
            ReplyKind::InvalidTxid => true,
            ReplyKind::Refused => true,
            ReplyKind::Unexpected => true,
            _ => false,
        }
    }
}

/// The answer to a command: its kind and the text to show.
#[derive(Debug, PartialEq, Eq)]
pub struct Reply {
    pub kind: ReplyKind,
    pub text: String,
}

/// An answer, with its text as a sequence of characters.
pub struct ReplyView {
    pub kind: ReplyKind,
    pub text: Seq<char>,
}

impl View for Reply {
    type V = ReplyView;

    open spec fn view(&self) -> ReplyView {
        ReplyView { kind: self.kind, text: self.text@ }
    }
}

/// How far a command has come: it has its answer, or a request is to be performed first.
#[derive(Debug, PartialEq, Eq)]
pub enum Progress {
    Reply(Reply),
    Pending(Task),
}

/// The progress of a command, with its texts as sequences of characters.
pub enum ProgressView {
    Reply(ReplyView),
    Pending(TaskView),
}

impl View for Progress {
    type V = ProgressView;

    open spec fn view(&self) -> ProgressView {
        match self {
            Progress::Reply(reply) => ProgressView::Reply(reply@),
            Progress::Pending(task) => ProgressView::Pending(task@),
        }
    }
}

/// An answer of a kind, with its text.
pub open spec fn reply(kind: ReplyKind, text: Seq<char>) -> ProgressView {
    ProgressView::Reply(ReplyView { kind, text })
}

/// A request to perform, and what follows it.
pub open spec fn pending(request: RequestView, next: NextView) -> ProgressView {
    ProgressView::Pending(TaskView { request, next })
}

impl Progress {
    /// The command has its answer.
    pub fn answer(kind: ReplyKind, text: String) -> (progress: Progress)
        ensures
            progress@ == reply(kind, text@),
    {
        Progress::Reply(Reply { kind, text })
    }

    /// The command goes on once the request has been performed.
    pub fn ask(request: Request, next: Next) -> (progress: Progress)
        ensures
            progress@ == pending(request@, next@),
    {
        Progress::Pending(Task { request, next })
    }
}

} // verus!
