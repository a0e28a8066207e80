use crate::address::{checked_address, AddressFaultKind, AddressFaultView, Network};
use crate::commands::CommandsView;
use crate::flow::{
    pending, reply, AfterSync, EventView, NextView, ProgressView, ReplyKind, RequestView,
    POLL_INTERVAL_MS,
};
use crate::json::{json_text, json_texts};
use crate::service::ServiceView;
use crate::text::decimal;
use crate::txid::parsed_txid;
use crate::user::{data_dir_of, issue_call, recipients_among};
use crate::wallet::{
    blind_receive_call, create_utxos_call, send_call, WalletCallView, MIN_CONFIRMATIONS,
};
use vstd::prelude::*;

verus! {

/// The words for a name that is taken.
pub open spec fn user_exists_text(name: Seq<char>) -> Seq<char> {
    "User "@ + name + " already exists."@
}

/// The words for a user that was created.
pub open spec fn user_created_text(name: Seq<char>, fingerprint: Seq<char>) -> Seq<char> {
    "Created user "@ + fingerprint + ", with fingerprint "@ + name
}

/// The answer to an address that was turned down: the parser's words, under the kind of
/// the fault.
pub open spec fn fault_reply(fault: AddressFaultView) -> ProgressView {
    match fault.kind {
        AddressFaultKind::Malformed => reply(ReplyKind::InvalidAddress, fault.message),
        AddressFaultKind::WrongNetwork => reply(ReplyKind::WrongNetwork, fault.message),
    }
}

/// The answer to an event that brings no result: the words of a failure as they came, or
/// a note that the event does not answer the request.
pub open spec fn refusal(event: EventView) -> ProgressView {
    match event {
        EventView::Failed(message) => reply(ReplyKind::Refused, message),
        _ => reply(ReplyKind::Unexpected, "unexpected event"@),
    }
}

/// Mining starts by asking the full node for a fresh address.
pub open spec fn mine_model(blocks: u64, sync: bool) -> ProgressView {
    pending(RequestView::NewAddress, NextView::Mine { blocks, sync })
}

/// Mining to a named address: requested where the address is valid for the service's
/// network, answered with the fault where it is not.
pub open spec fn mine_to_address_model(service: ServiceView, address: Seq<char>, blocks: u64)
    -> ProgressView {
    match checked_address(address, service.network) {
        Ok(address) => pending(RequestView::Generate { blocks, address }, NextView::ShowBlocks),
        Err(fault) => fault_reply(fault),
    }
}

/// The sync barrier starts by reading the full node's height.
pub open spec fn sync_model(txid: Option<Seq<char>>, after: AfterSync) -> ProgressView {
    pending(RequestView::BlockCount, NextView::Poll { txid, after })
}

/// One question to the indexer for the header at a height, after the fixed pause.
pub open spec fn poll_model(height: u64, txid: Option<Seq<char>>, after: AfterSync)
    -> ProgressView {
    pending(
        RequestView::PollHeader { height, pause_ms: POLL_INTERVAL_MS },
        NextView::Polling { height, txid, after },
    )
}

/// The answer in which a sync ends.
pub open spec fn synced_model(after: AfterSync) -> ProgressView {
    match after {
        AfterSync::Success => reply(ReplyKind::Done, "Success"@),
        AfterSync::Mined { blocks } => reply(ReplyKind::Done, decimal(blocks as nat)),
    }
}

/// Once the indexer has the header: wait for the transaction where one was named, else
/// the sync is over.
pub open spec fn caught_up_model(txid: Option<Seq<char>>, after: AfterSync) -> ProgressView {
    match txid {
        Some(txid) => pending(RequestView::WaitTx { txid }, NextView::Synced { after }),
        None => synced_model(after),
    }
}

/// Creating a user: a name that is taken is answered at once and nothing is requested;
/// a free one has its wallet opened in the directory that belongs to the name.
pub open spec fn create_user_model(service: ServiceView, name: Seq<char>) -> ProgressView {
    if service.has_user(name) {
        reply(ReplyKind::UserExists, user_exists_text(name))
    } else {
        pending(
            RequestView::OpenWallet { name, data_dir: data_dir_of(name) },
            NextView::Register { name },
        )
    }
}

/// A call to the wallet of a named user: requested where the user exists, answered with
/// the words for a missing user where not.
pub open spec fn wallet_model(
    service: ServiceView,
    user: Seq<char>,
    call: WalletCallView,
    next: NextView,
    missing: Seq<char>,
) -> ProgressView {
    if service.has_user(user) {
        pending(RequestView::Wallet { user, call }, next)
    } else {
        reply(ReplyKind::UserNotFound, missing)
    }
}

/// Registering a user once its wallet is open.
pub open spec fn register_model(service: ServiceView, name: Seq<char>, fingerprint: Seq<char>)
    -> ProgressView {
    if service.has_user(name) {
        reply(ReplyKind::UserExists, user_exists_text(name))
    } else {
        reply(ReplyKind::Done, user_created_text(name, fingerprint))
    }
}

/// The first step of a command.
pub open spec fn handle_model(command: CommandsView, service: ServiceView) -> ProgressView {
    match command {
        CommandsView::Mine { blocks } => mine_model(blocks, true),
        CommandsView::CreateUser { name } => create_user_model(service, name),
        CommandsView::ReceiveBlind { user } => wallet_model(
            service,
            user,
            blind_receive_call(),
            NextView::Show,
            "User not found"@,
        ),
        CommandsView::SendBtc { amount_sat, address } => match checked_address(
            address,
            service.network,
        ) {
            Ok(address) => pending(
                RequestView::SendToAddress { address, amount_sat },
                NextView::ShowTxid,
            ),
            Err(fault) => fault_reply(fault),
        },
        CommandsView::Sync { txid } => match txid {
            None => sync_model(None, AfterSync::Success),
            Some(text) => match parsed_txid(text) {
                Ok(txid) => sync_model(Some(txid), AfterSync::Success),
                Err(message) => reply(ReplyKind::InvalidTxid, message),
            },
        },
        CommandsView::GetAddr { user } => wallet_model(
            service,
            user,
            WalletCallView::GetAddress,
            NextView::ShowAddress,
            "User not found"@,
        ),
        CommandsView::SendNft { user, asset_id, recipient_id, amount, fee } => wallet_model(
            service,
            user,
            WalletCallView::ListAssets,
            NextView::Send { user, asset_id, recipient_id, amount, fee },
            "User not found"@,
        ),
        CommandsView::IssueNft { user, ticker, precision, name, attachments_file_paths } => {
            wallet_model(
                service,
                user,
                WalletCallView::ListUnspents { include_settled: true },
                NextView::Issue {
                    user,
                    ticker,
                    name,
                    precision,
                    attachment: attachments_file_paths,
                },
                "user not found"@,
            )
        },
        CommandsView::GetBalance { user } => wallet_model(
            service,
            user,
            WalletCallView::ListUnspentsVanilla { min_confirmations: MIN_CONFIRMATIONS },
            NextView::Show,
            "user not found"@,
        ),
        CommandsView::MineToAddress { address, num_blocks } => mine_to_address_model(
            service,
            address,
            num_blocks,
        ),
        CommandsView::CreateUtxo { user, fee } => wallet_model(
            service,
            user,
            create_utxos_call(fee),
            NextView::ShowCount,
            "user not found"@,
        ),
        CommandsView::ListNfts { user } => wallet_model(
            service,
            user,
            WalletCallView::ListAssets,
            NextView::ShowAssets,
            "User not found"@,
        ),
        CommandsView::ListTransfers { user, asset_id } => wallet_model(
            service,
            user,
            WalletCallView::Refresh,
            NextView::Transfers { user, asset_id },
            "User not found"@,
        ),
    }
}

/// How a command goes on when the outcome of its request comes in.
pub open spec fn progress_model(next: NextView, event: EventView, service: ServiceView)
    -> ProgressView {
    match next {
        NextView::Mine { blocks, sync } => match event {
            EventView::Address(text) => match checked_address(text, Network::Regtest) {
                Ok(address) => pending(
                    RequestView::Generate { blocks, address },
                    NextView::Mined { blocks, sync },
                ),
                Err(fault) => fault_reply(fault),
            },
            _ => refusal(event),
        },
        NextView::Mined { blocks, sync } => match event {
            EventView::Blocks(_) => if sync {
                sync_model(None, AfterSync::Mined { blocks })
            } else {
                reply(ReplyKind::Done, decimal(blocks as nat))
            },
            _ => refusal(event),
        },
        NextView::Poll { txid, after } => match event {
            EventView::Height(height) => poll_model(height, txid, after),
            _ => refusal(event),
        },
        NextView::Polling { height, txid, after } => if event.shows_header(height) {
            caught_up_model(txid, after)
        } else {
            poll_model(height, txid, after)
        },
        NextView::Synced { after } => match event {
            EventView::TxSeen => synced_model(after),
            _ => refusal(event),
        },
        NextView::ShowBlocks => match event {
            EventView::Blocks(hashes) => reply(ReplyKind::Done, json_texts(hashes)),
            _ => refusal(event),
        },
        NextView::ShowTxid => match event {
            EventView::Txid(txid) => reply(ReplyKind::Done, txid),
            _ => refusal(event),
        },
        NextView::ShowJsonTxid => match event {
            EventView::Txid(txid) => reply(ReplyKind::Done, json_text(txid)),
            _ => refusal(event),
        },
        NextView::ShowAddress => match event {
            EventView::Address(text) => match checked_address(text, Network::Regtest) {
                Ok(address) => reply(ReplyKind::Done, address),
                Err(fault) => fault_reply(fault),
            },
            _ => refusal(event),
        },
        NextView::Show => match event {
            EventView::Rendered(text) => reply(ReplyKind::Done, text),
            _ => refusal(event),
        },
        NextView::ShowCount => match event {
            EventView::Created(count) => reply(ReplyKind::Done, decimal(count as nat)),
            _ => refusal(event),
        },
        NextView::ShowAssets => match event {
            EventView::UniqueAssets(Some(list)) => reply(ReplyKind::Done, list.rendered),
            EventView::UniqueAssets(None) => reply(ReplyKind::NoAssets, "User not found"@),
            _ => refusal(event),
        },
        NextView::Send { user, asset_id, recipient_id, amount, fee } => match event {
            EventView::UniqueAssets(Some(list)) => wallet_model(
                service,
                user,
                send_call(recipients_among(list.ids, asset_id, recipient_id, amount), fee),
                NextView::ShowJsonTxid,
                "User not found"@,
            ),
            EventView::UniqueAssets(None) => reply(ReplyKind::NoAssets, "User not found"@),
            _ => refusal(event),
        },
        NextView::Issue { user, ticker, name, precision, attachment } => match event {
            EventView::Unspents(count) => if count == 0 {
                reply(ReplyKind::NoFunds, "user not found"@)
            } else {
                wallet_model(
                    service,
                    user,
                    issue_call(ticker, name, None, precision, None, seq![attachment]),
                    NextView::Show,
                    "user not found"@,
                )
            },
            _ => refusal(event),
        },
        NextView::Transfers { user, asset_id } => match event {
            EventView::Refreshed => wallet_model(
                service,
                user,
                WalletCallView::ListTransfers { asset_id },
                NextView::Show,
                "User not found"@,
            ),
            _ => refusal(event),
        },
        NextView::Register { name } => match event {
            EventView::Keys(keys) => register_model(service, name, keys.account_xpub_fingerprint),
            _ => refusal(event),
        },
    }
}

/// The registry after the outcome of a request: one user longer where the keys of a new
/// user come in under a free name, unchanged in every other case.
pub open spec fn service_model(next: NextView, event: EventView, service: ServiceView)
    -> ServiceView {
    match (next, event) {
        (NextView::Register { name }, EventView::Keys(keys)) => service.registered(name, keys),
        _ => service,
    }
}

/// How far a command comes when the outcomes of its requests come in one after the
/// other: each event takes it one step on, until it has its answer or the events end.
pub open spec fn run(progress: ProgressView, events: Seq<EventView>, service: ServiceView)
    -> ProgressView
    decreases events.len(),
{
    if events.len() == 0 {
        progress
    } else {
        match progress {
            ProgressView::Reply(_) => progress,
            ProgressView::Pending(task) => run(
                progress_model(task.next, events[0], service),
                events.drop_first(),
                service_model(task.next, events[0], service),
            ),
        }
    }
}

} // verus!
