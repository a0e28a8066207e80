use crate::address::{check_address, AddressFault, AddressFaultKind, Network};
use crate::commands::Commands;
use crate::flow::{
    optional_txid, pending, reply, AfterSync, Event, EventView, Next, NextView, Progress,
    ProgressView, ReplyKind, Request, RequestView, Task, POLL_INTERVAL_MS,
};
use crate::json::{pretty_number, pretty_text, pretty_texts};
use crate::model::{
    caught_up_model, fault_reply, handle_model, mine_model, poll_model, progress_model, refusal,
    run, service_model, synced_model, user_created_text, user_exists_text,
};
use crate::service::{Service, ServiceView};
use crate::text::{decimal, decimal_text, joined, owned, single_text};
use crate::txid::{parse_txid, Txid};
use crate::user::User;
use crate::wallet::{FeeRate, WalletCall};
use vstd::prelude::*;
use vstd::string::StringExecFns;

verus! {

/// The answer to an address that was turned down.
pub(crate) fn fault_answer(fault: AddressFault) -> (progress: Progress)
    ensures
        progress@ == fault_reply(fault@),
{
    match fault.kind {
        AddressFaultKind::Malformed => Progress::answer(ReplyKind::InvalidAddress, fault.message),
        AddressFaultKind::WrongNetwork => Progress::answer(ReplyKind::WrongNetwork, fault.message),
    }
}

/// The answer to an event that brings no result.
pub(crate) fn refuse(event: Event) -> (progress: Progress)
    ensures
        progress@ == refusal(event@),
{
    match event {
        Event::Failed(message) => Progress::answer(ReplyKind::Refused, message),
        _ => Progress::answer(ReplyKind::Unexpected, owned("unexpected event")),
    }
}

/// The answer that shows a number as JSON does.
pub fn number_answer(value: u64) -> (progress: Progress)
    ensures
        progress@ == reply(ReplyKind::Done, decimal(value as nat)),
{
    match pretty_number(value) {
        Ok(written) => Progress::answer(ReplyKind::Done, written),
        Err(message) => Progress::answer(ReplyKind::Refused, message),
    }
}

/// The words for a name that is taken.
pub fn user_exists_message(name: &str) -> (text: String)
    ensures
        text@ == user_exists_text(name@),
{
    joined("User ", name).concat(" already exists.")
}

/// The words for a user that was created.
pub fn user_created_message(name: &str, fingerprint: &str) -> (text: String)
    ensures
        text@ == user_created_text(name@, fingerprint@),
{
    joined("Created user ", fingerprint).concat(", with fingerprint ").concat(name)
}

/// Mining begins with a fresh address of the full node. With `sync` the sync barrier
/// follows the blocks, so that what comes after sees them.
pub(crate) fn begin_mining(blocks: u64, sync: bool) -> (progress: Progress)
    ensures
        progress@ == mine_model(blocks, sync),
{
    Progress::ask(Request::NewAddress, Next::Mine { blocks, sync })
}

/// One question to the indexer, after the fixed pause.
pub(crate) fn poll(height: u64, txid: Option<Txid>, after: AfterSync) -> (progress: Progress)
    ensures
        progress@ == poll_model(height, optional_txid(txid), after),
{
    Progress::ask(
        Request::PollHeader { height, pause_ms: POLL_INTERVAL_MS },
        Next::Polling { height, txid, after },
    )
}

/// The answer in which a sync ends.
pub(crate) fn finish_sync(after: AfterSync) -> (progress: Progress)
    ensures
        progress@ == synced_model(after),
{
    match after {
        AfterSync::Success => Progress::answer(ReplyKind::Done, owned("Success")),
        AfterSync::Mined { blocks } => number_answer(blocks),
    }
}

/// What follows once the indexer has the header.
pub(crate) fn caught_up(txid: Option<Txid>, after: AfterSync) -> (progress: Progress)
    ensures
        progress@ == caught_up_model(optional_txid(txid), after),
{
    match txid {
        Some(txid) => Progress::ask(Request::WaitTx { txid }, Next::Synced { after }),
        None => finish_sync(after),
    }
}

/// The answer to a command about a user that is not registered.
pub(crate) fn missing_user(words: &str) -> (progress: Progress)
    ensures
        progress@ == reply(ReplyKind::UserNotFound, words@),
{
    Progress::answer(ReplyKind::UserNotFound, owned(words))
}

/// The request to the wallet of a user.
pub(crate) fn ask_wallet(user: String, call: WalletCall, next: Next) -> (progress: Progress)
    ensures
        progress@ == pending(RequestView::Wallet { user: user@, call: call@ }, next@),
{
    Progress::ask(Request::Wallet { user, call }, next)
}

/// Takes the first step of a command: answers it where it can be answered at once, or
/// names the request on whose outcome it goes on.
///
/// A command about a user that is not registered is answered with the words for a
/// missing user and asks nothing of any wallet. An address is held to the service's
/// network, and a transaction id is read, before anything is asked of the chain.
pub fn handle_command(command: Commands, service: &Service) -> (progress: Progress)
    ensures
        progress@ == handle_model(command@, service@),
{
    match command {
        Commands::Mine { blocks } => begin_mining(blocks, true),
        Commands::CreateUser { name } => service.create_user(name.as_str()),
        Commands::ReceiveBlind { user } => match service.find_user(user.as_str()) {
            Some(at) => ask_wallet(user, service.users[at].blind_receive(), Next::Show),
            None => missing_user("User not found"),
        },
        Commands::SendBtc { amount_sat, address } => {
            match check_address(address.as_str(), service.network) {
                Ok(address) => Progress::ask(
                    Request::SendToAddress { address, amount_sat },
                    Next::ShowTxid,
                ),
                Err(fault) => fault_answer(fault),
            }
        },
        Commands::Sync { txid } => match txid {
            None => service.sync_to_chain(None),
            Some(text) => match parse_txid(text.as_str()) {
                Ok(txid) => service.sync_to_chain(Some(txid)),
                Err(message) => Progress::answer(ReplyKind::InvalidTxid, message),
            },
        },
        Commands::GetAddr { user } => match service.find_user(user.as_str()) {
            Some(_) => ask_wallet(user, WalletCall::GetAddress, Next::ShowAddress),
            None => missing_user("User not found"),
        },
        Commands::SendNft { user, asset_id, recipient_id, amount, fee } => {
            match service.find_user(user.as_str()) {
                Some(_) => {
                    let next = Next::Send {
                        user: user.clone(),
                        asset_id,
                        recipient_id,
                        amount,
                        fee,
                    };
                    ask_wallet(user, WalletCall::ListAssets, next)
                },
                None => missing_user("User not found"),
            }
        },
        Commands::IssueNft { user, ticker, precision, name, attachments_file_paths } => {
            match service.find_user(user.as_str()) {
                Some(_) => {
                    let next = Next::Issue {
                        user: user.clone(),
                        ticker,
                        name,
                        precision,
                        attachment: attachments_file_paths,
                    };
                    ask_wallet(user, WalletCall::ListUnspents { include_settled: true }, next)
                },
                None => missing_user("user not found"),
            }
        },
        Commands::GetBalance { user } => match service.find_user(user.as_str()) {
            Some(at) => ask_wallet(user, service.users[at].get_balance(), Next::Show),
            None => missing_user("user not found"),
        },
        Commands::MineToAddress { address, num_blocks } => service.mine_to_address(
            address.as_str(),
            num_blocks,
        ),
        Commands::CreateUtxo { user, fee } => match service.find_user(user.as_str()) {
            Some(at) => ask_wallet(user, service.users[at].create_utxo(fee), Next::ShowCount),
            None => missing_user("user not found"),
        },
        Commands::ListNfts { user } => match service.find_user(user.as_str()) {
            Some(_) => ask_wallet(user, WalletCall::ListAssets, Next::ShowAssets),
            None => missing_user("User not found"),
        },
        Commands::ListTransfers { user, asset_id } => match service.find_user(user.as_str()) {
            Some(_) => {
                let next = Next::Transfers { user: user.clone(), asset_id };
                ask_wallet(user, WalletCall::Refresh, next)
            },
            None => missing_user("User not found"),
        },
    }
}

/// Mining goes on with the fresh address: held to the regression-test network, it is the
/// address that the blocks pay to.
fn mine_to_fresh(blocks: u64, sync: bool, event: Event) -> (progress: Progress)
    ensures
        forall|service: ServiceView|
            progress@ == progress_model(NextView::Mine { blocks, sync }, event@, service),
{
    match event {
        Event::Address(text) => match check_address(text.as_str(), Network::Regtest) {
            Ok(address) => Progress::ask(
                Request::Generate { blocks, address },
                Next::Mined { blocks, sync },
            ),
            Err(fault) => fault_answer(fault),
        },
        other => refuse(other),
    }
}

/// The blocks are there: their number is the answer, after a sync where one was asked for.
fn mined(blocks: u64, sync: bool, event: Event) -> (progress: Progress)
    ensures
        forall|service: ServiceView|
            progress@ == progress_model(NextView::Mined { blocks, sync }, event@, service),
{
    match event {
        Event::Blocks(_) => if sync {
            Progress::ask(
                Request::BlockCount,
                Next::Poll { txid: None, after: AfterSync::Mined { blocks } },
            )
        } else {
            number_answer(blocks)
        },
        other => refuse(other),
    }
}

/// The address of a wallet is shown once it has passed for the regression-test network.
fn show_address(event: Event) -> (progress: Progress)
    ensures
        forall|service: ServiceView|
            progress@ == progress_model(NextView::ShowAddress, event@, service),
{
    match event {
        Event::Address(text) => match check_address(text.as_str(), Network::Regtest) {
            Ok(address) => Progress::answer(ReplyKind::Done, address),
            Err(fault) => fault_answer(fault),
        },
        other => refuse(other),
    }
}

/// The hashes of the blocks are shown as a JSON array.
fn show_blocks(event: Event) -> (progress: Progress)
    ensures
        forall|service: ServiceView|
            progress@ == progress_model(NextView::ShowBlocks, event@, service),
{
    match event {
        Event::Blocks(hashes) => match pretty_texts(&hashes) {
            Ok(written) => Progress::answer(ReplyKind::Done, written),
            Err(message) => Progress::answer(ReplyKind::Refused, message),
        },
        other => refuse(other),
    }
}

/// The transaction id is shown as a JSON string.
fn show_json_txid(event: Event) -> (progress: Progress)
    ensures
        forall|service: ServiceView|
            progress@ == progress_model(NextView::ShowJsonTxid, event@, service),
{
    match event {
        Event::Txid(txid) => match pretty_text(txid.as_str()) {
            Ok(written) => Progress::answer(ReplyKind::Done, written),
            Err(message) => Progress::answer(ReplyKind::Refused, message),
        },
        other => refuse(other),
    }
}

/// The list of unique assets is shown, where the wallet keeps one.
fn show_assets(event: Event) -> (progress: Progress)
    ensures
        forall|service: ServiceView|
            progress@ == progress_model(NextView::ShowAssets, event@, service),
{
    match event {
        Event::UniqueAssets(Some(list)) => Progress::answer(ReplyKind::Done, list.rendered),
        Event::UniqueAssets(None) => Progress::answer(
            ReplyKind::NoAssets,
            owned("User not found"),
        ),
        other => refuse(other),
    }
}

/// The transfer is submitted once the wallet has listed its unique assets.
fn send_asset(
    user: String,
    asset_id: String,
    recipient_id: String,
    amount: u64,
    fee: FeeRate,
    event: Event,
    service: &Service,
) -> (progress: Progress)
    ensures
        progress@ == progress_model(
            NextView::Send {
                user: user@,
                asset_id: asset_id@,
                recipient_id: recipient_id@,
                amount,
                fee,
            },
            event@,
            service@,
        ),
{
    match event {
        Event::UniqueAssets(Some(list)) => match service.find_user(user.as_str()) {
            Some(at) => {
                let call = service.users[at].send(&list.ids, asset_id, recipient_id, amount, fee);
                ask_wallet(user, call, Next::ShowJsonTxid)
            },
            None => missing_user("User not found"),
        },
        Event::UniqueAssets(None) => Progress::answer(
            ReplyKind::NoAssets,
            owned("User not found"),
        ),
        other => refuse(other),
    }
}

/// The asset is issued only where the user holds a spendable output.
fn issue_asset(
    user: String,
    ticker: String,
    name: String,
    precision: u8,
    attachment: String,
    event: Event,
    service: &Service,
) -> (progress: Progress)
    ensures
        progress@ == progress_model(
            NextView::Issue {
                user: user@,
                ticker: ticker@,
                name: name@,
                precision,
                attachment: attachment@,
            },
            event@,
            service@,
        ),
{
    match event {
        Event::Unspents(count) => if count == 0 {
            Progress::answer(ReplyKind::NoFunds, owned("user not found"))
        } else {
            match service.find_user(user.as_str()) {
                Some(at) => {
                    let call = service.users[at].issue_nft(
                        ticker,
                        name,
                        None,
                        precision,
                        None,
                        single_text(attachment),
                    );
                    ask_wallet(user, call, Next::Show)
                },
                None => missing_user("user not found"),
            }
        },
        other => refuse(other),
    }
}

/// The transfers of the asset are listed once the wallet is up to date.
fn list_transfers(user: String, asset_id: String, event: Event, service: &Service) -> (progress:
    Progress)
    ensures
        progress@ == progress_model(
            NextView::Transfers { user: user@, asset_id: asset_id@ },
            event@,
            service@,
        ),
{
    match event {
        Event::Refreshed => match service.find_user(user.as_str()) {
            Some(at) => {
                let call = service.users[at].list_transfers(asset_id);
                ask_wallet(user, call, Next::Show)
            },
            None => missing_user("User not found"),
        },
        other => refuse(other),
    }
}

/// The user is registered once the keys of its wallet are there, unless the name has
/// been taken meanwhile.
fn register_user(name: String, event: Event, service: &mut Service) -> (progress: Progress)
    ensures
        progress@ == progress_model(NextView::Register { name: name@ }, event@, old(service)@),
        final(service)@ == service_model(
            NextView::Register { name: name@ },
            event@,
            old(service)@,
        ),
{
    match event {
        Event::Keys(keys) => {
            let created = user_created_message(
                name.as_str(),
                keys.account_xpub_fingerprint.as_str(),
            );
            let taken = user_exists_message(name.as_str());
            if service.register(name, keys) {
                Progress::answer(ReplyKind::Done, created)
            } else {
                Progress::answer(ReplyKind::UserExists, taken)
            }
        },
        other => refuse(other),
    }
}

/// Takes the next step of a command, with the outcome of the request that was under way.
///
/// The step depends on what was to follow the request and on the event; the request
/// itself is not read again. A failure is answered with the words it came with, except
/// while the sync barrier waits: there every event but the sight of the header asks the
/// indexer again. Only the keys of a new user change the registry.
pub fn resume(task: Task, event: Event, service: &mut Service) -> (progress: Progress)
    ensures
        progress@ == progress_model(task.next@, event@, old(service)@),
        final(service)@ == service_model(task.next@, event@, old(service)@),
{
    match task.next {
        Next::Mine { blocks, sync } => mine_to_fresh(blocks, sync, event),
        Next::Mined { blocks, sync } => mined(blocks, sync, event),
        Next::Poll { txid, after } => match event {
            Event::Height(height) => poll(height, txid, after),
            other => refuse(other),
        },
        Next::Polling { height, txid, after } => match event {
            Event::Header { height: seen, present: true } => if seen == height {
                caught_up(txid, after)
            } else {
                poll(height, txid, after)
            },
            _ => poll(height, txid, after),
        },
        Next::Synced { after } => match event {
            Event::TxSeen => finish_sync(after),
            other => refuse(other),
        },
        Next::ShowBlocks => show_blocks(event),
        Next::ShowTxid => match event {
            Event::Txid(txid) => Progress::answer(ReplyKind::Done, txid),
            other => refuse(other),
        },
        Next::ShowJsonTxid => show_json_txid(event),
        Next::ShowAddress => show_address(event),
        Next::Show => match event {
            Event::Rendered(text) => Progress::answer(ReplyKind::Done, text),
            other => refuse(other),
        },
        Next::ShowCount => match event {
            Event::Created(count) => Progress::answer(ReplyKind::Done, decimal_text(count as u64)),
            other => refuse(other),
        },
        Next::ShowAssets => show_assets(event),
        Next::Send { user, asset_id, recipient_id, amount, fee } => send_asset(
            user,
            asset_id,
            recipient_id,
            amount,
            fee,
            event,
            service,
        ),
        Next::Issue { user, ticker, name, precision, attachment } => issue_asset(
            user,
            ticker,
            name,
            precision,
            attachment,
            event,
            service,
        ),
        Next::Transfers { user, asset_id } => list_transfers(user, asset_id, event, service),
        Next::Register { name } => register_user(name, event, service),
    }
}

/// The views of a list of events.
pub open spec fn event_views(events: Seq<Event>) -> Seq<EventView> {
    events.map_values(|event: Event| event@)
}

/// Takes a command as far as a list of events takes it, the first event first.
///
/// Each event is handed over as the outcome of the request that is then under way; the
/// events that are left once the command has its answer are not read.
pub fn replay(progress: Progress, events: Vec<Event>, service: &mut Service) -> (last: Progress)
    ensures
        last@ == run(progress@, event_views(events@), old(service)@),
{
    let ghost all = event_views(events@);
    let ghost first = progress@;
    let mut current = progress;
    let mut rest = events;
    while rest.len() > 0
        invariant
            run(current@, event_views(rest@), service@) == run(first, all, old(service)@),
        decreases rest.len(),
    {
        let ghost before = event_views(rest@);
        let event = rest.remove(0);
        assert(event_views(rest@) =~= before.drop_first());
        assert(event@ == before[0]);
        match current {
            Progress::Reply(reply) => {
                proof {
                    lemma_answered_runs_no_further(Progress::Reply(reply)@, before, service@);
                    lemma_answered_runs_no_further(
                        Progress::Reply(reply)@,
                        event_views(rest@),
                        service@,
                    );
                }
                current = Progress::Reply(reply);
            },
            Progress::Pending(task) => {
                current = resume(task, event, service);
            },
        }
    }
    current
}

/// A command that has its answer stays as it is, whatever events follow.
pub proof fn lemma_answered_runs_no_further(
    progress: ProgressView,
    events: Seq<EventView>,
    service: ServiceView,
)
    requires
        progress is Reply,
    ensures
        run(progress, events, service) == progress,
{
}

} // verus!
