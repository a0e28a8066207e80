use crate::address::{
    checked_address, parsed_address, valid_for_network, AddressFaultView, Network,
};
use crate::commands::CommandsView;
use crate::flow::{reply, AfterSync, EventView, NextView, ProgressView, ReplyKind};
use crate::model::{
    caught_up_model, create_user_model, handle_model, poll_model, progress_model, run,
    service_model, user_exists_text,
};
use crate::service::ServiceView;
use vstd::prelude::*;

verus! {

/// Creating a user is idempotent. Under a name that is taken the creation is answered
/// with the words that say so and requests nothing, so that no wallet is opened and no
/// directory made; and whatever event is handed to a registration under that name, the
/// registry stays as it was.
pub proof fn law_create_user_idempotent(service: ServiceView, name: Seq<char>, event: EventView)
    requires
        service.has_user(name),
    ensures
        create_user_model(service, name) == reply(ReplyKind::UserExists, user_exists_text(name)),
        service_model(NextView::Register { name }, event, service) == service,
        progress_model(NextView::Register { name }, event, service) is Reply,
        !(progress_model(NextView::Register { name }, event, service) matches ProgressView::Reply(
            answer,
        ) && answer.kind == ReplyKind::Done),
{
}

/// A user that was registered is found from then on: a second creation under the same
/// name is a conflict.
pub proof fn law_created_user_is_known(service: ServiceView, name: Seq<char>, event: EventView)
    requires
        event is Keys,
    ensures
        service_model(NextView::Register { name }, event, service).has_user(name),
{
    let after = service_model(NextView::Register { name }, event, service);
    if !service.has_user(name) {
        assert(after.users[after.users.len() - 1].name == name);
    }
}

/// No step takes a user out of the registry or changes one: the users that were there
/// stay, in their order, and the names stay unique.
pub proof fn law_registry_grows(next: NextView, event: EventView, service: ServiceView)
    ensures
        service.users.is_prefix_of(service_model(next, event, service).users),
        service_model(next, event, service).network == service.network,
        service.wf() ==> service_model(next, event, service).wf(),
{
    let after = service_model(next, event, service);
    if after != service {
        assert(after.users.len() == service.users.len() + 1);
        assert(after.users.subrange(0, service.users.len() as int) =~= service.users);
        if service.wf() {
            assert forall|i: int, j: int| 0 <= i < j < after.users.len() implies (
            #[trigger] after.users[i]).name != (#[trigger] after.users[j]).name by {
                if j < service.users.len() {
                    assert(after.users[i] == service.users[i]);
                    assert(after.users[j] == service.users[j]);
                } else {
                    assert(after.users[i] == service.users[i]);
                }
            }
        }
    } else {
        assert(service.users.subrange(0, service.users.len() as int) =~= service.users);
    }
}

/// Every command about a user answers, for a name that is not registered, that the user
/// was not found: an answer, not an error, and no request to any wallet.
pub proof fn law_unknown_user_not_found(command: CommandsView, service: ServiceView)
    requires
        command.user() matches Some(name) && !service.has_user(name),
    ensures
        handle_model(command, service) == reply(ReplyKind::UserNotFound, "User not found"@)
            || handle_model(command, service) == reply(
            ReplyKind::UserNotFound,
            "user not found"@,
        ),
        !ReplyKind::UserNotFound.is_error(),
{
}

/// The sync barrier does not end before the indexer reports the header. Once the wait at
/// a height has begun, and as long as none of the events that come in reports the header
/// at that very height, the barrier is still waiting there: failed questions, headers at
/// other heights and every other event only make it ask again.
pub proof fn law_barrier_waits_for_header(
    height: u64,
    txid: Option<Seq<char>>,
    after: AfterSync,
    events: Seq<EventView>,
    service: ServiceView,
)
    requires
        forall|i: int| 0 <= i < events.len() ==> !(#[trigger] events[i]).shows_header(height),
    ensures
        run(poll_model(height, txid, after), events, service) == poll_model(height, txid, after),
    decreases events.len(),
{
    if events.len() > 0 {
        let waiting = NextView::Polling { height, txid, after };
        assert(!events[0].shows_header(height));
        assert(progress_model(waiting, events[0], service) == poll_model(height, txid, after));
        assert(service_model(waiting, events[0], service) == service);
        let rest = events.drop_first();
        assert forall|i: int| 0 <= i < rest.len() implies !(#[trigger] rest[i]).shows_header(
            height,
        ) by {
            assert(rest[i] == events[i + 1]);
        }
        law_barrier_waits_for_header(height, txid, after, rest, service);
    }
}

/// The height that the barrier waits at is the one that the full node reported when the
/// sync began.
pub proof fn law_barrier_waits_at_node_height(
    height: u64,
    txid: Option<Seq<char>>,
    after: AfterSync,
    service: ServiceView,
)
    ensures
        progress_model(NextView::Poll { txid, after }, EventView::Height(height), service)
            == poll_model(height, txid, after),
{
}

/// A failed question to the indexer does not end the wait.
pub proof fn law_barrier_tolerates_failures(
    height: u64,
    txid: Option<Seq<char>>,
    after: AfterSync,
    message: Seq<char>,
    service: ServiceView,
)
    ensures
        progress_model(
            NextView::Polling { height, txid, after },
            EventView::Failed(message),
            service,
        ) == poll_model(height, txid, after),
        progress_model(
            NextView::Polling { height, txid, after },
            EventView::Header { height, present: false },
            service,
        ) == poll_model(height, txid, after),
{
}

/// The report of the header at the height ends the wait: the sync is over, or, where a
/// transaction was named, goes on to wait for that transaction.
pub proof fn law_barrier_ends_on_header(
    height: u64,
    txid: Option<Seq<char>>,
    after: AfterSync,
    service: ServiceView,
)
    ensures
        progress_model(
            NextView::Polling { height, txid, after },
            EventView::Header { height, present: true },
            service,
        ) == caught_up_model(txid, after),
        caught_up_model(txid, after) != poll_model(height, txid, after),
        txid is None ==> caught_up_model(txid, after) is Reply,
{
}

/// Nothing is issued for a user without a spendable output. With a count of zero the
/// answer is the one for missing funds, in the words for a missing user; and the
/// issuance is requested on no event but a count above zero.
pub proof fn law_no_issuance_without_funds(
    user: Seq<char>,
    ticker: Seq<char>,
    name: Seq<char>,
    precision: u8,
    attachment: Seq<char>,
    event: EventView,
    service: ServiceView,
)
    ensures
        progress_model(
            NextView::Issue { user, ticker, name, precision, attachment },
            EventView::Unspents(0),
            service,
        ) == reply(ReplyKind::NoFunds, "user not found"@),
        progress_model(
            NextView::Issue { user, ticker, name, precision, attachment },
            event,
            service,
        ) is Pending ==> (event matches EventView::Unspents(count) && count > 0),
{
}

/// An address that is shown for a wallet has passed the network rule for the
/// regression-test network, and is shown as the parser writes it.
pub proof fn law_shown_address_is_valid(text: Seq<char>, service: ServiceView)
    ensures
        progress_model(NextView::ShowAddress, EventView::Address(text), service) is Reply,
        progress_model(NextView::ShowAddress, EventView::Address(text), service)
            matches ProgressView::Reply(answer) && answer.kind == ReplyKind::Done ==> (
        parsed_address(text) matches Some(parsed) && valid_for_network(
            parsed.network,
            parsed.legacy,
            Network::Regtest,
        ) && checked_address(text, Network::Regtest) == Ok::<Seq<char>, AddressFaultView>(
            parsed.written,
        )),
{
}

} // verus!
