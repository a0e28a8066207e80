use crate::address::{check_address, Network};
use crate::dispatch::{begin_mining, fault_answer, user_exists_message};
use crate::flow::{optional_txid, AfterSync, Next, Progress, ReplyKind, Request};
use crate::model::{create_user_model, mine_model, mine_to_address_model, sync_model};
use crate::text::{owned, same_text};
use crate::txid::Txid;
use crate::user::{KeySet, KeySetView, User, UserView};
use vstd::prelude::*;

verus! {

/// The orchestrator's own state: the network it serves and the users it has created,
/// oldest first. The chain backend and the wallets are held by whoever performs the
/// requests.
#[derive(Debug, PartialEq, Eq)]
pub struct Service {
    pub network: Network,
    pub users: Vec<User>,
}

/// The service's state, with its users as a sequence of their views.
pub struct ServiceView {
    pub network: Network,
    pub users: Seq<UserView>,
}

impl View for Service {
    type V = ServiceView;

    open spec fn view(&self) -> ServiceView {
        ServiceView { network: self.network, users: self.users@.map_values(|user: User| user@) }
    }
}

impl ServiceView {
    /// Whether a user of that exact name is registered.
    pub open spec fn has_user(self, name: Seq<char>) -> bool {
        exists|i: int| 0 <= i < self.users.len() && (#[trigger] self.users[i]).name == name
    }

    /// Whether every name is registered at most once.
    pub open spec fn wf(self) -> bool {
        forall|i: int, j: int|
            0 <= i < j < self.users.len() ==> (#[trigger] self.users[i]).name != (
            #[trigger] self.users[j]).name
    }

    /// The registry with one more user at its end.
    pub open spec fn with_user(self, name: Seq<char>, keys: KeySetView) -> ServiceView {
        ServiceView { network: self.network, users: self.users.push(UserView { name, keys }) }
    }

    /// The registry after an attempt to register a name: unchanged where the name is
    /// taken, longer by that user where it is free.
    pub open spec fn registered(self, name: Seq<char>, keys: KeySetView) -> ServiceView {
        if self.has_user(name) {
            self
        } else {
            self.with_user(name, keys)
        }
    }
}

impl Service {
    /// A service for a network, with no users yet.
    pub fn new(network: Network) -> (service: Service)
        ensures
            service@ == (ServiceView { network, users: Seq::empty() }),
            service@.wf(),
    {
        let service = Service { network, users: Vec::new() };
        assert(service@.users =~= Seq::empty());
        service
    }

    /// Looks a user up by exact name.
    ///
    /// Returns the place of the first user of that name, or `None` exactly where no user
    /// has it.
    pub fn find_user(&self, name: &str) -> (found: Option<usize>)
        ensures
            match found {
                Some(at) => at < self.users.len() && self.users[at as int].name@ == name@
                    && forall|j: int| 0 <= j < at ==> self@.users[j].name != name@,
                None => !self@.has_user(name@),
            },
            found is Some <==> self@.has_user(name@),
    {
        let mut i: usize = 0;
        while i < self.users.len()
            invariant
                i <= self.users.len(),
                forall|j: int| 0 <= j < i ==> self@.users[j].name != name@,
            decreases self.users.len() - i,
        {
            if same_text(self.users[i].name.as_str(), name) {
                assert(self@.users[i as int].name == name@);
                return Some(i);
            }
            i += 1;
        }
        None
    }

    /// Begins the creation of a user.
    ///
    /// A name that is taken is answered at once, with the words that say so: nothing is
    /// requested, so no keys are made and no wallet is opened. For a free name the wallet
    /// is to be opened in the directory that belongs to the name; the user is registered
    /// when its keys come back.
    pub fn create_user(&self, name: &str) -> (progress: Progress)
        ensures
            progress@ == create_user_model(self@, name@),
    {
        match self.find_user(name) {
            Some(_) => Progress::answer(ReplyKind::UserExists, user_exists_message(name)),
            None => Progress::ask(
                Request::OpenWallet { name: owned(name), data_dir: User::data_dir(name) },
                Next::Register { name: owned(name) },
            ),
        }
    }

    /// Begins the mining of blocks to a fresh address of the full node.
    ///
    /// No number of blocks is turned down; the answer, once the blocks are there, is
    /// their number.
    pub fn mine(&self, blocks: u64) -> (progress: Progress)
        ensures
            progress@ == mine_model(blocks, false),
    {
        begin_mining(blocks, false)
    }

    /// Begins the mining of blocks to an address that the caller names.
    ///
    /// The address must be valid for the service's network: a text that is no address,
    /// or an address of another network, is answered with the fault and nothing is mined.
    pub fn mine_to_address(&self, address: &str, blocks: u64) -> (progress: Progress)
        ensures
            progress@ == mine_to_address_model(self@, address@, blocks),
    {
        match check_address(address, self.network) {
            Ok(address) => Progress::ask(Request::Generate { blocks, address }, Next::ShowBlocks),
            Err(fault) => fault_answer(fault),
        }
    }

    /// Begins the sync barrier: the wait until the indexer has the block that the full
    /// node is at and, where a transaction is named, has seen that transaction.
    pub fn sync_to_chain(&self, txid: Option<Txid>) -> (progress: Progress)
        ensures
            progress@ == sync_model(optional_txid(txid), AfterSync::Success),
    {
        Progress::ask(Request::BlockCount, Next::Poll { txid, after: AfterSync::Success })
    }

    /// Registers a user under a name that is still free.
    ///
    /// Returns whether the user was added. A name that is taken leaves the registry as it
    /// was; a free one is appended after the users that are there.
    pub fn register(&mut self, name: String, keys: KeySet) -> (added: bool)
        ensures
            added == !old(self)@.has_user(name@),
            final(self)@ == old(self)@.registered(name@, keys@),
            old(self)@.wf() ==> final(self)@.wf(),
    {
        match self.find_user(name.as_str()) {
            Some(_) => false,
            None => {
                let ghost before = self@;
                self.users.push(User { name, keys });
                assert(self@.users =~= before.users.push(UserView { name: name@, keys: keys@ }));
                true
            },
        }
    }
}

} // verus!
