//! The hub: the registry of sessions, subscriptions, allow-lists and tenant
//! activity, and the rules by which each command changes it.
use crate::db::TopicRelation;
use crate::string_index::{holds, members_of, with_member, StringIndex};
use crate::string_map::StringMap;
use crate::string_set::{lemma_listed, listed_before, lists, views_of, StringSet};
use crate::websocket::Message;
use vstd::prelude::*;

verus! {

/// Seconds between two refreshes of the allow-lists.
pub const TOPIC_RELATIONS_UPDATE_INTERVAL_SECS: u64 = 60;

/// The network address of a caller from outside the fleet.
pub struct PeerAddress {
    pub ip: String,
    pub port: u16,
}

/// Who published an event.
pub enum Sender {
    Address(Option<PeerAddress>),
    Device { device_id: String, device_type_id: String },
}

/// The device that published, if a device did.
pub open spec fn sender_device(sender: Sender) -> Option<Seq<char>> {
    match sender {
        Sender::Device { device_id, device_type_id } => Some(device_id@),
        Sender::Address(_) => None,
    }
}

/// Command: route an event.
pub struct PublishMessage {
    pub sender: Sender,
    pub account_id: String,
    pub message: Message,
}

/// Command: subscribe a device to topics.
pub struct RegisterTopics {
    pub account_id: String,
    pub device_id: String,
    pub topics: Vec<String>,
}

/// Command: admit a session. `addr` is the handle by which the session is
/// reached afterwards.
pub struct Connect<H> {
    pub account_id: String,
    pub device_type_id: String,
    pub device_id: String,
    pub addr: H,
}

/// Command: forget a session.
pub struct Disconnect {
    pub account_id: String,
    pub device_type_id: String,
    pub device_id: String,
}

/// A connected device. Two devices with the same `device_id` are the same
/// device.
pub struct Device {
    device_id: String,
    device_type_id: String,
}

impl Device {
    pub closed spec fn id(self) -> Seq<char> {
        self.device_id@
    }

    pub closed spec fn type_id(self) -> Seq<char> {
        self.device_type_id@
    }

    pub fn new(device_id: String, device_type_id: String) -> (device: Self)
        ensures
            device.id() == device_id@,
            device.type_id() == device_type_id@,
    {
        Device { device_id, device_type_id }
    }

    pub fn device_id(&self) -> (id: &String)
        ensures
            id@ == self.id(),
    {
        &self.device_id
    }

    pub fn device_type_id(&self) -> (id: &String)
        ensures
            id@ == self.type_id(),
    {
        &self.device_type_id
    }
}

/// The live devices of one tenant, each with its device type, and the
/// tenant's connection cap.
pub struct Account {
    pub devices: StringMap<String>,
    pub max_connections: usize,
}

/// An account as a mathematical value: device id to device type id.
pub struct AccountView {
    pub devices: Map<Seq<char>, Seq<char>>,
    pub max_connections: nat,
}

impl View for Account {
    type V = AccountView;

    open spec fn view(&self) -> AccountView {
        AccountView {
            devices: self.devices@.map_values(|type_id: String| type_id@),
            max_connections: self.max_connections as nat,
        }
    }
}

impl AccountView {
    /// The account holds no more devices than its cap allows.
    pub open spec fn within_cap(self) -> bool {
        self.devices.dom().finite() && self.devices.dom().len() <= self.max_connections
    }

    /// The account has reached its cap.
    pub open spec fn full(self) -> bool {
        self.devices.dom().len() >= self.max_connections
    }

    /// The account after a device joins. A device that is already there
    /// stays as it is.
    pub open spec fn with_device(self, device_id: Seq<char>, device_type_id: Seq<char>) -> AccountView {
        if self.devices.contains_key(device_id) {
            self
        } else {
            AccountView { devices: self.devices.insert(device_id, device_type_id), ..self }
        }
    }

    /// The account after a device leaves.
    pub open spec fn without_device(self, device_id: Seq<char>) -> AccountView {
        AccountView { devices: self.devices.remove(device_id), ..self }
    }
}

/// Command: tell every session that the server is going away.
pub struct Shutdown();

/// Command: list the live devices of a tenant.
pub struct GetAccountActivity(pub String);

/// Why a connect was refused.
#[derive(Clone, Copy, Debug, PartialEq, Eq, Structural)]
pub enum ConnectError {
    /// The tenant already has as many sessions as it may have.
    Admission,
    /// The tenant's account is not known to the hub.
    Transient,
}

impl ConnectError {
    /// The refusal in words.
    pub open spec fn text(self) -> Seq<char> {
        match self {
            ConnectError::Admission => "Exceeded number of connections"@,
            ConnectError::Transient => "Unable to fetch account"@,
        }
    }

    /// The refusal in words.
    pub fn as_str(&self) -> (text: &'static str)
        ensures
            text@ == self.text(),
    {
        match self {
            ConnectError::Admission => "Exceeded number of connections",
            ConnectError::Transient => "Unable to fetch account",
        }
    }
}

/// The hub's registry as a mathematical value.
pub struct HubView<H> {
    /// device id to session handle
    pub sessions: Map<Seq<char>, H>,
    /// topic id to subscribed device ids
    pub topics: Map<Seq<char>, Set<Seq<char>>>,
    /// account id to the topic ids that the tenant may use
    pub topic_relations: Map<Seq<char>, Set<Seq<char>>>,
    /// account id to the tenant's live devices and cap
    pub accounts: Map<Seq<char>, AccountView>,
}

impl<H> HubView<H> {
    /// The registry of a hub that has seen no command.
    pub open spec fn empty() -> Self {
        HubView {
            sessions: Map::empty(),
            topics: Map::empty(),
            topic_relations: Map::empty(),
            accounts: Map::empty(),
        }
    }

    /// No tenant holds more devices than its cap allows.
    pub open spec fn within_caps(self) -> bool {
        forall|a: Seq<char>| #[trigger] self.accounts.contains_key(a) ==> self.accounts[a].within_cap()
    }

    /// The registry after the store's answer for an unknown tenant is
    /// cached; a tenant that is already known keeps its entry.
    pub open spec fn with_account(self, account_id: Seq<char>, max_connections: nat) -> Self {
        if self.accounts.contains_key(account_id) {
            self
        } else {
            HubView {
                accounts: self.accounts.insert(
                    account_id,
                    AccountView { devices: Map::empty(), max_connections },
                ),
                ..self
            }
        }
    }

    /// What a connect command is answered with.
    pub open spec fn connect_result(self, account_id: Seq<char>) -> Result<(), ConnectError> {
        if !self.accounts.contains_key(account_id) {
            Err(ConnectError::Transient)
        } else if self.accounts[account_id].full() {
            Err(ConnectError::Admission)
        } else {
            Ok(())
        }
    }

    /// The registry after a connect command. A refused connect changes
    /// nothing.
    pub open spec fn connected(
        self,
        account_id: Seq<char>,
        device_id: Seq<char>,
        device_type_id: Seq<char>,
        handle: H,
    ) -> Self {
        if self.connect_result(account_id) is Ok {
            HubView {
                sessions: self.sessions.insert(device_id, handle),
                accounts: self.accounts.insert(
                    account_id,
                    self.accounts[account_id].with_device(device_id, device_type_id),
                ),
                ..self
            }
        } else {
            self
        }
    }

    /// The registry after a disconnect command. Subscriptions stay.
    pub open spec fn disconnected(self, account_id: Seq<char>, device_id: Seq<char>) -> Self {
        HubView {
            sessions: self.sessions.remove(device_id),
            accounts: if self.accounts.contains_key(account_id) {
                self.accounts.insert(account_id, self.accounts[account_id].without_device(device_id))
            } else {
                self.accounts
            },
            ..self
        }
    }
}

/// Whether the store granted one of the first `upto` topics and that topic
/// is `topic`. An answer that is missing counts as a refusal.
pub open spec fn granted(topics: Seq<Seq<char>>, permitted: Seq<bool>, upto: int, topic: Seq<char>) -> bool {
    exists|i: int|
        0 <= i < upto && i < topics.len() && i < permitted.len() && permitted[i] && (#[trigger] topics[i])
            == topic
}

/// The allow-lists that the first `upto` rows of the store spell out:
/// tenant to the topics it may use.
pub open spec fn relation_rows(rows: Seq<TopicRelation>, upto: int) -> Map<Seq<char>, Set<Seq<char>>> {
    Map::new(
        |a: Seq<char>| exists|i: int| 0 <= i < upto && i < rows.len() && (#[trigger] rows[i]).account_id@ == a,
        |a: Seq<char>|
            Set::new(
                |t: Seq<char>|
                    exists|i: int|
                        0 <= i < upto && i < rows.len() && (#[trigger] rows[i]).account_id@ == a
                            && rows[i].id@ == t,
            ),
    )
}

/// The allow-lists that the store's rows spell out.
pub open spec fn allow_lists(rows: Seq<TopicRelation>) -> Map<Seq<char>, Set<Seq<char>>> {
    relation_rows(rows, rows.len() as int)
}

/// The ids of a list of devices, in the order of the list.
pub open spec fn device_ids(list: Seq<Device>) -> Seq<Seq<char>> {
    list.map_values(|d: Device| d.id())
}

/// A list of devices is a listing of an account's devices when it names
/// each of them once, with its type.
pub open spec fn lists_devices(list: Seq<Device>, devices: Map<Seq<char>, Seq<char>>) -> bool {
    &&& device_ids(list).no_duplicates()
    &&& device_ids(list).to_set() == devices.dom()
    &&& forall|i: int| 0 <= i < list.len() ==> devices[(#[trigger] list[i]).id()] == list[i].type_id()
}

/// Where an event goes.
pub struct Delivery {
    /// The device ids of the sessions that get the envelope, each once.
    pub recipients: Vec<String>,
    /// Whether the command is handed on to the webhook publisher.
    pub to_webhooks: bool,
}

impl<H> HubView<H> {
    /// Whether the tenant may use the topic.
    pub open spec fn allows(self, account_id: Seq<char>, topic: Seq<char>) -> bool {
        holds(self.topic_relations, account_id, topic)
    }

    /// Whether the device is one of the tenant's live devices.
    pub open spec fn belongs_to(self, device: Seq<char>, account_id: Seq<char>) -> bool {
        self.accounts.contains_key(account_id) && self.accounts[account_id].devices.contains_key(device)
    }

    /// Tenants are kept apart when every subscription of a live device is
    /// to a topic that no tenant but the device's own may use.
    pub open spec fn keeps_tenants_apart(self) -> bool {
        forall|topic: Seq<char>, device: Seq<char>, user: Seq<char>, owner: Seq<char>|
            #![trigger holds(self.topics, topic, device), self.allows(user, topic), self.belongs_to(device, owner)]
            holds(self.topics, topic, device) && self.allows(user, topic) && self.belongs_to(device, owner)
                ==> user == owner
    }

    /// Whether one of the first `upto` topics of an event brings it to
    /// `device`: the tenant may use the topic and the device is subscribed
    /// to it.
    pub open spec fn reached(
        self,
        account_id: Seq<char>,
        topics: Seq<Seq<char>>,
        upto: int,
        device: Seq<char>,
    ) -> bool {
        exists|i: int|
            0 <= i < upto && i < topics.len() && self.allows(account_id, #[trigger] topics[i]) && holds(
                self.topics,
                topics[i],
                device,
            )
    }

    /// Whether `device` gets an event: it has a session, it is not the
    /// publisher, and one of the event's topics brings the event to it.
    pub open spec fn receives(
        self,
        sender: Option<Seq<char>>,
        account_id: Seq<char>,
        topics: Seq<Seq<char>>,
        device: Seq<char>,
    ) -> bool {
        &&& self.sessions.contains_key(device)
        &&& sender != Some(device)
        &&& self.reached(account_id, topics, topics.len() as int, device)
    }

    /// The devices that get an event.
    pub open spec fn recipients(
        self,
        sender: Option<Seq<char>>,
        account_id: Seq<char>,
        topics: Seq<Seq<char>>,
    ) -> Set<Seq<char>> {
        Set::new(|device: Seq<char>| self.receives(sender, account_id, topics, device))
    }

    /// The registry after a device asked for the first `upto` of `topics`.
    pub open spec fn registered_upto(
        self,
        device_id: Seq<char>,
        topics: Seq<Seq<char>>,
        permitted: Seq<bool>,
        upto: int,
    ) -> Self {
        HubView {
            topics: Map::new(
                |t: Seq<char>| self.topics.contains_key(t) || granted(topics, permitted, upto, t),
                |t: Seq<char>|
                    if granted(topics, permitted, upto, t) {
                        members_of(self.topics, t).insert(device_id)
                    } else {
                        self.topics[t]
                    },
            ),
            ..self
        }
    }

    /// The registry after a register command: the device is subscribed to
    /// each topic that the store granted, and to no other.
    pub open spec fn registered(
        self,
        device_id: Seq<char>,
        topics: Seq<Seq<char>>,
        permitted: Seq<bool>,
    ) -> Self {
        self.registered_upto(device_id, topics, permitted, topics.len() as int)
    }

    /// The registry after a refresh of the allow-lists. What the store
    /// spelled out replaces what was there; a failed load changes nothing.
    pub open spec fn refreshed(self, loaded: Option<Seq<TopicRelation>>) -> Self {
        match loaded {
            Some(rows) => HubView { topic_relations: allow_lists(rows), ..self },
            None => self,
        }
    }
}

/// The hub. `H` is the handle by which a session is reached.
pub struct Publisher<H> {
    sessions: StringMap<H>,
    topics: StringIndex,
    topic_relations: StringIndex,
    accounts: StringMap<Account>,
}

impl<H> View for Publisher<H> {
    type V = HubView<H>;

    closed spec fn view(&self) -> HubView<H> {
        HubView {
            sessions: self.sessions@,
            topics: self.topics@,
            topic_relations: self.topic_relations@,
            accounts: self.accounts@.map_values(|account: Account| account@),
        }
    }
}

impl<H> Publisher<H> {
    #[verifier::type_invariant]
    spec fn capped(self) -> bool {
        forall|a: Seq<char>| #[trigger] self.accounts@.contains_key(a) ==> self.accounts@[a]@.within_cap()
    }

    /// What the hub keeps true of its accounts holds of its view.
    proof fn lemma_capped(self)
        requires
            self.capped(),
        ensures
            self@.within_caps(),
    {
        assert forall|a: Seq<char>| #[trigger] self@.accounts.contains_key(a) implies self@.accounts[a].within_cap() by {
            assert(self.accounts@.contains_key(a));
        }
    }

    /// A hub with no session, no subscription, no allow-list and no
    /// account.
    pub fn initialize() -> (hub: Self)
        ensures
            hub@ == HubView::<H>::empty(),
    {
        let hub = Publisher {
            sessions: StringMap::new(),
            topics: StringIndex::new(),
            topic_relations: StringIndex::new(),
            accounts: StringMap::new(),
        };
        proof {
            assert(hub@.accounts =~= Map::empty());
        }
        hub
    }

    /// Whether the tenant's account is cached. A connect for a tenant that
    /// is not needs the store's answer first.
    pub fn knows_account(&self, account_id: &String) -> (known: bool)
        ensures
            known == self@.accounts.contains_key(account_id@),
            self@.within_caps(),
    {
        proof {
            use_type_invariant(self);
            self.lemma_capped();
        }
        self.accounts.contains_key(account_id)
    }

    /// Caches what the store says of a tenant that the hub has not seen.
    pub fn load_account(&mut self, account_id: String, max_connections: usize)
        ensures
            final(self)@ == old(self)@.with_account(account_id@, max_connections as nat),
            final(self)@.within_caps(),
    {
        proof {
            use_type_invariant(&*self);
        }
        if self.accounts.contains_key(&account_id) {
            proof {
                self.lemma_capped();
            }
            return ;
        }
        let account = Account { devices: StringMap::new(), max_connections };
        let mut accounts: StringMap<Account> = StringMap::new();
        std::mem::swap(&mut accounts, &mut self.accounts);
        let ghost before = accounts@;
        accounts.insert(account_id, account);
        proof {
            let f = |account: Account| account@;
            assert(account@.devices =~= Map::empty());
            assert(accounts@.map_values(f) =~= before.map_values(f).insert(account_id@, account@));
            assert(account@.devices.dom() =~= Set::empty());
        }
        self.accounts = accounts;
        proof {
            use_type_invariant(&*self);
            self.lemma_capped();
        }
    }

    /// The handle of a device's session, if the device has one.
    pub fn session(&self, device_id: &String) -> (handle: Option<&H>)
        ensures
            match handle {
                Some(h) => self@.sessions.contains_key(device_id@) && *h == self@.sessions[device_id@],
                None => !self@.sessions.contains_key(device_id@),
            },
    {
        self.sessions.get(device_id)
    }

    /// Admits a session, or refuses it: with `Transient` when the tenant's
    /// account is not cached, with `Admission` when the tenant is at its
    /// cap. An admitted device joins its tenant's devices and its handle
    /// replaces any earlier one under the same device id.
    pub fn connect(&mut self, msg: Connect<H>) -> (result: Result<(), ConnectError>)
        ensures
            result == old(self)@.connect_result(msg.account_id@),
            final(self)@ == old(self)@.connected(
                msg.account_id@,
                msg.device_id@,
                msg.device_type_id@,
                msg.addr,
            ),
            final(self)@.within_caps(),
    {
        proof {
            use_type_invariant(&*self);
        }
        let ghost f = |account: Account| account@;
        let ghost g = |type_id: String| type_id@;
        proof {
            self.lemma_capped();
        }
        match self.accounts.get(&msg.account_id) {
            None => {
                return Err(ConnectError::Transient);
            },
            Some(account) => {
                assert(account@.devices.dom() =~= account.devices@.dom());
                if account.devices.len() >= account.max_connections {
                    return Err(ConnectError::Admission);
                }
            },
        }
        let mut accounts: StringMap<Account> = StringMap::new();
        std::mem::swap(&mut accounts, &mut self.accounts);
        let ghost before = accounts@;
        let taken = accounts.remove(&msg.account_id);
        let mut account = taken.unwrap();
        let ghost joined = account@;
        if !account.devices.contains_key(&msg.device_id) {
            let ghost devices_before = account.devices@;
            account.devices.insert(msg.device_id.clone(), msg.device_type_id);
            proof {
                assert(account.devices@.map_values(g) =~= devices_before.map_values(g).insert(
                    msg.device_id@,
                    msg.device_type_id@,
                ));
                assert(joined.devices.dom() =~= devices_before.dom());
            }
        }
        proof {
            assert(account@ == joined.with_device(msg.device_id@, msg.device_type_id@));
            assert(account@.within_cap());
        }
        let ghost admitted = account@;
        accounts.insert(msg.account_id, account);
        proof {
            assert(accounts@.map_values(f) =~= before.map_values(f).insert(msg.account_id@, admitted));
        }
        self.accounts = accounts;
        let mut sessions: StringMap<H> = StringMap::new();
        std::mem::swap(&mut sessions, &mut self.sessions);
        sessions.insert(msg.device_id, msg.addr);
        self.sessions = sessions;
        proof {
            use_type_invariant(&*self);
            self.lemma_capped();
        }
        Ok(())
    }

    /// Forgets a session: the device leaves its tenant's devices and its
    /// handle is dropped. Tells whether the tenant's account was cached.
    pub fn disconnect(&mut self, msg: &Disconnect) -> (account_known: bool)
        ensures
            final(self)@ == old(self)@.disconnected(msg.account_id@, msg.device_id@),
            account_known == old(self)@.accounts.contains_key(msg.account_id@),
            final(self)@.within_caps(),
    {
        proof {
            use_type_invariant(&*self);
        }
        let ghost f = |account: Account| account@;
        let ghost g = |type_id: String| type_id@;
        let mut accounts: StringMap<Account> = StringMap::new();
        std::mem::swap(&mut accounts, &mut self.accounts);
        let ghost before = accounts@;
        let account_known = match accounts.remove(&msg.account_id) {
            None => {
                proof {
                    assert(accounts@ =~= before);
                }
                self.accounts = accounts;
                false
            },
            Some(account) => {
                let mut account = account;
                let ghost was = account@;
                let ghost devices_before = account.devices@;
                let _ = account.devices.remove(&msg.device_id);
                proof {
                    assert(account.devices@.map_values(g) =~= devices_before.map_values(g).remove(
                        msg.device_id@,
                    ));
                    assert(account@ == was.without_device(msg.device_id@));
                    assert(before.contains_key(msg.account_id@));
                    assert(was.within_cap());
                    assert(account@.within_cap());
                }
                let ghost left = account@;
                accounts.insert(msg.account_id.clone(), account);
                proof {
                    assert(accounts@.map_values(f) =~= before.map_values(f).insert(msg.account_id@, left));
                }
                self.accounts = accounts;
                true
            },
        };
        let mut sessions: StringMap<H> = StringMap::new();
        std::mem::swap(&mut sessions, &mut self.sessions);
        let _ = sessions.remove(&msg.device_id);
        self.sessions = sessions;
        proof {
            use_type_invariant(&*self);
            self.lemma_capped();
        }
        account_known
    }

    /// The device ids of all sessions, each once: those that a shutdown
    /// notice goes to. The registry stays as it is.
    pub fn shutdown(&self) -> (notified: Vec<String>)
        ensures
            lists(notified@, self@.sessions.dom()),
    {
        self.sessions.keys()
    }

    /// Subscribes a device to the topics it asks for. `permitted[i]` is
    /// the store's answer to whether the device's tenant may use
    /// `msg.topics[i]`; a topic without an answer, or with the answer no,
    /// is passed over.
    pub fn register_topics(&mut self, msg: &RegisterTopics, permitted: &Vec<bool>)
        ensures
            final(self)@ == old(self)@.registered(msg.device_id@, views_of(msg.topics@), permitted@),
            final(self)@.within_caps(),
    {
        proof {
            use_type_invariant(&*self);
        }
        let ghost start = self@;
        let ghost names = views_of(msg.topics@);
        let ghost device = msg.device_id@;
        let mut topics = StringIndex::new();
        std::mem::swap(&mut topics, &mut self.topics);
        assert(topics@ =~= start.registered_upto(device, names, permitted@, 0).topics);
        let mut i: usize = 0;
        while i < msg.topics.len()
            invariant
                i <= msg.topics.len(),
                names == views_of(msg.topics@),
                device == msg.device_id@,
                topics@ == start.registered_upto(device, names, permitted@, i as int).topics,
            decreases msg.topics.len() - i,
        {
            let ghost before = topics@;
            let ghost here = names[i as int];
            assert(here == msg.topics[i as int]@);
            if i < permitted.len() && permitted[i] {
                topics.add(&msg.topics[i], msg.device_id.clone());
                proof {
                    let next = start.registered_upto(device, names, permitted@, i + 1).topics;
                    assert forall|t: Seq<char>| granted(names, permitted@, i + 1, t) <==> (granted(
                        names,
                        permitted@,
                        i as int,
                        t,
                    ) || t == here) by {
                        if t == here {
                            assert(names[i as int] == t);
                        }
                    }
                    assert forall|t: Seq<char>| #[trigger] next.contains_key(t) implies topics@[t]
                        == next[t] by {
                        if t == here {
                            assert(members_of(before, t).insert(device) =~= members_of(
                                start.topics,
                                t,
                            ).insert(device));
                        }
                    }
                    assert(topics@ =~= next);
                }
            } else {
                proof {
                    let next = start.registered_upto(device, names, permitted@, i + 1).topics;
                    assert forall|t: Seq<char>| granted(names, permitted@, i + 1, t) <==> granted(
                        names,
                        permitted@,
                        i as int,
                        t,
                    ) by {}
                    assert(topics@ =~= next);
                }
            }
            i += 1;
        }
        self.topics = topics;
        proof {
            use_type_invariant(&*self);
            self.lemma_capped();
        }
    }

    /// Replaces the allow-lists by what the store spells out. `None`
    /// stands for a load that failed: the lists stay as they are.
    pub fn topic_relations_refresh(&mut self, loaded: Option<Vec<TopicRelation>>)
        ensures
            final(self)@ == old(self)@.refreshed(
                match loaded {
                    Some(rows) => Some(rows@),
                    None => None,
                },
            ),
            final(self)@.within_caps(),
    {
        proof {
            use_type_invariant(&*self);
            self.lemma_capped();
        }
        let rows = match loaded {
            Some(rows) => rows,
            None => {
                return ;
            },
        };
        let mut fresh = StringIndex::new();
        assert(fresh@ =~= relation_rows(rows@, 0));
        let mut i: usize = 0;
        while i < rows.len()
            invariant
                i <= rows.len(),
                fresh@ == relation_rows(rows@, i as int),
            decreases rows.len() - i,
        {
            let ghost before = fresh@;
            fresh.add(&rows[i].account_id, rows[i].id.clone());
            proof {
                let next = relation_rows(rows@, i + 1);
                let a_i = rows[i as int].account_id@;
                let t_i = rows[i as int].id@;
                assert forall|a: Seq<char>| #[trigger] next.contains_key(a) <==> (before.contains_key(a) || a
                    == a_i) by {
                    if a == a_i {
                        assert(rows[i as int].account_id@ == a);
                    }
                }
                assert forall|a: Seq<char>| #[trigger] next.contains_key(a) implies fresh@[a] =~= next[a] by {
                    assert forall|t: Seq<char>| next[a].contains(t) <==> (members_of(before, a).contains(t) || (a
                        == a_i && t == t_i)) by {
                        if a == a_i && t == t_i {
                            assert(rows[i as int].account_id@ == a && rows[i as int].id@ == t);
                        }
                    }
                }
                assert(fresh@ == with_member(before, a_i, t_i));
                assert(fresh@.dom() =~= next.dom());
                assert forall|a: Seq<char>| #[trigger] next.contains_key(a) implies fresh@[a] == next[a] by {}
                assert(fresh@ =~= next);
            }
            i += 1;
        }
        self.topic_relations = fresh;
        proof {
            use_type_invariant(&*self);
            self.lemma_capped();
        }
    }

    /// Routes an event. The envelope goes to every device that has a
    /// session, is subscribed to one of the event's topics that the
    /// publishing tenant may use, and is not the publisher itself. The
    /// command goes on to the webhook publisher when a device published
    /// it. The registry stays as it is.
    pub fn publish(&self, msg: &PublishMessage) -> (delivery: Delivery)
        ensures
            lists(
                delivery.recipients@,
                self@.recipients(
                    sender_device(msg.sender),
                    msg.account_id@,
                    views_of(msg.message.topics@),
                ),
            ),
            delivery.to_webhooks == (msg.sender is Device),
    {
        let ghost hub = self@;
        let ghost names = views_of(msg.message.topics@);
        let ghost sender = sender_device(msg.sender);
        let ghost account = msg.account_id@;
        let mut found = StringSet::new();
        let mut i: usize = 0;
        while i < msg.message.topics.len()
            invariant
                i <= msg.message.topics.len(),
                hub == self@,
                names == views_of(msg.message.topics@),
                sender == sender_device(msg.sender),
                account == msg.account_id@,
                forall|d: Seq<char>|
                    found@.contains(d) <==> (hub.sessions.contains_key(d) && sender != Some(d) && hub.reached(
                        account,
                        names,
                        i as int,
                        d,
                    )),
            decreases msg.message.topics.len() - i,
        {
            let topic = &msg.message.topics[i];
            let ghost here = names[i as int];
            assert(here == topic@);
            let ghost audience = if hub.allows(account, here) {
                members_of(hub.topics, here)
            } else {
                Set::<Seq<char>>::empty()
            };
            assert forall|d: Seq<char>| hub.reached(account, names, i + 1, d) <==> (hub.reached(
                account,
                names,
                i as int,
                d,
            ) || audience.contains(d)) by {
                if audience.contains(d) {
                    assert(hub.allows(account, names[i as int]) && holds(hub.topics, names[i as int], d));
                }
            }
            if self.topic_relations.contains(&msg.account_id, topic) {
                match self.topics.group(topic) {
                    Some(subscribers) => {
                        let list = subscribers.members();
                        let mut j: usize = 0;
                        while j < list.len()
                            invariant
                                j <= list.len(),
                                hub == self@,
                                sender == sender_device(msg.sender),
                                forall|d: Seq<char>|
                                    found@.contains(d) <==> (hub.sessions.contains_key(d) && sender != Some(d)
                                        && (hub.reached(account, names, i as int, d) || listed_before(
                                        list@,
                                        j as int,
                                        d,
                                    ))),
                            decreases list.len() - j,
                        {
                            let device = &list[j];
                            let is_sender = match &msg.sender {
                                Sender::Device { device_id, device_type_id } => *device_id == *device,
                                Sender::Address(_) => false,
                            };
                            let ghost seen = found@;
                            if !is_sender && self.sessions.contains_key(device) {
                                let _ = found.insert(device.clone());
                            }
                            proof {
                                assert forall|d: Seq<char>| listed_before(list@, j + 1, d) <==> (listed_before(
                                    list@,
                                    j as int,
                                    d,
                                ) || d == device@) by {
                                    if d == device@ {
                                        assert(list[j as int]@ == d);
                                    }
                                }
                            }
                            j += 1;
                        }
                        proof {
                            assert forall|d: Seq<char>| audience.contains(d) <==> listed_before(
                                list@,
                                list.len() as int,
                                d,
                            ) by {
                                lemma_listed(list@, subscribers@, d);
                            }
                        }
                    },
                    None => {},
                }
            }
            i += 1;
        }
        let to_webhooks = match &msg.sender {
            Sender::Device { device_id, device_type_id } => true,
            Sender::Address(_) => false,
        };
        let recipients = found.into_vec();
        proof {
            assert(found@ =~= hub.recipients(sender, account, names));
        }
        Delivery { recipients, to_webhooks }
    }

    /// The live devices of a tenant, each once, or `None` for a tenant
    /// whose account is not cached.
    pub fn account_activity(&self, msg: &GetAccountActivity) -> (devices: Option<Vec<Device>>)
        ensures
            match devices {
                Some(list) => self@.accounts.contains_key(msg.0@) && lists_devices(
                    list@,
                    self@.accounts[msg.0@].devices,
                ),
                None => !self@.accounts.contains_key(msg.0@),
            },
    {
        let account = match self.accounts.get(&msg.0) {
            Some(account) => account,
            None => {
                return None;
            },
        };
        let ghost devices = account@.devices;
        let ids = account.devices.keys();
        assert(devices.dom() =~= account.devices@.dom());
        let mut list: Vec<Device> = Vec::new();
        let mut i: usize = 0;
        while i < ids.len()
            invariant
                i <= ids.len(),
                list.len() == i,
                lists(ids@, account.devices@.dom()),
                devices == account@.devices,
                forall|k: int| 0 <= k < i ==> (#[trigger] list[k]).id() == ids[k]@,
                forall|k: int| 0 <= k < i ==> devices[(#[trigger] list[k]).id()] == list[k].type_id(),
            decreases ids.len() - i,
        {
            proof {
                let names = views_of(ids@);
                assert(names[i as int] == ids[i as int]@);
                assert(names.contains(ids[i as int]@));
            }
            match account.devices.get(&ids[i]) {
                Some(type_id) => {
                    list.push(Device::new(ids[i].clone(), type_id.clone()));
                },
                None => {},
            }
            i += 1;
        }
        proof {
            assert(device_ids(list@) =~= views_of(ids@));
        }
        Some(list)
    }
}

/// No echo: the device that publishes an event never gets it back,
/// whatever it is subscribed to.
pub proof fn lemma_no_echo<H>(
    hub: HubView<H>,
    publisher: Seq<char>,
    account_id: Seq<char>,
    topics: Seq<Seq<char>>,
)
    ensures
        !hub.recipients(Some(publisher), account_id, topics).contains(publisher),
{
}

/// Authorization gate: whoever gets an event is subscribed to one of its
/// topics that the publishing tenant may use. A subscription to a topic
/// that is not on the tenant's allow-list brings nothing.
pub proof fn lemma_recipient_is_authorized<H>(
    hub: HubView<H>,
    sender: Option<Seq<char>>,
    account_id: Seq<char>,
    topics: Seq<Seq<char>>,
    device: Seq<char>,
)
    requires
        hub.recipients(sender, account_id, topics).contains(device),
    ensures
        exists|i: int|
            0 <= i < topics.len() && hub.allows(account_id, #[trigger] topics[i]) && holds(
                hub.topics,
                topics[i],
                device,
            ),
{
}

/// Authorization gate: an event whose topics are all off the publishing
/// tenant's allow-list reaches nobody, however many devices registered
/// for them.
pub proof fn lemma_unauthorized_reaches_nobody<H>(
    hub: HubView<H>,
    sender: Option<Seq<char>>,
    account_id: Seq<char>,
    topics: Seq<Seq<char>>,
)
    requires
        forall|i: int| 0 <= i < topics.len() ==> !hub.allows(account_id, #[trigger] topics[i]),
    ensures
        hub.recipients(sender, account_id, topics) == Set::<Seq<char>>::empty(),
{
    assert(hub.recipients(sender, account_id, topics) =~= Set::<Seq<char>>::empty());
}

/// Idempotent registration: a register command that is repeated leaves the
/// registry as the first one left it. The subscribers of a topic are a
/// set, so a device stands among them once at most.
pub proof fn lemma_register_idempotent<H>(
    hub: HubView<H>,
    device_id: Seq<char>,
    topics: Seq<Seq<char>>,
    permitted: Seq<bool>,
)
    ensures
        hub.registered(device_id, topics, permitted).registered(device_id, topics, permitted)
            == hub.registered(device_id, topics, permitted),
{
    let once = hub.registered(device_id, topics, permitted);
    let twice = once.registered(device_id, topics, permitted);
    let n = topics.len() as int;
    assert forall|t: Seq<char>| #[trigger] once.topics.contains_key(t) implies twice.topics[t]
        == once.topics[t] by {
        if granted(topics, permitted, n, t) {
            assert(once.topics[t].insert(device_id) =~= once.topics[t]);
        }
    }
    assert(twice.topics =~= once.topics);
}

/// A granted topic has the device among its subscribers after a register
/// command, and the command takes no subscriber away.
pub proof fn lemma_register_subscribes<H>(
    hub: HubView<H>,
    device_id: Seq<char>,
    topics: Seq<Seq<char>>,
    permitted: Seq<bool>,
    topic: Seq<char>,
    device: Seq<char>,
)
    ensures
        holds(hub.registered(device_id, topics, permitted).topics, topic, device) <==> (holds(
            hub.topics,
            topic,
            device,
        ) || (device == device_id && granted(topics, permitted, topics.len() as int, topic))),
{
}

/// Connection cap: a tenant that has as many live devices as its cap
/// allows is refused the next connect, and the refusal leaves the
/// registry as it was: no session is made.
pub proof fn lemma_connection_cap<H>(
    hub: HubView<H>,
    account_id: Seq<char>,
    device_id: Seq<char>,
    device_type_id: Seq<char>,
    handle: H,
)
    requires
        hub.accounts.contains_key(account_id),
        hub.accounts[account_id].devices.dom().len() >= hub.accounts[account_id].max_connections,
    ensures
        hub.connect_result(account_id) == Err::<(), ConnectError>(ConnectError::Admission),
        hub.connected(account_id, device_id, device_type_id, handle) == hub,
{
}

/// Connection cap: whatever connects, no tenant ever holds more devices
/// than its cap allows.
pub proof fn lemma_connect_keeps_caps<H>(
    hub: HubView<H>,
    account_id: Seq<char>,
    device_id: Seq<char>,
    device_type_id: Seq<char>,
    handle: H,
)
    requires
        hub.within_caps(),
    ensures
        hub.connected(account_id, device_id, device_type_id, handle).within_caps(),
{
    let after = hub.connected(account_id, device_id, device_type_id, handle);
    assert forall|a: Seq<char>| #[trigger] after.accounts.contains_key(a) implies after.accounts[a].within_cap() by {
        assert(hub.accounts.contains_key(a));
    }
}

/// Disconnects and newly cached accounts keep every tenant within its
/// cap too.
pub proof fn lemma_disconnect_keeps_caps<H>(hub: HubView<H>, account_id: Seq<char>, device_id: Seq<char>)
    requires
        hub.within_caps(),
    ensures
        hub.disconnected(account_id, device_id).within_caps(),
{
    let after = hub.disconnected(account_id, device_id);
    assert forall|a: Seq<char>| #[trigger] after.accounts.contains_key(a) implies after.accounts[a].within_cap() by {
        assert(hub.accounts.contains_key(a));
    }
}

/// An event from outside the fleet goes to every live subscriber of its
/// authorized topics: with no publishing device, nobody is left out as
/// the publisher.
pub proof fn lemma_external_origin<H>(
    hub: HubView<H>,
    account_id: Seq<char>,
    topics: Seq<Seq<char>>,
    device: Seq<char>,
)
    ensures
        hub.recipients(None, account_id, topics).contains(device) <==> (hub.sessions.contains_key(device)
            && hub.reached(account_id, topics, topics.len() as int, device)),
{
}

/// Refresh: after a refresh a tenant may use a topic if and only if one
/// of the loaded rows says so. What was allowed before and is in no row
/// is allowed no longer.
pub proof fn lemma_refresh_decides<H>(
    hub: HubView<H>,
    rows: Seq<TopicRelation>,
    account_id: Seq<char>,
    topic: Seq<char>,
)
    ensures
        hub.refreshed(Some(rows)).allows(account_id, topic) <==> exists|i: int|
            0 <= i < rows.len() && (#[trigger] rows[i]).account_id@ == account_id && rows[i].id@ == topic,
{
    let after = hub.refreshed(Some(rows));
    if after.allows(account_id, topic) {
        let i = choose|i: int|
            0 <= i < rows.len() && i < rows.len() && (#[trigger] rows[i]).account_id@ == account_id
                && rows[i].id@ == topic;
        assert(rows[i].account_id@ == account_id && rows[i].id@ == topic);
    }
    if exists|i: int|
        0 <= i < rows.len() && (#[trigger] rows[i]).account_id@ == account_id && rows[i].id@ == topic {
        let i = choose|i: int|
            0 <= i < rows.len() && (#[trigger] rows[i]).account_id@ == account_id && rows[i].id@ == topic;
        assert(rows[i].account_id@ == account_id);
        assert(after.topic_relations.contains_key(account_id));
    }
}

/// Tenant isolation: in a registry that keeps tenants apart, an event
/// that one tenant publishes never goes to a device of another tenant,
/// whatever topics the event names and whatever the device is
/// subscribed to.
pub proof fn lemma_tenant_isolation<H>(
    hub: HubView<H>,
    sender: Option<Seq<char>>,
    publishing_account: Seq<char>,
    topics: Seq<Seq<char>>,
    device: Seq<char>,
    device_account: Seq<char>,
)
    requires
        hub.keeps_tenants_apart(),
        hub.belongs_to(device, device_account),
        device_account != publishing_account,
    ensures
        !hub.recipients(sender, publishing_account, topics).contains(device),
{
    if hub.recipients(sender, publishing_account, topics).contains(device) {
        let i = choose|i: int|
            0 <= i < topics.len() && i < topics.len() && hub.allows(publishing_account, #[trigger] topics[i])
                && holds(hub.topics, topics[i], device);
        assert(holds(hub.topics, topics[i], device) && hub.allows(publishing_account, topics[i])
            && hub.belongs_to(device, device_account));
    }
}

/// A hub that has seen no command keeps tenants apart.
pub proof fn lemma_empty_keeps_tenants_apart<H>()
    ensures
        HubView::<H>::empty().keeps_tenants_apart(),
{
}

/// A disconnect keeps tenants apart.
pub proof fn lemma_disconnect_keeps_tenants_apart<H>(
    hub: HubView<H>,
    account_id: Seq<char>,
    device_id: Seq<char>,
)
    requires
        hub.keeps_tenants_apart(),
    ensures
        hub.disconnected(account_id, device_id).keeps_tenants_apart(),
{
    let after = hub.disconnected(account_id, device_id);
    assert forall|topic: Seq<char>, device: Seq<char>, user: Seq<char>, owner: Seq<char>|
        #![trigger holds(after.topics, topic, device), after.allows(user, topic), after.belongs_to(device, owner)]
        holds(after.topics, topic, device) && after.allows(user, topic) && after.belongs_to(
            device,
            owner,
        ) implies user == owner by {
        assert(holds(hub.topics, topic, device) && hub.allows(user, topic) && hub.belongs_to(device, owner));
    }
}

/// A connect keeps tenants apart when the subscriptions that stand under
/// the device's id, left by an earlier session or made ahead of this
/// one, are to topics that no tenant but the device's own may use.
pub proof fn lemma_connect_keeps_tenants_apart<H>(
    hub: HubView<H>,
    account_id: Seq<char>,
    device_id: Seq<char>,
    device_type_id: Seq<char>,
    handle: H,
)
    requires
        hub.keeps_tenants_apart(),
        forall|topic: Seq<char>, user: Seq<char>|
            #![trigger holds(hub.topics, topic, device_id), hub.allows(user, topic)]
            holds(hub.topics, topic, device_id) && hub.allows(user, topic) ==> user == account_id,
    ensures
        hub.connected(account_id, device_id, device_type_id, handle).keeps_tenants_apart(),
{
    let after = hub.connected(account_id, device_id, device_type_id, handle);
    assert forall|topic: Seq<char>, device: Seq<char>, user: Seq<char>, owner: Seq<char>|
        #![trigger holds(after.topics, topic, device), after.allows(user, topic), after.belongs_to(device, owner)]
        holds(after.topics, topic, device) && after.allows(user, topic) && after.belongs_to(
            device,
            owner,
        ) implies user == owner by {
        if hub.belongs_to(device, owner) {
            assert(holds(hub.topics, topic, device) && hub.allows(user, topic) && hub.belongs_to(
                device,
                owner,
            ));
        } else {
            assert(device == device_id && owner == account_id);
            assert(holds(hub.topics, topic, device_id) && hub.allows(user, topic));
        }
    }
}

/// A register command keeps tenants apart when each topic that the store
/// granted is one that no tenant but the device's own may use.
pub proof fn lemma_register_keeps_tenants_apart<H>(
    hub: HubView<H>,
    device_id: Seq<char>,
    topics: Seq<Seq<char>>,
    permitted: Seq<bool>,
)
    requires
        hub.keeps_tenants_apart(),
        forall|topic: Seq<char>, user: Seq<char>, owner: Seq<char>|
            #![trigger granted(topics, permitted, topics.len() as int, topic), hub.allows(user, topic), hub.belongs_to(device_id, owner)]
            granted(topics, permitted, topics.len() as int, topic) && hub.allows(user, topic)
                && hub.belongs_to(device_id, owner) ==> user == owner,
    ensures
        hub.registered(device_id, topics, permitted).keeps_tenants_apart(),
{
    let after = hub.registered(device_id, topics, permitted);
    assert forall|topic: Seq<char>, device: Seq<char>, user: Seq<char>, owner: Seq<char>|
        #![trigger holds(after.topics, topic, device), after.allows(user, topic), after.belongs_to(device, owner)]
        holds(after.topics, topic, device) && after.allows(user, topic) && after.belongs_to(
            device,
            owner,
        ) implies user == owner by {
        if holds(hub.topics, topic, device) {
            assert(holds(hub.topics, topic, device) && hub.allows(user, topic) && hub.belongs_to(
                device,
                owner,
            ));
        } else {
            assert(device == device_id && granted(topics, permitted, topics.len() as int, topic));
            assert(granted(topics, permitted, topics.len() as int, topic) && hub.allows(user, topic)
                && hub.belongs_to(device_id, owner));
        }
    }
}

/// A refresh that allows nothing that was not allowed before keeps
/// tenants apart: taking a topic away from a tenant opens no way across.
pub proof fn lemma_narrowing_refresh_keeps_tenants_apart<H>(hub: HubView<H>, rows: Seq<TopicRelation>)
    requires
        hub.keeps_tenants_apart(),
        forall|user: Seq<char>, topic: Seq<char>|
            #![trigger hub.allows(user, topic)]
            hub.refreshed(Some(rows)).allows(user, topic) ==> hub.allows(user, topic),
    ensures
        hub.refreshed(Some(rows)).keeps_tenants_apart(),
{
    let after = hub.refreshed(Some(rows));
    assert forall|topic: Seq<char>, device: Seq<char>, user: Seq<char>, owner: Seq<char>|
        #![trigger holds(after.topics, topic, device), after.allows(user, topic), after.belongs_to(device, owner)]
        holds(after.topics, topic, device) && after.allows(user, topic) && after.belongs_to(
            device,
            owner,
        ) implies user == owner by {
        assert(hub.allows(user, topic));
        assert(holds(hub.topics, topic, device) && hub.allows(user, topic) && hub.belongs_to(device, owner));
    }
}

} // verus!
