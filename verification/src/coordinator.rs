use vstd::prelude::*;
use vstd::string::*;
use crate::ids::{is_v4_uuid_text, new_entity_id};
use crate::model::{
    copy_opt_text, opt_text, texts, AskPlan, CoordError, CoordinatorInfo, CoordinatorInfoView,
    EntityRegistration, EntityView, LocalExchange, ManagedEntity, RegistrationOutcome,
    RegistrationRequest, RegistrationView, RemoteExchange, SharePlan, SpawnCommand,
};
use crate::table::KeyedTable;
use crate::text::{decimal, decimal_spec, utf8_lossy, utf8_lossy_text};

verus! {

/// The state of a coordinator: who it is, the entities it started, where each known
/// entity lives, and its peers.
pub struct CoordinatorState {
    pub coordinator_id: Seq<char>,
    pub host: Seq<char>,
    pub port: u16,
    pub entity_binary_path: Seq<char>,
    pub entities: Map<Seq<char>, EntityView>,
    pub directory: Map<Seq<char>, CoordinatorInfoView>,
    pub peers: Seq<CoordinatorInfoView>,
}

/// The program started for each entity.
pub open spec fn default_entity_binary_path() -> Seq<char> {
    "../entity-core/target/release/entity-core"@
}

/// How a coordinator names itself to others.
pub open spec fn info_of(s: CoordinatorState) -> CoordinatorInfoView {
    CoordinatorInfoView { coordinator_id: s.coordinator_id, host: s.host, port: s.port }
}

/// `http://{host}:{port}`.
pub open spec fn http_base(host: Seq<char>, port: u16) -> Seq<char> {
    "http://"@ + host + ":"@ + decimal_spec(port as nat)
}

/// The URL of a coordinator's HTTP interface, which its entities register with.
pub open spec fn coordinator_url(s: CoordinatorState) -> Seq<char> {
    http_base(s.host, s.port)
}

/// The TCP address of a local entity that listens on `port`.
pub open spec fn local_address(port: u16) -> Seq<char> {
    "127.0.0.1:"@ + decimal_spec(port as nat)
}

/// Where a message to entity `id` is posted on the coordinator `info`.
pub open spec fn remote_ask_url(info: CoordinatorInfoView, id: Seq<char>) -> Seq<char> {
    http_base(info.host, info.port) + "/ask_entity/"@ + id
}

/// Where registrations are posted on the coordinator `peer`.
pub open spec fn register_url(peer: CoordinatorInfoView) -> Seq<char> {
    http_base(peer.host, peer.port) + "/register_entity"@
}

/// An entity whose process was started and which has not registered yet.
pub open spec fn pending_entity(id: Seq<char>) -> EntityView {
    EntityView { entity_id: id, entity_name: None, entity_type: None, tcp_port: 0 }
}

/// The state after the process of entity `id` was started.
pub open spec fn spawned(s: CoordinatorState, id: Seq<char>) -> CoordinatorState {
    CoordinatorState { entities: s.entities.insert(id, pending_entity(id)), ..s }
}

/// Entity `id` is local and has registered a TCP port: messages to it go over TCP.
pub open spec fn is_local(s: CoordinatorState, id: Seq<char>) -> bool {
    s.entities.contains_key(id) && s.entities[id].tcp_port > 0
}

/// The directory places entity `id` on this coordinator.
pub open spec fn is_shared(s: CoordinatorState, id: Seq<char>) -> bool {
    s.directory.contains_key(id) && s.directory[id].coordinator_id == s.coordinator_id
}

/// A port number given as `u64`, cut to its low 16 bits.
pub open spec fn truncated_port(p: u64) -> u16 {
    (p % 65536) as u16
}

/// Entity `e` after it announced TCP port `p` with the request `r`: a name or type
/// that the request holds replaces the old one.
pub open spec fn announced(e: EntityView, p: u64, r: RegistrationView) -> EntityView {
    EntityView {
        entity_id: e.entity_id,
        entity_name: if r.entity_name is Some { r.entity_name } else { e.entity_name },
        entity_type: if r.entity_type is Some { r.entity_type } else { e.entity_type },
        tcp_port: truncated_port(p),
    }
}

/// The state after the registration request `r`. With an entity id and a TCP port, a
/// local entity of that id takes the port (and the name and type, where given) and is
/// put in the directory under this coordinator; an unknown id changes nothing. With an
/// entity id, no TCP port and a coordinator, the directory places the entity there.
/// Anything else changes nothing.
pub open spec fn registered(s: CoordinatorState, r: RegistrationView) -> CoordinatorState {
    match r.entity_id {
        None => s,
        Some(id) => match r.tcp_port {
            Some(p) => if s.entities.contains_key(id) {
                CoordinatorState {
                    entities: s.entities.insert(id, announced(s.entities[id], p, r)),
                    directory: s.directory.insert(id, info_of(s)),
                    ..s
                }
            } else {
                s
            },
            None => match r.coordinator {
                Some(c) => CoordinatorState { directory: s.directory.insert(id, c), ..s },
                None => s,
            },
        },
    }
}

/// Which of the cases of `registered` a request falls in.
pub open spec fn registration_outcome(s: CoordinatorState, r: RegistrationView) -> RegistrationOutcome {
    match r.entity_id {
        None => RegistrationOutcome::Ignored,
        Some(id) => match r.tcp_port {
            Some(p) => if s.entities.contains_key(id) {
                RegistrationOutcome::SelfRegistered
            } else {
                RegistrationOutcome::Ignored
            },
            None => match r.coordinator {
                Some(c) => RegistrationOutcome::RemoteRegistered,
                None => RegistrationOutcome::Ignored,
            },
        },
    }
}

/// Where a message `content` to entity `id` goes.
pub enum AskRoute {
    /// Over TCP to a local entity: the address, and the line to send.
    Local { address: Seq<char>, payload: Seq<char> },
    /// Posted to the coordinator that holds the entity.
    Remote { url: Seq<char>, body: Seq<char> },
    /// Nowhere: the entity is neither local nor in the directory.
    Unknown,
}

/// The route of a message `content` to entity `id`: to the entity itself when it is
/// local and registered, else to the coordinator that the directory names for it.
pub open spec fn ask_route(s: CoordinatorState, id: Seq<char>, content: Seq<char>) -> AskRoute {
    if is_local(s, id) {
        AskRoute::Local {
            address: local_address(s.entities[id].tcp_port),
            payload: content + "\n"@,
        }
    } else if s.directory.contains_key(id) {
        AskRoute::Remote { url: remote_ask_url(s.directory[id], id), body: content }
    } else {
        AskRoute::Unknown
    }
}

/// The plan `r` follows the route `route` to entity `id`.
pub open spec fn plan_follows(r: Result<AskPlan, CoordError>, route: AskRoute, id: Seq<char>) -> bool {
    match route {
        AskRoute::Local { address, payload } => r matches Ok(AskPlan::Local(x)) && x.address@
            == address && x.payload@ == payload,
        AskRoute::Remote { url, body } => r matches Ok(AskPlan::Remote(x)) && x.url@ == url
            && x.body@ == body,
        AskRoute::Unknown => r matches Err(CoordError::NotInDirectory { entity_id }) && entity_id@
            == id,
    }
}

/// A coordinator of entity processes, which routes messages to its own entities and,
/// through the directory, to those of other coordinators.
pub struct NetworkedCoordinator {
    coordinator_id: String,
    host: String,
    port: u16,
    entities: KeyedTable<ManagedEntity>,
    entity_binary_path: String,
    entity_directory: KeyedTable<CoordinatorInfo>,
    peer_coordinators: Vec<CoordinatorInfo>,
}

impl View for NetworkedCoordinator {
    type V = CoordinatorState;

    closed spec fn view(&self) -> CoordinatorState {
        CoordinatorState {
            coordinator_id: self.coordinator_id@,
            host: self.host@,
            port: self.port,
            entity_binary_path: self.entity_binary_path@,
            entities: self.entities.map(),
            directory: self.entity_directory.map(),
            peers: self.peer_coordinators@.map_values(|p: CoordinatorInfo| p@),
        }
    }
}

impl NetworkedCoordinator {
    /// The tables hold each key once, and each entity is stored under its own id.
    pub closed spec fn wf(&self) -> bool {
        &&& self.entities.wf()
        &&& self.entity_directory.wf()
        &&& forall|k: Seq<char>| #[trigger] self.entities.map().contains_key(k)
            ==> self.entities.map()[k].entity_id == k
    }

    /// The entity table and the directory of a well-formed coordinator are finite.
    pub proof fn lemma_tables_finite(&self)
        requires
            self.wf(),
        ensures
            self@.entities.dom().finite(),
            self@.directory.dom().finite(),
    {
        self.entities.lemma_entry_seq();
        self.entity_directory.lemma_entry_seq();
    }

    /// A coordinator with no entities, an empty directory and no peers.
    pub fn new(coordinator_id: String, host: String, port: u16) -> (c: Self)
        ensures
            c.wf(),
            c@.coordinator_id == coordinator_id@,
            c@.host == host@,
            c@.port == port,
            c@.entity_binary_path == default_entity_binary_path(),
            c@.entities == Map::<Seq<char>, EntityView>::empty(),
            c@.directory == Map::<Seq<char>, CoordinatorInfoView>::empty(),
            c@.peers == Seq::<CoordinatorInfoView>::empty(),
    {
        let c = NetworkedCoordinator {
            coordinator_id,
            host,
            port,
            entities: KeyedTable::new(),
            entity_binary_path: String::from_str("../entity-core/target/release/entity-core"),
            entity_directory: KeyedTable::new(),
            peer_coordinators: Vec::new(),
        };
        assert(c@.peers =~= Seq::<CoordinatorInfoView>::empty());
        c
    }

    /// Adds `peer` to the known peer coordinators.
    pub fn add_peer_coordinator(&mut self, peer: CoordinatorInfo)
        requires
            old(self).wf(),
        ensures
            final(self).wf(),
            final(self)@ == (CoordinatorState { peers: old(self)@.peers.push(peer@), ..old(self)@ }),
    {
        self.peer_coordinators.push(peer);
        proof {
            assert(self@.peers =~= old(self)@.peers.push(peer@));
        }
    }

    /// This coordinator's id.
    pub fn coordinator_id(&self) -> (r: &String)
        ensures
            r@ == self@.coordinator_id,
    {
        &self.coordinator_id
    }

    /// The host this coordinator serves on.
    pub fn host(&self) -> (r: &String)
        ensures
            r@ == self@.host,
    {
        &self.host
    }

    /// The port this coordinator serves on.
    pub fn port(&self) -> (r: u16)
        ensures
            r == self@.port,
    {
        self.port
    }

    /// The program started for each entity.
    pub fn entity_binary_path(&self) -> (r: &String)
        ensures
            r@ == self@.entity_binary_path,
    {
        &self.entity_binary_path
    }

    /// The known peer coordinators, in the order they were added.
    pub fn peer_coordinators(&self) -> (r: &Vec<CoordinatorInfo>)
        ensures
            r@.map_values(|p: CoordinatorInfo| p@) == self@.peers,
    {
        &self.peer_coordinators
    }

    /// How this coordinator names itself to others.
    pub fn self_info(&self) -> (r: CoordinatorInfo)
        ensures
            r@ == info_of(self@),
    {
        CoordinatorInfo {
            coordinator_id: self.coordinator_id.clone(),
            host: self.host.clone(),
            port: self.port,
        }
    }

    /// The URL of this coordinator's HTTP interface, `http://{host}:{port}`.
    pub fn coordinator_url(&self) -> (r: String)
        ensures
            r@ == coordinator_url(self@),
    {
        http_base_text(&self.host, self.port)
    }

    /// How to start the process of a new entity: a fresh random id, and the program
    /// with the id and this coordinator's URL as its arguments.
    pub fn prepare_spawn(&self) -> (cmd: SpawnCommand)
        ensures
            is_v4_uuid_text(cmd.entity_id@),
            cmd.program@ == self@.entity_binary_path,
            cmd.args@.len() == 2,
            cmd.args@[0]@ == cmd.entity_id@,
            cmd.args@[1]@ == coordinator_url(self@),
    {
        let entity_id = new_entity_id();
        let mut args: Vec<String> = Vec::new();
        args.push(entity_id.clone());
        args.push(self.coordinator_url());
        SpawnCommand { entity_id, program: self.entity_binary_path.clone(), args }
    }

    /// Records the outcome of starting the process of entity `entity_id`. When it
    /// started, the entity is kept with TCP port 0 until it registers, and its id is
    /// returned; an entity of that id already kept is replaced. When it did not start,
    /// nothing changes and the reason is returned.
    pub fn spawn_entity(&mut self, entity_id: String, launch: Result<(), String>) -> (r: Result<String, CoordError>)
        requires
            old(self).wf(),
        ensures
            final(self).wf(),
            match launch {
                Ok(()) => {
                    &&& r matches Ok(id) && id@ == entity_id@
                    &&& final(self)@ == spawned(old(self)@, entity_id@)
                },
                Err(reason) => {
                    &&& r matches Err(CoordError::SpawnFailed { reason: e }) && e@ == reason@
                    &&& final(self)@ == old(self)@
                },
            },
    {
        match launch {
            Ok(()) => {
                let entity = ManagedEntity {
                    entity_id: entity_id.clone(),
                    entity_name: None,
                    entity_type: None,
                    tcp_port: 0,
                };
                self.entities.insert(entity_id.clone(), entity);
                Ok(entity_id)
            },
            Err(reason) => Err(CoordError::SpawnFailed { reason }),
        }
    }

    /// Whether entity `entity_id` is local and has registered its TCP port.
    pub fn is_entity_local(&self, entity_id: &String) -> (r: bool)
        requires
            self.wf(),
        ensures
            r == is_local(self@, entity_id@),
    {
        match self.entities.get(entity_id) {
            Some(e) => e.tcp_port > 0,
            None => false,
        }
    }

    /// The ids of the local entities that have registered their TCP port, each once.
    pub fn get_entity_list(&self) -> (ids: Vec<String>)
        requires
            self.wf(),
        ensures
            texts(ids@).no_duplicates(),
            forall|id: Seq<char>| #[trigger] texts(ids@).contains(id)
                <==> is_local(self@, id),
    {
        let ghost es = self.entities.entry_seq();
        proof {
            self.entities.lemma_entry_seq();
        }
        let mut ids: Vec<String> = Vec::new();
        let ghost mut from: Seq<int> = Seq::empty();
        let n = self.entities.len();
        let mut i: usize = 0;
        while i < n
            invariant
                n == es.len(),
                i <= n,
                es == self.entities.entry_seq(),
                from.len() == ids@.len(),
                forall|j: int|
                    0 <= j < from.len() ==> 0 <= #[trigger] from[j] < i && es[from[j]].0
                        == ids@[j]@ && es[from[j]].1.tcp_port > 0,
                forall|j: int, k: int| 0 <= j < k < from.len() ==> from[j] < from[k],
                forall|m: int|
                    0 <= m < i && #[trigger] es[m].1.tcp_port > 0 ==> exists|j: int|
                        0 <= j < from.len() && from[j] == m,
            decreases n - i,
        {
            let (id, e) = self.entities.entry_at(i);
            let ghost old_from = from;
            if e.tcp_port > 0 {
                ids.push(id.clone());
                proof {
                    from = from.push(i as int);
                }
            }
            proof {
                assert forall|m: int|
                    0 <= m < i + 1 && #[trigger] es[m].1.tcp_port > 0 implies exists|j: int|
                        0 <= j < from.len() && from[j] == m by {
                    if m < i {
                        let j = choose|j: int| 0 <= j < old_from.len() && old_from[j] == m;
                        assert(from[j] == m);
                    } else {
                        assert(from[from.len() - 1] == m);
                    }
                }
            }
            i = i + 1;
        }
        proof {
            let vs = texts(ids@);
            assert forall|j: int, k: int| 0 <= j < vs.len() && 0 <= k < vs.len() && j != k implies vs[j]
                != vs[k] by {
                assert(from[j] != from[k]);
                assert(es[from[j]].0 == vs[j]);
                assert(es[from[k]].0 == vs[k]);
            }
            assert forall|id: Seq<char>| vs.contains(id) implies is_local(self@, id) by {
                let j = choose|j: int| 0 <= j < vs.len() && vs[j] == id;
                assert(es[from[j]].0 == id);
            }
            assert forall|id: Seq<char>| is_local(self@, id) implies vs.contains(id) by {
                let m = choose|m: int| 0 <= m < es.len() && #[trigger] es[m].0 == id;
                assert(es[m].1.tcp_port > 0);
                let j = choose|j: int| 0 <= j < from.len() && from[j] == m;
                assert(vs[j] == id);
            }
        }
        ids
    }

    /// The message exchange with local entity `target_entity_id`: its TCP address and
    /// the message followed by a line break. An id that no local entity has is refused.
    pub fn local_message(&self, target_entity_id: &String, message: &String) -> (r: Result<LocalExchange, CoordError>)
        requires
            self.wf(),
        ensures
            match r {
                Ok(x) => {
                    &&& self@.entities.contains_key(target_entity_id@)
                    &&& x.address@ == local_address(self@.entities[target_entity_id@].tcp_port)
                    &&& x.payload@ == message@ + "\n"@
                },
                Err(e) => {
                    &&& !self@.entities.contains_key(target_entity_id@)
                    &&& e matches CoordError::NotFoundLocally { entity_id } && entity_id@
                        == target_entity_id@
                },
            },
    {
        match self.entities.get(target_entity_id) {
            Some(e) => {
                let mut address = String::from_str("127.0.0.1:");
                let p = decimal(e.tcp_port as u64);
                address.append(p.as_str());
                let mut payload = message.clone();
                payload.append("\n");
                Ok(LocalExchange { address, payload })
            },
            None => Err(CoordError::NotFoundLocally { entity_id: target_entity_id.clone() }),
        }
    }

    /// The request that forwards `message` for entity `target_entity_id` to the
    /// coordinator that the directory names for it. An id that the directory does not
    /// hold is refused.
    pub fn remote_message(&self, target_entity_id: &String, message: String) -> (r: Result<RemoteExchange, CoordError>)
        requires
            self.wf(),
        ensures
            match r {
                Ok(x) => {
                    &&& self@.directory.contains_key(target_entity_id@)
                    &&& x.url@ == remote_ask_url(self@.directory[target_entity_id@], target_entity_id@)
                    &&& x.body@ == message@
                },
                Err(e) => {
                    &&& !self@.directory.contains_key(target_entity_id@)
                    &&& e matches CoordError::NotInDirectory { entity_id } && entity_id@
                        == target_entity_id@
                },
            },
    {
        match self.entity_directory.get(target_entity_id) {
            Some(info) => {
                let mut url = http_base_text(&info.host, info.port);
                url.append("/ask_entity/");
                url.append(target_entity_id.as_str());
                Ok(RemoteExchange { url, body: message })
            },
            None => Err(CoordError::NotInDirectory { entity_id: target_entity_id.clone() }),
        }
    }

    /// Where the message `content` to entity `target_entity_id` goes: to the entity
    /// when it is local and registered, else to its coordinator, else nowhere.
    pub fn route_ask(&self, target_entity_id: &String, content: String) -> (r: Result<AskPlan, CoordError>)
        requires
            self.wf(),
        ensures
            plan_follows(r, ask_route(self@, target_entity_id@, content@), target_entity_id@),
    {
        if self.is_entity_local(target_entity_id) {
            match self.local_message(target_entity_id, &content) {
                Ok(x) => Ok(AskPlan::Local(x)),
                Err(e) => Err(e),
            }
        } else {
            match self.remote_message(target_entity_id, content) {
                Ok(x) => Ok(AskPlan::Remote(x)),
                Err(e) => Err(e),
            }
        }
    }

    /// Where a message to entity `target_entity_id` that arrived as the bytes `body`
    /// goes: the body is decoded as UTF-8, invalid sequences replaced, then routed.
    pub fn plan_ask(&self, target_entity_id: &String, body: &[u8]) -> (r: Result<AskPlan, CoordError>)
        requires
            self.wf(),
        ensures
            plan_follows(r, ask_route(self@, target_entity_id@, utf8_lossy_text(body@)), target_entity_id@),
            vstd::utf8::valid_utf8(body@) ==> plan_follows(
                r,
                ask_route(self@, target_entity_id@, vstd::utf8::decode_utf8(body@)),
                target_entity_id@,
            ),
    {
        let content = utf8_lossy(body);
        self.route_ask(target_entity_id, content)
    }

    /// The registrations of the entities that the directory places on this
    /// coordinator, each once, and the URL of `peer` to post them to.
    pub fn share_entity_directory(&self, peer: &CoordinatorInfo) -> (plan: SharePlan)
        requires
            self.wf(),
        ensures
            plan.url@ == register_url(peer@),
            registration_ids(plan.registrations@).no_duplicates(),
            forall|j: int|
                0 <= j < plan.registrations@.len() ==> {
                    let reg = #[trigger] plan.registrations@[j];
                    &&& is_shared(self@, reg.entity_id@)
                    &&& reg.coordinator@ == self@.directory[reg.entity_id@]
                },
            forall|id: Seq<char>| #[trigger] is_shared(self@, id)
                ==> registration_ids(plan.registrations@).contains(id),
    {
        let ghost es = self.entity_directory.entry_seq();
        proof {
            self.entity_directory.lemma_entry_seq();
        }
        let mut regs: Vec<EntityRegistration> = Vec::new();
        let ghost mut from: Seq<int> = Seq::empty();
        let n = self.entity_directory.len();
        let mut i: usize = 0;
        while i < n
            invariant
                n == es.len(),
                i <= n,
                es == self.entity_directory.entry_seq(),
                from.len() == regs@.len(),
                forall|j: int|
                    0 <= j < from.len() ==> {
                        &&& 0 <= #[trigger] from[j] < i
                        &&& es[from[j]].0 == regs@[j].entity_id@
                        &&& es[from[j]].1 == regs@[j].coordinator@
                        &&& es[from[j]].1.coordinator_id == self@.coordinator_id
                    },
                forall|j: int, k: int| 0 <= j < k < from.len() ==> from[j] < from[k],
                forall|m: int|
                    0 <= m < i && #[trigger] es[m].1.coordinator_id == self@.coordinator_id
                        ==> exists|j: int| 0 <= j < from.len() && from[j] == m,
            decreases n - i,
        {
            let (id, info) = self.entity_directory.entry_at(i);
            let ghost old_from = from;
            if info.coordinator_id == self.coordinator_id {
                regs.push(EntityRegistration { entity_id: id.clone(), coordinator: info.duplicate() });
                proof {
                    from = from.push(i as int);
                }
            }
            proof {
                assert forall|m: int|
                    0 <= m < i + 1 && #[trigger] es[m].1.coordinator_id == self@.coordinator_id
                        implies exists|j: int| 0 <= j < from.len() && from[j] == m by {
                    if m < i {
                        let j = choose|j: int| 0 <= j < old_from.len() && old_from[j] == m;
                        assert(from[j] == m);
                    } else {
                        assert(from[from.len() - 1] == m);
                    }
                }
            }
            i = i + 1;
        }
        proof {
            let ids = registration_ids(regs@);
            assert forall|j: int, k: int| 0 <= j < ids.len() && 0 <= k < ids.len() && j != k implies ids[j]
                != ids[k] by {
                assert(from[j] != from[k]);
                assert(es[from[j]].0 == ids[j]);
                assert(es[from[k]].0 == ids[k]);
            }
            assert forall|j: int| 0 <= j < regs@.len() implies {
                let reg = #[trigger] regs@[j];
                &&& is_shared(self@, reg.entity_id@)
                &&& reg.coordinator@ == self@.directory[reg.entity_id@]
            } by {
                assert(es[from[j]].0 == regs@[j].entity_id@);
            }
            assert forall|id: Seq<char>| #[trigger] is_shared(self@, id) implies ids.contains(id) by {
                let m = choose|m: int| 0 <= m < es.len() && #[trigger] es[m].0 == id;
                assert(es[m].1.coordinator_id == self@.coordinator_id);
                let j = choose|j: int| 0 <= j < from.len() && from[j] == m;
                assert(ids[j] == id);
            }
        }
        let url0 = http_base_text(&peer.host, peer.port);
        let mut url = url0;
        url.append("/register_entity");
        SharePlan { url, registrations: regs }
    }

    /// Applies a registration request: a local entity announcing its TCP port, or an
    /// entity of another coordinator being placed in the directory.
    pub fn register_entity(&mut self, request: RegistrationRequest) -> (outcome: RegistrationOutcome)
        requires
            old(self).wf(),
        ensures
            final(self).wf(),
            final(self)@ == registered(old(self)@, request@),
            outcome == registration_outcome(old(self)@, request@),
    {
        let ghost r = request@;
        let RegistrationRequest { entity_id, tcp_port, entity_name, entity_type, coordinator } = request;
        match entity_id {
            None => RegistrationOutcome::Ignored,
            Some(id) => match tcp_port {
                Some(p) => {
                    let updated = match self.entities.get(&id) {
                        Some(e) => {
                            let name = match entity_name {
                                Some(nm) => Some(nm),
                                None => copy_opt_text(&e.entity_name),
                            };
                            let kind = match entity_type {
                                Some(t) => Some(t),
                                None => copy_opt_text(&e.entity_type),
                            };
                            Some(ManagedEntity {
                                entity_id: e.entity_id.clone(),
                                entity_name: name,
                                entity_type: kind,
                                tcp_port: (p % 65536) as u16,
                            })
                        },
                        None => None,
                    };
                    match updated {
                        Some(entity) => {
                            self.entities.insert(id.clone(), entity);
                            let info = self.self_info();
                            self.entity_directory.insert(id, info);
                            RegistrationOutcome::SelfRegistered
                        },
                        None => RegistrationOutcome::Ignored,
                    }
                },
                None => match coordinator {
                    Some(c) => {
                        self.entity_directory.insert(id, c);
                        RegistrationOutcome::RemoteRegistered
                    },
                    None => RegistrationOutcome::Ignored,
                },
            },
        }
    }
}

/// Whether the status of a reply counts as success (200 to 299); any other status
/// fails the forwarded request.
pub fn remote_status_result(status: u16) -> (r: Result<(), CoordError>)
    ensures
        200 <= status < 300 <==> r is Ok,
        r matches Err(e) ==> e matches CoordError::RemoteRequestFailed { status: s } && s == status,
{
    if 200 <= status && status < 300 {
        Ok(())
    } else {
        Err(CoordError::RemoteRequestFailed { status })
    }
}

/// The entity ids of a sequence of registrations.
pub open spec fn registration_ids(regs: Seq<EntityRegistration>) -> Seq<Seq<char>> {
    regs.map_values(|r: EntityRegistration| r.entity_id@)
}

/// Builds `http://{host}:{port}`.
fn http_base_text(host: &String, port: u16) -> (r: String)
    ensures
        r@ == http_base(host@, port),
{
    let mut r = String::from_str("http://");
    r.append(host.as_str());
    r.append(":");
    let p = decimal(port as u64);
    r.append(p.as_str());
    r
}

} // verus!
