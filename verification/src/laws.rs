use vstd::prelude::*;
use crate::cli::{command_for, coordinator_id_text, port_of, scan_args, CliCommand, ScanEnd};
use crate::coordinator::{
    announced, ask_route, default_entity_binary_path, info_of, is_local, is_shared, local_address, registered,
    registration_outcome, register_url, remote_ask_url, spawned, truncated_port, coordinator_url, AskRoute,
    CoordinatorState,
};
use crate::model::{error_message, CoordError, CoordinatorInfoView, RegistrationView};
use crate::status::http_status_text;
use crate::text::{decimal_spec, law_parse_decimal_round_trip};

verus! {

/// An entity whose process was just started is known locally but not yet available:
/// it is not local for routing (so not listed) until it registers its TCP port, and
/// the directory does not change.
pub proof fn law_spawned_entity_awaits_registration(s: CoordinatorState, id: Seq<char>)
    ensures
        spawned(s, id).entities.contains_key(id),
        !is_local(spawned(s, id), id),
        spawned(s, id).directory == s.directory,
        forall|content: Seq<char>|
            #![auto]
            ask_route(spawned(s, id), id, content) == ask_route(
                CoordinatorState { entities: s.entities.remove(id), ..s },
                id,
                content,
            ),
{
}

/// When a local entity registers a TCP port that is not 0 (after cutting to 16 bits),
/// it becomes available: it is local, messages to it go to that port on this host,
/// and the directory places it on this coordinator, so it is shared with peers.
pub proof fn law_self_registration_makes_entity_available(
    s: CoordinatorState,
    r: RegistrationView,
    content: Seq<char>,
)
    requires
        r.entity_id is Some,
        r.tcp_port is Some,
        s.entities.contains_key(r.entity_id->0),
        truncated_port(r.tcp_port->0) != 0,
    ensures
        ({
            let id = r.entity_id->0;
            let t = registered(s, r);
            &&& registration_outcome(s, r) is SelfRegistered
            &&& is_local(t, id)
            &&& t.directory[id] == info_of(s)
            &&& is_shared(t, id)
            &&& ask_route(t, id, content) == (AskRoute::Local {
                address: local_address(truncated_port(r.tcp_port->0)),
                payload: content + "\n"@,
            })
        }),
{
}

/// An entity that was started and then registered itself with a TCP port that is
/// not 0 is available locally, with the name and type that it gave.
pub proof fn law_spawn_then_register(
    s: CoordinatorState,
    id: Seq<char>,
    p: u64,
    name: Option<Seq<char>>,
    kind: Option<Seq<char>>,
)
    requires
        truncated_port(p) != 0,
    ensures
        ({
            let r = RegistrationView {
                entity_id: Some(id),
                tcp_port: Some(p),
                entity_name: name,
                entity_type: kind,
                coordinator: None,
            };
            let t = registered(spawned(s, id), r);
            &&& is_local(t, id)
            &&& t.entities[id].tcp_port == truncated_port(p)
            &&& t.entities[id].entity_name == name
            &&& t.entities[id].entity_type == kind
            &&& is_shared(t, id)
        }),
{
}

/// Applying the same registration request twice has the effect of applying it
/// once, and is answered the same way.
pub proof fn law_registration_is_idempotent(s: CoordinatorState, r: RegistrationView)
    ensures
        registered(registered(s, r), r) == registered(s, r),
        registration_outcome(registered(s, r), r) == registration_outcome(s, r),
{
    let t = registered(s, r);
    match r.entity_id {
        None => {},
        Some(id) => match r.tcp_port {
            Some(p) => {
                if s.entities.contains_key(id) {
                    let e = s.entities[id];
                    assert(announced(announced(e, p, r), p, r) == announced(e, p, r));
                    assert(info_of(t) == info_of(s));
                    assert(registered(t, r).entities =~= t.entities);
                    assert(registered(t, r).directory =~= t.directory);
                }
            },
            None => match r.coordinator {
                Some(c) => {
                    assert(registered(t, r).directory =~= t.directory);
                },
                None => {},
            },
        },
    }
}

/// A registration forgets nothing: the coordinator's identity, its program and its
/// peers stay; the set of local entities stays; no directory entry is dropped; and
/// only the entry of the registered id may change.
pub proof fn law_registration_forgets_nothing(s: CoordinatorState, r: RegistrationView)
    ensures
        ({
            let t = registered(s, r);
            &&& t.coordinator_id == s.coordinator_id
            &&& t.host == s.host
            &&& t.port == s.port
            &&& t.entity_binary_path == s.entity_binary_path
            &&& t.peers == s.peers
            &&& t.entities.dom() == s.entities.dom()
            &&& forall|k: Seq<char>| #[trigger]
                s.directory.contains_key(k) ==> t.directory.contains_key(k)
            &&& forall|k: Seq<char>|
                r.entity_id != Some(k) ==> #[trigger] t.entities.contains_key(k) ==> t.entities[k]
                    == s.entities[k]
            &&& forall|k: Seq<char>|
                r.entity_id != Some(k) ==> #[trigger] t.directory.contains_key(k) ==> t.directory[k]
                    == s.directory[k]
        }),
{
    let t = registered(s, r);
    match r.entity_id {
        Some(id) => {
            if r.tcp_port is Some && s.entities.contains_key(id) {
                assert(t.entities.dom() =~= s.entities.dom());
            }
        },
        None => {},
    }
}

/// Once another coordinator has registered one of its entities here, a message to
/// that entity (which is not a registered local one) is forwarded to that
/// coordinator's `ask_entity` URL.
pub proof fn law_remote_registration_routes_messages(
    s: CoordinatorState,
    id: Seq<char>,
    c: CoordinatorInfoView,
    content: Seq<char>,
)
    requires
        !is_local(s, id),
    ensures
        ({
            let r = RegistrationView {
                entity_id: Some(id),
                tcp_port: None,
                entity_name: None,
                entity_type: None,
                coordinator: Some(c),
            };
            &&& registration_outcome(s, r) is RemoteRegistered
            &&& ask_route(registered(s, r), id, content) == (AskRoute::Remote {
                url: remote_ask_url(c, id),
                body: content,
            })
        }),
{
}

/// An entity that registered itself on coordinator `c` can be reached from a peer
/// `p` that received `c`'s directory entry for it: `p` forwards messages to `c`'s
/// `ask_entity` URL for the entity, and `c` delivers them to the entity over TCP.
pub proof fn law_entity_reachable_across_coordinators(
    c: CoordinatorState,
    p: CoordinatorState,
    r: RegistrationView,
    content: Seq<char>,
)
    requires
        r.entity_id is Some,
        r.tcp_port is Some,
        c.entities.contains_key(r.entity_id->0),
        truncated_port(r.tcp_port->0) != 0,
        !is_local(p, r.entity_id->0),
    ensures
        ({
            let id = r.entity_id->0;
            let c2 = registered(c, r);
            let shared = RegistrationView {
                entity_id: Some(id),
                tcp_port: None,
                entity_name: None,
                entity_type: None,
                coordinator: Some(c2.directory[id]),
            };
            &&& is_shared(c2, id)
            &&& ask_route(registered(p, shared), id, content) == (AskRoute::Remote {
                url: "http://"@ + c.host + ":"@ + decimal_spec(c.port as nat) + "/ask_entity/"@ + id,
                body: content,
            })
            &&& ask_route(c2, id, content) is Local
        }),
{
}

/// A registered local entity is reached directly, whatever the directory says of it.
pub proof fn law_local_entities_are_reached_directly(
    s: CoordinatorState,
    id: Seq<char>,
    content: Seq<char>,
)
    requires
        is_local(s, id),
    ensures
        ask_route(s, id, content) == (AskRoute::Local {
            address: local_address(s.entities[id].tcp_port),
            payload: content + "\n"@,
        }),
{
}

/// The entities that the entity list shows (those with `is_local`) are exactly those
/// to which a message is delivered over TCP rather than forwarded or refused.
pub proof fn law_listed_entities_are_reached_locally(
    s: CoordinatorState,
    id: Seq<char>,
    content: Seq<char>,
)
    ensures
        is_local(s, id) <==> ask_route(s, id, content) is Local,
{
}

/// Two entities started with fresh, distinct ids are both kept, and the entity
/// table grows by two.
pub proof fn law_fresh_spawns_add_two_entities(s: CoordinatorState, a: Seq<char>, b: Seq<char>)
    requires
        s.entities.dom().finite(),
        !s.entities.contains_key(a),
        !s.entities.contains_key(b),
        a != b,
    ensures
        spawned(spawned(s, a), b).entities.contains_key(a),
        spawned(spawned(s, a), b).entities.contains_key(b),
        spawned(spawned(s, a), b).entities.len() == s.entities.len() + 2,
{
}

/// One call that changes a coordinator's state.
pub enum Step {
    /// The process of entity `id` was started (`spawn_entity` with a launch that worked).
    Spawn { id: Seq<char> },
    /// A peer coordinator was added.
    AddPeer { peer: CoordinatorInfoView },
    /// A registration request was handled.
    Register { request: RegistrationView },
}

/// The state after `step`, as the contracts of `spawn_entity`, `add_peer_coordinator`
/// and `register_entity` give it. Every other call leaves the state as it is.
pub open spec fn apply_step(s: CoordinatorState, step: Step) -> CoordinatorState {
    match step {
        Step::Spawn { id } => spawned(s, id),
        Step::AddPeer { peer } => CoordinatorState { peers: s.peers.push(peer), ..s },
        Step::Register { request } => registered(s, request),
    }
}

/// The state after the steps `steps`, in order.
pub open spec fn run_steps(s: CoordinatorState, steps: Seq<Step>) -> CoordinatorState
    decreases steps.len(),
{
    if steps.len() == 0 {
        s
    } else {
        apply_step(run_steps(s, steps.drop_last()), steps.last())
    }
}

/// The state of a coordinator just made with `new`.
pub open spec fn initial_state(coordinator_id: Seq<char>, host: Seq<char>, port: u16) -> CoordinatorState {
    CoordinatorState {
        coordinator_id,
        host,
        port,
        entity_binary_path: default_entity_binary_path(),
        entities: Map::empty(),
        directory: Map::empty(),
        peers: Seq::empty(),
    }
}

/// Every local entity that has registered its TCP port stands in the directory.
pub open spec fn local_entities_in_directory(s: CoordinatorState) -> bool {
    forall|id: Seq<char>| #[trigger] is_local(s, id) ==> s.directory.contains_key(id)
}

/// `step` is a self-registration of entity `id` (an id and a TCP port).
pub open spec fn registers_itself(step: Step, id: Seq<char>) -> bool {
    step matches Step::Register { request } && request.entity_id == Some(id) && request.tcp_port is Some
}

/// No step drops an entity or a directory entry.
pub proof fn law_steps_remove_no_key(s: CoordinatorState, steps: Seq<Step>)
    ensures
        forall|k: Seq<char>| #[trigger] s.entities.contains_key(k) ==> run_steps(s, steps).entities.contains_key(k),
        forall|k: Seq<char>| #[trigger] s.directory.contains_key(k) ==> run_steps(s, steps).directory.contains_key(k),
    decreases steps.len(),
{
    if steps.len() > 0 {
        law_steps_remove_no_key(s, steps.drop_last());
        let t = run_steps(s, steps.drop_last());
        match steps.last() {
            Step::Register { request } => {
                law_registration_forgets_nothing(t, request);
            },
            _ => {},
        }
    }
}

/// Every step keeps each registered local entity in the directory.
pub proof fn law_step_keeps_local_entities_in_directory(s: CoordinatorState, step: Step)
    requires
        local_entities_in_directory(s),
    ensures
        local_entities_in_directory(apply_step(s, step)),
{
    let t = apply_step(s, step);
    assert forall|id: Seq<char>| #[trigger] is_local(t, id) implies t.directory.contains_key(id) by {
        match step {
            Step::Spawn { id: x } => {
                if id != x {
                    assert(is_local(s, id));
                }
            },
            Step::AddPeer { peer } => {
                assert(is_local(s, id));
            },
            Step::Register { request } => {
                law_registration_forgets_nothing(s, request);
                if request.entity_id != Some(id) {
                    assert(is_local(s, id));
                }
            },
        }
    }
}

/// In every state that a coordinator reaches from `new`, each local entity that has
/// registered its TCP port stands in the directory, and no entity or directory entry
/// is ever dropped on the way.
pub proof fn law_reachable_states_keep_local_entities_in_directory(
    coordinator_id: Seq<char>,
    host: Seq<char>,
    port: u16,
    steps: Seq<Step>,
)
    ensures
        local_entities_in_directory(run_steps(initial_state(coordinator_id, host, port), steps)),
    decreases steps.len(),
{
    if steps.len() > 0 {
        law_reachable_states_keep_local_entities_in_directory(coordinator_id, host, port, steps.drop_last());
        law_step_keeps_local_entities_in_directory(
            run_steps(initial_state(coordinator_id, host, port), steps.drop_last()),
            steps.last(),
        );
    }
}

/// An entity that is not available stays unavailable, whatever other calls come,
/// until it registers itself with a TCP port. In particular, an entity that was just
/// started is not local until its own registration.
pub proof fn law_unregistered_entity_stays_unavailable(s: CoordinatorState, id: Seq<char>, steps: Seq<Step>)
    requires
        !is_local(s, id),
        forall|i: int| 0 <= i < steps.len() ==> !registers_itself(#[trigger] steps[i], id),
    ensures
        !is_local(run_steps(s, steps), id),
    decreases steps.len(),
{
    if steps.len() > 0 {
        let prefix = steps.drop_last();
        assert forall|i: int| 0 <= i < prefix.len() implies !registers_itself(#[trigger] prefix[i], id) by {
            assert(prefix[i] == steps[i]);
        }
        law_unregistered_entity_stays_unavailable(s, id, prefix);
        let t = run_steps(s, prefix);
        assert(!registers_itself(steps[steps.len() - 1], id));
        match steps.last() {
            Step::Register { request } => {
                law_registration_forgets_nothing(t, request);
            },
            _ => {},
        }
    }
}

/// A port announced in a self-registration that fits in 16 bits is kept exactly,
/// and messages to the entity then go to that port on this host, written in decimal.
pub proof fn law_registered_port_is_kept(
    s: CoordinatorState,
    id: Seq<char>,
    p: u64,
    name: Option<Seq<char>>,
    kind: Option<Seq<char>>,
    content: Seq<char>,
)
    requires
        s.entities.contains_key(id),
        p <= 65535,
    ensures
        ({
            let r = RegistrationView {
                entity_id: Some(id),
                tcp_port: Some(p),
                entity_name: name,
                entity_type: kind,
                coordinator: None,
            };
            let t = registered(s, r);
            &&& t.entities[id].tcp_port as u64 == p
            &&& t.entities[id].entity_id == s.entities[id].entity_id
            &&& 0 < p ==> ask_route(t, id, content) == (AskRoute::Local {
                address: "127.0.0.1:"@ + decimal_spec(p as nat),
                payload: content + "\n"@,
            })
        }),
{
    assert(p % 65536 == p);
}

/// A self-registration keeps the low 16 bits of the announced port, as a cast of the
/// number to `u16` does: ports that differ by a multiple of 65536 give the same.
pub proof fn law_registered_port_wraps(s: CoordinatorState, r: RegistrationView)
    requires
        r.entity_id is Some,
        r.tcp_port is Some,
        s.entities.contains_key(r.entity_id->0),
    ensures
        registered(s, r).entities[r.entity_id->0].tcp_port as int == r.tcp_port->0 as int % 65536,
{
}

/// Only entries that the directory places on this coordinator are shared with peers:
/// an entry naming another coordinator never is, and one naming this one always is.
pub proof fn law_only_own_entries_are_shared(s: CoordinatorState, id: Seq<char>)
    ensures
        is_shared(s, id) ==> s.directory.contains_key(id),
        s.directory.contains_key(id) ==> (is_shared(s, id) <==> s.directory[id].coordinator_id
            == s.coordinator_id),
{
}

/// A message forwarded for entity `id` is posted to the `ask_entity` URL of the
/// coordinator `info`: its host and decimal port, then the id.
pub proof fn law_remote_url_names_coordinator_and_entity(info: CoordinatorInfoView, id: Seq<char>)
    ensures
        remote_ask_url(info, id) == "http://"@ + info.host + ":"@ + decimal_spec(info.port as nat)
            + "/ask_entity/"@ + id,
{
}

/// The program started for each entity is the entity core built beside this project.
pub proof fn law_entity_program()
    ensures
        default_entity_binary_path() == "../entity-core/target/release/entity-core"@,
{
}

/// A coordinator serving on `port` is called `coordinator-` and the decimal port.
pub proof fn law_coordinator_id_names_the_port(port: u16)
    ensures
        coordinator_id_text(port) == "coordinator-"@ + decimal_spec(port as nat),
{
}

/// The texts of the errors: the unknown id in the two lookup errors, the HTTP
/// status line (code and reason) of a failed forward, the launch's own reason.
pub proof fn law_error_texts(id: String, status: u16, reason: String)
    ensures
        error_message(CoordError::NotFoundLocally { entity_id: id }) == "entity "@ + id@
            + " not found locally"@,
        error_message(CoordError::NotInDirectory { entity_id: id }) == "Entity "@ + id@
            + " not found in directory"@,
        100 <= status < 1000 ==> error_message(CoordError::RemoteRequestFailed { status })
            == "Remote coordinator request failed: "@ + http_status_text(status),
        error_message(CoordError::SpawnFailed { reason }) == reason@,
{
}

/// The TCP address of a local entity is `127.0.0.1:` followed by the decimal text of
/// its port, and that text reads back as the port.
pub proof fn law_local_address_names_the_port(p: u16)
    ensures
        local_address(p) == "127.0.0.1:"@ + decimal_spec(p as nat),
        local_address(p).subrange(0, 10) == "127.0.0.1:"@,
        port_of(local_address(p).subrange(10, local_address(p).len() as int)) == Some(p),
{
    law_parse_decimal_round_trip(p as nat, 65535);
    let a = local_address(p);
    assert(a.subrange(0, 10) =~= "127.0.0.1:"@) by {
        reveal_strlit("127.0.0.1:");
    }
    assert(a.subrange(10, a.len() as int) =~= decimal_spec(p as nat)) by {
        reveal_strlit("127.0.0.1:");
    }
}

/// A coordinator's own URL, which each entity it starts is given to register with,
/// names the coordinator's own host and port; and it is the address that peers post
/// registrations to when they share with this coordinator.
pub proof fn law_coordinator_url_names_itself(s: CoordinatorState)
    ensures
        coordinator_url(s) == "http://"@ + s.host + ":"@ + decimal_spec(s.port as nat),
        register_url(info_of(s)) == coordinator_url(s) + "/register_entity"@,
{
}

/// A directory share is posted to the peer's own host and port.
pub proof fn law_share_goes_to_the_peer(peer: CoordinatorInfoView)
    ensures
        register_url(peer) == "http://"@ + peer.host + ":"@ + decimal_spec(peer.port as nat)
            + "/register_entity"@,
{
}

/// A command line with at least the program name and a port argument always runs a
/// coordinator; one of the program name and a valid port `p` alone runs on `p` with no
/// peer, no entity count and no argument left unread.
pub proof fn law_port_alone_runs(cmd: CliCommand, args: Seq<Seq<char>>, p: u16)
    requires
        command_for(cmd, args),
    ensures
        args.len() >= 2 ==> !(cmd is Usage),
        args.len() < 2 ==> cmd is Usage,
        args.len() == 2 && args[1] == decimal_spec(p as nat) ==> (cmd matches CliCommand::Run(c)
            && c.port == p && c.peer_port is None && c.auto_spawn_count is None
            && c.unknown_args@.len() == 0),
{
    law_parse_decimal_round_trip(p as nat, 65535);
    if args.len() == 2 && args[1] == decimal_spec(p as nat) {
        if let CliCommand::Run(c) = cmd {
            assert(crate::model::texts(c.unknown_args@).len() == c.unknown_args@.len());
        }
    }
}

/// A port argument that is not a valid port gives the default port 9000.
pub proof fn law_invalid_port_defaults(cmd: CliCommand, args: Seq<Seq<char>>)
    requires
        command_for(cmd, args),
        args.len() >= 2,
        port_of(args[1]) is None,
    ensures
        cmd matches CliCommand::Run(c) ==> c.port == 9000,
{
}

/// `prog p q --entities n`, with a valid port `p`, a valid peer port `q` and a count
/// `n`, runs on `p` with peer `q` and `n` entities to start.
pub proof fn law_full_command_line(cmd: CliCommand, args: Seq<Seq<char>>, p: u16, q: u16, n: usize)
    requires
        command_for(cmd, args),
        args.len() == 5,
        args[1] == decimal_spec(p as nat),
        args[2] == decimal_spec(q as nat),
        args[3] == "--entities"@,
        args[4] == decimal_spec(n as nat),
    ensures
        cmd matches CliCommand::Run(c) && c.port == p && c.peer_port == Some(q)
            && c.auto_spawn_count == Some(n) && c.unknown_args@.len() == 0,
{
    law_parse_decimal_round_trip(p as nat, 65535);
    law_parse_decimal_round_trip(q as nat, 65535);
    law_parse_decimal_round_trip(n as nat, usize::MAX as nat);
    crate::text::law_decimal_text(q as nat);
    assert(args[2] != "--entities"@) by {
        reveal_strlit("--entities");
        assert(crate::text::is_digit(args[2][0]));
    }
    let s0 = Seq::<Seq<char>>::empty();
    assert(scan_args(args, 2, None, None, s0) == scan_args(args, 3, Some(q), None, s0));
    assert(scan_args(args, 3, Some(q), None, s0) == scan_args(args, 5, Some(q), Some(n), s0));
    assert(scan_args(args, 5, Some(q), Some(n), s0) == (ScanEnd::Done {
        peer_port: Some(q),
        auto_spawn_count: Some(n),
        unknown: s0,
    }));
    if let CliCommand::Run(c) = cmd {
        assert(crate::model::texts(c.unknown_args@).len() == c.unknown_args@.len());
    }
}

/// The decimal text of a port reads back as that port.
pub proof fn law_port_text_round_trip(p: u16)
    ensures
        port_of(decimal_spec(p as nat)) == Some(p),
{
    law_parse_decimal_round_trip(p as nat, 65535);
}

} // verus!
