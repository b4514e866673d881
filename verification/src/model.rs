use vstd::prelude::*;
use vstd::string::*;
use crate::status::{http_status_text, status_text};
use crate::text::{decimal, decimal_spec};

verus! {

/// The text of an optional string.
pub open spec fn opt_text(o: Option<String>) -> Option<Seq<char>> {
    match o {
        Some(s) => Some(s@),
        None => None,
    }
}

/// The texts of a sequence of strings.
pub open spec fn texts(v: Seq<String>) -> Seq<Seq<char>> {
    v.map_values(|s: String| s@)
}

/// A copy of an optional string.
pub fn copy_opt_text(o: &Option<String>) -> (r: Option<String>)
    ensures
        opt_text(r) == opt_text(*o),
{
    match o {
        Some(s) => Some(s.clone()),
        None => None,
    }
}

/// Where a coordinator can be reached, and under which identity.
#[derive(Debug)]
pub struct CoordinatorInfo {
    pub coordinator_id: String,
    pub host: String,
    pub port: u16,
}

/// The value of a `CoordinatorInfo`.
pub struct CoordinatorInfoView {
    pub coordinator_id: Seq<char>,
    pub host: Seq<char>,
    pub port: u16,
}

impl View for CoordinatorInfo {
    type V = CoordinatorInfoView;

    open spec fn view(&self) -> CoordinatorInfoView {
        CoordinatorInfoView {
            coordinator_id: self.coordinator_id@,
            host: self.host@,
            port: self.port,
        }
    }
}

impl CoordinatorInfo {
    /// A copy of this record.
    pub fn duplicate(&self) -> (r: Self)
        ensures
            r@ == self@,
    {
        CoordinatorInfo {
            coordinator_id: self.coordinator_id.clone(),
            host: self.host.clone(),
            port: self.port,
        }
    }
}

/// An entity process that this coordinator started. Its TCP port stays 0 until the
/// entity has registered itself.
pub struct ManagedEntity {
    pub entity_id: String,
    pub entity_name: Option<String>,
    pub entity_type: Option<String>,
    pub tcp_port: u16,
}

/// The value of a `ManagedEntity`.
pub struct EntityView {
    pub entity_id: Seq<char>,
    pub entity_name: Option<Seq<char>>,
    pub entity_type: Option<Seq<char>>,
    pub tcp_port: u16,
}

impl View for ManagedEntity {
    type V = EntityView;

    open spec fn view(&self) -> EntityView {
        EntityView {
            entity_id: self.entity_id@,
            entity_name: opt_text(self.entity_name),
            entity_type: opt_text(self.entity_type),
            tcp_port: self.tcp_port,
        }
    }
}

/// A registration of one entity, as sent to a peer coordinator.
#[derive(Debug)]
pub struct EntityRegistration {
    pub entity_id: String,
    pub coordinator: CoordinatorInfo,
}

/// A registration request, as received: each field is present only where the
/// request held it with the right type.
pub struct RegistrationRequest {
    pub entity_id: Option<String>,
    pub tcp_port: Option<u64>,
    pub entity_name: Option<String>,
    pub entity_type: Option<String>,
    pub coordinator: Option<CoordinatorInfo>,
}

/// The value of a `RegistrationRequest`.
pub struct RegistrationView {
    pub entity_id: Option<Seq<char>>,
    pub tcp_port: Option<u64>,
    pub entity_name: Option<Seq<char>>,
    pub entity_type: Option<Seq<char>>,
    pub coordinator: Option<CoordinatorInfoView>,
}

impl View for RegistrationRequest {
    type V = RegistrationView;

    open spec fn view(&self) -> RegistrationView {
        RegistrationView {
            entity_id: opt_text(self.entity_id),
            tcp_port: self.tcp_port,
            entity_name: opt_text(self.entity_name),
            entity_type: opt_text(self.entity_type),
            coordinator: match self.coordinator {
                Some(c) => Some(c@),
                None => None,
            },
        }
    }
}

/// What a registration request did.
#[derive(Debug, Clone, Copy, PartialEq, Eq, Structural)]
pub enum RegistrationOutcome {
    /// A local entity announced its TCP port, and now stands in the directory.
    SelfRegistered,
    /// An entity of another coordinator was put in the directory.
    RemoteRegistered,
    /// The request changed nothing.
    Ignored,
}

/// Whether an entity message expects an answer.
#[derive(Debug, Clone, Copy, PartialEq, Eq, Structural)]
pub enum MessageType {
    /// Expects a response.
    Request,
    /// No response expected.
    Response,
}

/// A message between entities.
pub struct EntityMessage {
    pub id: String,
    pub from: String,
    pub to: String,
    pub content: String,
    pub message_type: MessageType,
    pub timestamp: u64,
}

/// Why a request could not be served.
#[derive(Debug)]
pub enum CoordError {
    /// No local entity has this id.
    NotFoundLocally { entity_id: String },
    /// The directory does not know where this entity lives.
    NotInDirectory { entity_id: String },
    /// The coordinator that holds the entity answered with a status other than success.
    RemoteRequestFailed { status: u16 },
    /// The entity process could not be started.
    SpawnFailed { reason: String },
}

/// The text of a reply status in an error message: what the HTTP crate prints for a
/// valid status code (100 to 999), the bare decimal code for any other.
pub open spec fn status_line(status: u16) -> Seq<char> {
    if 100 <= status < 1000 {
        http_status_text(status)
    } else {
        decimal_spec(status as nat)
    }
}

/// The text of an error, as it is reported.
pub open spec fn error_message(e: CoordError) -> Seq<char> {
    match e {
        CoordError::NotFoundLocally { entity_id } => "entity "@ + entity_id@ + " not found locally"@,
        CoordError::NotInDirectory { entity_id } => "Entity "@ + entity_id@ + " not found in directory"@,
        CoordError::RemoteRequestFailed { status } => "Remote coordinator request failed: "@
            + status_line(status),
        CoordError::SpawnFailed { reason } => reason@,
    }
}

impl CoordError {
    /// The text of this error.
    pub fn message(&self) -> (s: String)
        ensures
            s@ == error_message(*self),
    {
        match self {
            CoordError::NotFoundLocally { entity_id } => {
                let mut s = String::from_str("entity ");
                s.append(entity_id.as_str());
                s.append(" not found locally");
                s
            },
            CoordError::NotInDirectory { entity_id } => {
                let mut s = String::from_str("Entity ");
                s.append(entity_id.as_str());
                s.append(" not found in directory");
                s
            },
            CoordError::RemoteRequestFailed { status } => {
                let mut s = String::from_str("Remote coordinator request failed: ");
                let line = if 100 <= *status && *status < 1000 {
                    status_text(*status)
                } else {
                    decimal(*status as u64)
                };
                s.append(line.as_str());
                s
            },
            CoordError::SpawnFailed { reason } => reason.clone(),
        }
    }

    /// The text that answers a spawn request that failed with this error.
    pub fn spawn_failure_message(&self) -> (s: String)
        ensures
            s@ == "Failed to spawn entity: "@ + error_message(*self),
    {
        let mut s = String::from_str("Failed to spawn entity: ");
        let m = self.message();
        s.append(m.as_str());
        s
    }
}

/// A message to a local entity: the TCP address to connect to and the bytes to send.
#[derive(Debug)]
pub struct LocalExchange {
    pub address: String,
    pub payload: String,
}

/// A message to an entity of another coordinator: the URL to post to and the body.
#[derive(Debug)]
pub struct RemoteExchange {
    pub url: String,
    pub body: String,
}

/// Where a message to an entity goes.
#[derive(Debug)]
pub enum AskPlan {
    Local(LocalExchange),
    Remote(RemoteExchange),
}

/// How to start an entity process: the program and its arguments.
pub struct SpawnCommand {
    pub entity_id: String,
    pub program: String,
    pub args: Vec<String>,
}

/// The registrations to send to a peer coordinator, and where to send them.
pub struct SharePlan {
    pub url: String,
    pub registrations: Vec<EntityRegistration>,
}

} // verus!
