//! Records the provisioner reads and writes, and the failures it reports.
use vstd::prelude::*;
use vstd::string::*;

verus! {

/// An app row as the provisioner reads it. `created_at` is in microseconds
/// since the Unix epoch (UTC).
#[derive(Debug)]
pub struct App {
    pub id: i32,
    pub created_at: i64,
    pub slug: String,
    pub team_id: i32,
    pub enabled: bool,
    pub container_id: Option<String>,
    pub network_id: Option<String>,
}

/// The fields a new app row is inserted with.
#[derive(Debug)]
pub struct NewApp {
    pub slug: String,
    pub team_id: i32,
}

/// A copy of an optional string.
pub fn copy_opt(s: &Option<String>) -> (r: Option<String>)
    ensures
        r == *s,
{
    match s {
        Some(v) => Some(v.clone()),
        None => None,
    }
}

/// How the container engine answered a failed call.
#[derive(PartialEq, Eq, Structural, Clone, Copy, Debug)]
pub enum EngineErrorKind {
    /// The object does not exist (HTTP 404).
    NotFound,
    /// The object is already in the requested state (HTTP 304).
    NotModified,
    /// The request conflicts with the object's state (HTTP 409).
    Conflict,
    /// The engine refused the operation (HTTP 403), as it does when a
    /// container is already attached to a network.
    Forbidden,
    /// Any other response or a transport failure.
    Other,
}

/// A failed call to an outside system, as the deployer sees it.
#[derive(Debug)]
pub enum ExternalError {
    Engine { kind: EngineErrorKind, message: String },
    Proxy { message: String },
    Database { message: String },
}

/// Why a provisioning step failed.
#[derive(Debug)]
pub enum ProvisionerError {
    Docker(String),
    Hyper(String),
    Diesel(String),
    Caddy(String),
    Http(String),
    IO(String),
    GitCloneFailed,
    DeployError(String),
    NotFound,
}

pub open spec fn error_message_spec(e: ProvisionerError) -> Seq<char> {
    match e {
        ProvisionerError::Docker(m) => "Docker error: "@ + m@,
        ProvisionerError::Hyper(m) => "Hyper error: "@ + m@,
        ProvisionerError::Diesel(m) => "Diesel error: "@ + m@,
        ProvisionerError::Caddy(m) => "Caddy error: "@ + m@,
        ProvisionerError::Http(m) => "http error: "@ + m@,
        ProvisionerError::IO(m) => "IO error: "@ + m@,
        ProvisionerError::GitCloneFailed => "git clone failed"@,
        ProvisionerError::DeployError(m) => "Error while deploying: "@ + m@,
        ProvisionerError::NotFound => "app not found"@,
    }
}

fn prefixed(prefix: &str, m: &String) -> (r: String)
    ensures
        r@ == prefix@ + m@,
{
    let mut s = String::from_str(prefix);
    s.append(m.as_str());
    s
}

impl ProvisionerError {
    /// The human-readable message carried by the `error` event.
    pub fn message(&self) -> (r: String)
        ensures
            r@ == error_message_spec(*self),
    {
        match self {
            ProvisionerError::Docker(m) => prefixed("Docker error: ", m),
            ProvisionerError::Hyper(m) => prefixed("Hyper error: ", m),
            ProvisionerError::Diesel(m) => prefixed("Diesel error: ", m),
            ProvisionerError::Caddy(m) => prefixed("Caddy error: ", m),
            ProvisionerError::Http(m) => prefixed("http error: ", m),
            ProvisionerError::IO(m) => prefixed("IO error: ", m),
            ProvisionerError::GitCloneFailed => String::from_str("git clone failed"),
            ProvisionerError::DeployError(m) => prefixed("Error while deploying: ", m),
            ProvisionerError::NotFound => String::from_str("app not found"),
        }
    }
}

/// The provisioner error for a failed outside call.
pub open spec fn from_external_spec(e: ExternalError) -> ProvisionerError {
    match e {
        ExternalError::Engine { message, .. } => ProvisionerError::Docker(message),
        ExternalError::Proxy { message } => ProvisionerError::Caddy(message),
        ExternalError::Database { message } => ProvisionerError::Diesel(message),
    }
}

impl ProvisionerError {
    pub fn from_external(e: ExternalError) -> (r: ProvisionerError)
        ensures
            r == from_external_spec(e),
    {
        match e {
            ExternalError::Engine { message, .. } => ProvisionerError::Docker(message),
            ExternalError::Proxy { message } => ProvisionerError::Caddy(message),
            ExternalError::Database { message } => ProvisionerError::Diesel(message),
        }
    }
}

} // verus!
