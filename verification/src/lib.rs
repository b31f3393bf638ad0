//! Core logic of a local editor-to-engine bridge: a loopback relay that fans
//! editor commands out to engine connections and funnels engine events back
//! into one ordered stream, an aggregator that folds that stream into cached
//! application state, a supervisor for the external engine process, and a
//! directory-backed project store.

use vstd::prelude::*;
use vstd::string::StringExecFns;

pub mod aggregator;
pub mod jsondoc;
pub mod messages;
pub mod numbers;
pub mod paths;
pub mod relay;
pub mod slug;
pub mod store;
pub mod supervisor;

verus! {

/// The failure taxonomy shared by the store, the relay and the supervisor.
#[derive(Debug, Clone, PartialEq, Eq)]
pub enum BridgeError {
    /// The addressed path does not exist.
    NotFound,
    /// A project name whose sanitized form is empty.
    InvalidName,
    /// A path outside the store root (containment violation).
    InvalidPath,
    /// A project with the same slug already exists.
    AlreadyExists,
    /// An underlying I/O operation failed; carries its description.
    IOFailure(String),
    /// A malformed wire frame; never surfaced to the sender.
    DecodeFailure,
    /// The engine process could not be started.
    SpawnFailure,
    /// The relay could not acquire its loopback endpoint.
    BindFailure,
}

/// The text under which each failure is reported.
pub open spec fn message_text(e: BridgeError) -> Seq<char> {
    match e {
        BridgeError::NotFound => "Project does not exist"@,
        BridgeError::InvalidName => "Invalid project name"@,
        BridgeError::InvalidPath => "Invalid project path"@,
        BridgeError::AlreadyExists => "Project already exists"@,
        BridgeError::IOFailure(s) => "I/O failure: "@ + s@,
        BridgeError::DecodeFailure => "Malformed frame"@,
        BridgeError::SpawnFailure => "Failed to start engine process"@,
        BridgeError::BindFailure => "Failed to bind relay endpoint"@,
    }
}

impl BridgeError {
    /// The human-readable description of this failure.
    pub fn message(&self) -> (r: String)
        ensures
            r@ == message_text(*self),
    {
        match self {
            BridgeError::NotFound => "Project does not exist".to_owned(),
            BridgeError::InvalidName => "Invalid project name".to_owned(),
            BridgeError::InvalidPath => "Invalid project path".to_owned(),
            BridgeError::AlreadyExists => "Project already exists".to_owned(),
            BridgeError::IOFailure(s) => {
                let mut m = "I/O failure: ".to_owned();
                m.append(s.as_str());
                m
            },
            BridgeError::DecodeFailure => "Malformed frame".to_owned(),
            BridgeError::SpawnFailure => "Failed to start engine process".to_owned(),
            BridgeError::BindFailure => "Failed to bind relay endpoint".to_owned(),
        }
    }
}

} // verus!
