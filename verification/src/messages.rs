//! The wire vocabulary of the bridge: commands from the editor to the
//! engine and events from the engine back. The transform vectors carry
//! IEEE-754 single-precision bit patterns; the core stores and forwards
//! them and never interprets them — arithmetic on them lives at the wire
//! and UI edges.

use vstd::prelude::*;

verus! {

/// A command broadcast from the editor to every connected engine socket.
#[derive(Debug, Clone, PartialEq)]
pub enum EditorMessage {
    /// Load a scene document.
    LoadScene { scene_json: String },
    /// Move, rotate or scale an entity.
    UpdateTransform { entity_id: u32, position: [u32; 3], rotation: [u32; 3], scale: [u32; 3] },
    /// Create a new entity.
    CreateEntity { name: String, components: Vec<String>, parent_id: Option<u32> },
    /// Delete an entity.
    DeleteEntity { entity_id: u32 },
    /// Select an entity.
    SelectEntity { entity_id: u32 },
    /// Enter or leave play mode.
    SetPlayMode { playing: bool },
    /// Ask the engine for its current scene state.
    GetSceneState,
}

/// An event funneled from an engine socket into the inbound queue.
#[derive(Debug, Clone, PartialEq)]
pub enum EngineMessage {
    /// A full scene snapshot.
    SceneState { scene_json: String },
    /// An entity was created.
    EntityCreated { entity_id: u32, name: String },
    /// An entity was deleted.
    EntityDeleted { entity_id: u32 },
    /// Frame statistics for the UI overlay.
    FrameStats { fps: u32, entity_count: u32 },
    /// A connection finished its handshake (synthesized locally).
    Connected,
    /// An error reported by the engine.
    Error { message: String },
    /// A transform changed inside the engine (gizmo manipulation).
    TransformUpdated { entity_id: u32, position: [u32; 3], rotation: [u32; 3], scale: [u32; 3] },
    /// An entity was selected inside the engine (or deselected).
    EntitySelected { entity_id: Option<u32> },
}

} // verus!
