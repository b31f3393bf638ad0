//! The aggregator: the single consumer of the relay's inbound queue. It
//! folds each engine event into the shared application state — the sticky
//! connectivity flag, the cached entity list replaced wholesale by scene
//! snapshots — and tells the surrounding process what to forward to the
//! active UI surface.

use vstd::prelude::*;
use crate::messages::EngineMessage;

verus! {

/// The entities array a scene snapshot carries, if any: each element in
/// serde_json's compact rendering, in document order.
pub uninterp spec fn scene_entities_of(scene_json: Seq<char>) -> Option<Seq<Seq<char>>>;

/// Relies on serde_json (from_str, Value::get, Value::as_array, and the
/// compact Display rendering of Value): parses the snapshot and, when the
/// document holds an array under "entities", yields its elements. The
/// result depends on the text alone; serde_json's objects are ordered
/// maps, so the rendering is deterministic.
#[verifier::external_body]
fn scene_entities(scene_json: &str) -> (r: Option<Vec<String>>)
    ensures
        r is Some <==> scene_entities_of(scene_json@) is Some,
        r matches Some(v) ==> Some(v.deep_view()) == scene_entities_of(scene_json@),
{
    let doc: serde_json::Value = match serde_json::from_str(scene_json) {
        Ok(v) => v,
        Err(_) => return None,
    };
    let arr = doc.get("entities")?.as_array()?;
    Some(arr.iter().map(|e| e.to_string()).collect())
}

/// The process-wide state the aggregator maintains: whether the engine
/// ever connected, whether play mode is on, and the cached entity list.
pub struct SharedAppState {
    pub connected: bool,
    pub playing: bool,
    pub entities: Vec<String>,
}

/// The connectivity flag after one event: a `Connected` event sets it and
/// nothing clears it — the flag is sticky by design.
pub open spec fn connected_after(prev: bool, msg: EngineMessage) -> bool {
    prev || msg is Connected
}

/// The cached entities after one event: a `SceneState` whose document
/// carries an entities array replaces the cache wholesale; every other
/// event — including a snapshot without such an array — leaves it alone.
pub open spec fn entities_after(prev: Seq<Seq<char>>, msg: EngineMessage) -> Seq<Seq<char>> {
    match msg {
        EngineMessage::SceneState { scene_json } => match scene_entities_of(scene_json@) {
            Some(ents) => ents,
            None => prev,
        },
        _ => prev,
    }
}

impl SharedAppState {
    /// The initial state: disconnected, not playing, nothing cached.
    pub fn new() -> (r: SharedAppState)
        ensures
            !r.connected,
            !r.playing,
            r.entities@ == Seq::<String>::empty(),
    {
        SharedAppState { connected: false, playing: false, entities: Vec::new() }
    }

    /// Folds one drained event into the state.
    pub fn apply_event(&mut self, msg: &EngineMessage)
        ensures
            final(self).connected == connected_after(old(self).connected, *msg),
            final(self).playing == old(self).playing,
            final(self).entities.deep_view() == entities_after(
                old(self).entities.deep_view(),
                *msg,
            ),
    {
        match msg {
            EngineMessage::Connected => {
                self.connected = true;
            },
            EngineMessage::SceneState { scene_json } => {
                match scene_entities(scene_json.as_str()) {
                    Some(v) => {
                        self.entities = v;
                    },
                    None => (),
                }
            },
            _ => (),
        }
    }
}

/// The numbers a `FrameStats` event carries for the active UI surface;
/// any other event carries none. Whether a surface exists to receive them
/// — and dropping them when none does — is the caller's affair.
pub fn frame_stats(msg: &EngineMessage) -> (r: Option<(u32, u32)>)
    ensures
        r == (match *msg {
            EngineMessage::FrameStats { fps, entity_count } => Some((fps, entity_count)),
            _ => None,
        }),
{
    match msg {
        EngineMessage::FrameStats { fps, entity_count } => Some((*fps, *entity_count)),
        _ => None,
    }
}

/// The connectivity flag after a whole drained sequence of events.
pub open spec fn connected_after_all(start: bool, msgs: Seq<EngineMessage>) -> bool
    decreases msgs.len(),
{
    if msgs.len() == 0 {
        start
    } else {
        connected_after_all(connected_after(start, msgs.first()), msgs.drop_first())
    }
}

/// Once the flag is set it stays set, whatever is drained afterwards.
pub proof fn lemma_connected_sticky(msgs: Seq<EngineMessage>)
    ensures
        connected_after_all(true, msgs),
    decreases msgs.len(),
{
    if msgs.len() > 0 {
        lemma_connected_sticky(msgs.drop_first());
    }
}

/// One `Connected` event anywhere in the drained sequence leaves the
/// shared flag set, whatever any other connection did or did not emit.
pub proof fn lemma_connected_after_connected(start: bool, msgs: Seq<EngineMessage>)
    requires
        exists|i: int| 0 <= i < msgs.len() && msgs[i] is Connected,
    ensures
        connected_after_all(start, msgs),
    decreases msgs.len(),
{
    let i = choose|i: int| 0 <= i < msgs.len() && msgs[i] is Connected;
    if i == 0 {
        lemma_connected_sticky(msgs.drop_first());
    } else {
        assert(msgs.drop_first()[i - 1] is Connected);
        lemma_connected_after_connected(connected_after(start, msgs.first()), msgs.drop_first());
    }
}

/// A later scene snapshot replaces the cached entity list wholesale:
/// whatever the cache held — including what an earlier snapshot put there
/// — after a `SceneState` whose document carries an entities array the
/// cache is exactly that array, never a merge.
pub proof fn lemma_scene_state_replaces(
    prev: Seq<Seq<char>>,
    earlier: EngineMessage,
    later: EngineMessage,
    ents: Seq<Seq<char>>,
)
    requires
        later matches EngineMessage::SceneState { scene_json } && scene_entities_of(scene_json@)
            == Some(ents),
    ensures
        entities_after(entities_after(prev, earlier), later) == ents,
{
}

} // verus!
