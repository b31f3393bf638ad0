//! The relay's two shared structures, modelled exactly: the broadcast
//! fan-out with its bounded backlog and lagging-consumer policy, and the
//! ordered many-producer fan-in queue. The surrounding process owns the
//! sockets; every decision about what a subscriber sees, in which order,
//! and what happens to a malformed frame is made — and proved — here.

use vstd::prelude::*;
use crate::messages::EngineMessage;

verus! {

/// The fan-out side of the relay. Every frame ever broadcast forms one
/// abstract history; each subscriber holds a cursor into it. Only the last
/// `capacity` frames are retained, so a subscriber that lags further
/// behind loses the oldest unread frames and continues — producers are
/// never blocked and nobody is disconnected.
pub struct RelayHub {
    capacity: usize,
    sent: u64,
    window: Vec<String>,
    cursors: Vec<u64>,
    history: Ghost<Seq<Seq<char>>>,
}

impl RelayHub {
    /// Every frame ever broadcast, oldest first.
    pub closed spec fn history(self) -> Seq<Seq<char>> {
        self.history@
    }

    /// The backlog bound the hub was made with.
    pub closed spec fn capacity_spec(self) -> int {
        self.capacity as int
    }

    /// How many subscribers exist.
    pub closed spec fn subscriber_count(self) -> int {
        self.cursors@.len() as int
    }

    /// The next history position subscriber `id` would read.
    pub closed spec fn cursor_of(self, id: int) -> int {
        self.cursors@[id] as int
    }

    /// The cursor after the lagging policy is applied: a subscriber more
    /// than `capacity` frames behind is moved up to the oldest retained
    /// frame.
    pub open spec fn effective_cursor(self, id: int) -> int {
        if self.cursor_of(id) < self.history().len() - self.capacity_spec() {
            self.history().len() - self.capacity_spec()
        } else {
            self.cursor_of(id)
        }
    }

    /// The frames subscriber `id` still has ahead of it, in order.
    pub open spec fn pending(self, id: int) -> Seq<Seq<char>> {
        self.history().skip(self.effective_cursor(id))
    }

    /// The hub's internal consistency: the retained window is exactly the
    /// tail of the history, and no cursor runs ahead of it.
    pub closed spec fn wf(self) -> bool {
        &&& self.capacity > 0
        &&& self.sent == self.history@.len()
        &&& self.window@.len() == (if self.sent <= self.capacity as u64 {
            self.sent as int
        } else {
            self.capacity as int
        })
        &&& forall|j: int|
            0 <= j < self.window@.len() ==> (#[trigger] self.window@[j])@ == self.history@[
                self.history@.len() - self.window@.len() + j]
        &&& forall|c: int| 0 <= c < self.cursors@.len() ==> (#[trigger] self.cursors@[c]) as int
            <= self.sent as int
    }

    /// A hub with a backlog of `capacity` frames, nothing broadcast and
    /// nobody subscribed.
    pub fn new(capacity: usize) -> (r: RelayHub)
        requires
            capacity >= 1,
        ensures
            r.wf(),
            r.capacity_spec() == capacity as int,
            r.history() == Seq::<Seq<char>>::empty(),
            r.subscriber_count() == 0,
    {
        RelayHub {
            capacity,
            sent: 0,
            window: Vec::new(),
            cursors: Vec::new(),
            history: Ghost(Seq::empty()),
        }
    }

    /// How many frames were broadcast so far.
    pub fn frame_count(&self) -> (r: u64)
        requires
            self.wf(),
        ensures
            r as int == self.history().len(),
    {
        self.sent
    }

    /// Adds a subscriber. It starts at the end of the history, so it only
    /// ever sees frames broadcast after this call — nothing is replayed.
    pub fn subscribe(&mut self) -> (id: usize)
        requires
            old(self).wf(),
        ensures
            final(self).wf(),
            final(self).capacity_spec() == old(self).capacity_spec(),
            final(self).history() == old(self).history(),
            final(self).subscriber_count() == old(self).subscriber_count() + 1,
            id as int == old(self).subscriber_count(),
            final(self).cursor_of(id as int) == old(self).history().len(),
            final(self).pending(id as int) == Seq::<Seq<char>>::empty(),
            forall|c: int|
                0 <= c < old(self).subscriber_count() ==> final(self).cursor_of(c) == old(
                    self,
                ).cursor_of(c),
    {
        let id: usize = self.cursors.len();
        self.cursors.push(self.sent);
        proof {
            assert(final(self).pending(id as int) =~= Seq::<Seq<char>>::empty());
        }
        id
    }

    /// Broadcasts one frame. This always succeeds: the frame is appended
    /// to the history, the oldest retained frame is evicted once the
    /// backlog is full, and no subscriber's cursor is touched.
    pub fn broadcast(&mut self, frame: String)
        requires
            old(self).wf(),
            old(self).history().len() < u64::MAX,
        ensures
            final(self).wf(),
            final(self).capacity_spec() == old(self).capacity_spec(),
            final(self).history() == old(self).history().push(frame@),
            final(self).subscriber_count() == old(self).subscriber_count(),
            forall|c: int|
                0 <= c < old(self).subscriber_count() ==> final(self).cursor_of(c) == old(
                    self,
                ).cursor_of(c),
    {
        if self.window.len() == self.capacity {
            self.window.remove(0);
        }
        self.window.push(frame);
        self.sent = self.sent + 1;
        proof {
            self.history@ = self.history@.push(frame@);
        }
    }

    /// Hands subscriber `id` its next frame, if any. A subscriber that
    /// fell more than `capacity` frames behind first loses the frames that
    /// were evicted (drop-oldest), then reads on in order.
    pub fn poll(&mut self, id: usize) -> (r: Option<String>)
        requires
            old(self).wf(),
            id < old(self).subscriber_count(),
        ensures
            final(self).wf(),
            final(self).capacity_spec() == old(self).capacity_spec(),
            final(self).history() == old(self).history(),
            final(self).subscriber_count() == old(self).subscriber_count(),
            forall|c: int|
                0 <= c < old(self).subscriber_count() && c != id ==> final(self).cursor_of(c)
                    == old(self).cursor_of(c),
            old(self).effective_cursor(id as int) < old(self).history().len() ==> {
                &&& r matches Some(f)
                &&& (r matches Some(f) ==> f@ == old(self).history()[old(self).effective_cursor(
                    id as int,
                )])
                &&& final(self).cursor_of(id as int) == old(self).effective_cursor(id as int) + 1
            },
            old(self).effective_cursor(id as int) >= old(self).history().len() ==> r is None
                && final(self).cursor_of(id as int) == old(self).cursor_of(id as int),
    {
        let window_len: usize = self.window.len();
        let base: u64 = self.sent - (window_len as u64);
        let cur: u64 = self.cursors[id];
        let eff: u64 = if cur < base {
            base
        } else {
            cur
        };
        proof {
            assert(eff as int == old(self).effective_cursor(id as int));
        }
        if eff < self.sent {
            let idx: usize = (eff - base) as usize;
            let f = self.window[idx].clone();
            proof {
                assert(f@ == self.history@[eff as int]);
            }
            self.cursors[id] = eff + 1;
            Some(f)
        } else {
            None
        }
    }
}

/// The fan-in side of the relay: one ordered queue that every connection
/// pushes decoded events into and a single consumer drains.
pub struct EventQueue {
    events: Vec<EngineMessage>,
}

impl EventQueue {
    /// The queued events, oldest first.
    pub closed spec fn view_of(self) -> Seq<EngineMessage> {
        self.events@
    }

    /// An empty queue.
    pub fn new() -> (r: EventQueue)
        ensures
            r.view_of() == Seq::<EngineMessage>::empty(),
    {
        EventQueue { events: Vec::new() }
    }

    /// Appends one event at the tail.
    pub fn push_event(&mut self, ev: EngineMessage)
        ensures
            final(self).view_of() == old(self).view_of().push(ev),
    {
        self.events.push(ev);
    }

    /// Takes the outcome of decoding one inbound text frame. A malformed
    /// frame decodes to `None` and is dropped — the queue, the connection
    /// and the listener all stay as they are; a decoded event is appended.
    pub fn push_decoded(&mut self, decoded: Option<EngineMessage>)
        ensures
            decoded matches Some(ev) ==> final(self).view_of() == old(self).view_of().push(ev),
            decoded is None ==> final(self).view_of() == old(self).view_of(),
    {
        match decoded {
            Some(ev) => self.events.push(ev),
            None => (),
        }
    }

    /// Synthesizes the local `Connected` liveness event that accompanies a
    /// finished handshake; it is not an acknowledgment from the peer.
    pub fn push_connected(&mut self)
        ensures
            final(self).view_of() == old(self).view_of().push(EngineMessage::Connected),
    {
        self.events.push(EngineMessage::Connected);
    }

    /// Hands the single consumer the oldest event, in arrival order.
    pub fn try_recv(&mut self) -> (r: Option<EngineMessage>)
        ensures
            old(self).view_of().len() == 0 ==> r is None && final(self).view_of() == old(
                self,
            ).view_of(),
            old(self).view_of().len() > 0 ==> {
                &&& r matches Some(ev)
                &&& (r matches Some(ev) ==> ev == old(self).view_of().first())
                &&& final(self).view_of() == old(self).view_of().drop_first()
            },
    {
        if self.events.len() == 0 {
            None
        } else {
            let ev = self.events.remove(0);
            proof {
                assert(final(self).view_of() =~= old(self).view_of().drop_first());
            }
            Some(ev)
        }
    }
}

/// Two subscribers that are caught up to the same point observe any
/// following run of broadcasts identically: after `frames` are broadcast
/// — no more than the backlog capacity — both have exactly `frames`
/// pending, in the order they were sent.
pub proof fn lemma_subscribers_see_same_sequence(
    pre: RelayHub,
    post: RelayHub,
    id1: int,
    id2: int,
    frames: Seq<Seq<char>>,
)
    requires
        post.capacity_spec() == pre.capacity_spec(),
        post.history() == pre.history() + frames,
        frames.len() <= pre.capacity_spec(),
        post.cursor_of(id1) == pre.history().len(),
        post.cursor_of(id2) == pre.history().len(),
    ensures
        post.pending(id1) == frames,
        post.pending(id2) == frames,
        post.pending(id1) == post.pending(id2),
{
    assert(post.effective_cursor(id1) == pre.history().len());
    assert(post.effective_cursor(id2) == pre.history().len());
    assert(post.history().skip(pre.history().len() as int) =~= frames);
}

} // verus!
