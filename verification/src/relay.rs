//! The relay's bookkeeping: who is connected, who gets a published press,
//! and what each thing a client does leads to.
//!
//! Sockets and tasks belong to the program. It reports what happened and
//! carries out what is decided here.

use vstd::prelude::*;
use crate::detector::PressEvent;
use crate::shared::{one_less, SharedState};
use crate::correlation::record_of;
use crate::history::appended;

verus! {

/// The name of one connected client.
#[derive(Debug, Clone, Copy, PartialEq, Eq, Hash, Structural)]
pub struct ClientId(pub u64);

/// One copy of a published press, addressed to one client.
#[derive(Debug, Clone, Copy, PartialEq, Eq, Structural)]
pub struct Delivery {
    pub client: ClientId,
    pub event: PressEvent,
}

/// What the listener reports.
#[derive(Debug, Clone, Copy, PartialEq, Eq, Structural)]
pub enum AcceptEvent {
    /// A connection came in.
    Connection,
    /// Accepting a connection failed.
    AcceptFailed,
    /// The process is shutting down.
    Shutdown,
}

/// What the listener is to do next.
#[derive(Debug, Clone, Copy, PartialEq, Eq, Structural)]
pub enum AcceptAction {
    /// Hand the connection to a task of its own for the handshake, and go
    /// on listening.
    Handshake,
    /// Go on listening.
    Listen,
    /// Leave the accept loop. Connections that stand are left alone.
    Stop,
}

/// What a client sent, once the program has parsed it.
#[derive(Debug, Clone, PartialEq, Eq)]
pub enum ClientMessage<D> {
    /// An accuracy response: the distance the caller measured between the
    /// observed and the target position, and the client's time stamp.
    Accuracy { distance: D, timestamp_ms: u64 },
    /// The client is ready and names its version.
    Ready { client_version: String },
    /// The user hit a target.
    TargetHit { target_id: u32 },
    /// The client asks for a session to start.
    RequestSessionStart,
    /// The client asks for the session to end.
    RequestSessionEnd,
    /// The client says that it is leaving.
    Disconnect,
}

/// What happened on one client's connection.
#[derive(Debug, Clone, PartialEq, Eq)]
pub enum ClientEvent<D> {
    /// A text message that parsed.
    Message(ClientMessage<D>),
    /// A text message that did not parse.
    Unparseable,
    /// A ping, a pong, a binary message: nothing the relay reads.
    Other,
    /// The client sent a close frame.
    Close,
    /// The stream of messages ended.
    End,
    /// Reading from the connection failed.
    TransportError,
    /// Writing to the connection failed.
    SendFailed,
    /// The process is shutting down.
    Shutdown,
}

/// What the client's task is to do next.
#[derive(Debug, Clone, PartialEq, Eq)]
pub enum ClientAction<D> {
    /// The response was correlated and recorded. Go on.
    Recorded,
    /// Hand this message to the session. Go on.
    Forward(ClientMessage<D>),
    /// Nothing to do. Go on.
    Continue,
    /// Leave: dismiss the client and end its task.
    Disconnect,
}

/// Whether the accept loop is over after an event, and the answer to it.
pub open spec fn accept_step(stopped: bool, event: AcceptEvent) -> (bool, AcceptAction) {
    if stopped {
        (true, AcceptAction::Stop)
    } else {
        match event {
            AcceptEvent::Connection => (false, AcceptAction::Handshake),
            AcceptEvent::AcceptFailed => (false, AcceptAction::Listen),
            AcceptEvent::Shutdown => (true, AcceptAction::Stop),
        }
    }
}

/// The clients without one of them; the others keep their order.
pub open spec fn without(clients: Seq<ClientId>, id: ClientId) -> Seq<ClientId> {
    if clients.contains(id) {
        clients.remove(clients.index_of(id))
    } else {
        clients
    }
}

/// One copy of a press for each client, in the order of the clients.
pub open spec fn deliveries(clients: Seq<ClientId>, event: PressEvent) -> Seq<Delivery> {
    Seq::new(clients.len(), |i: int| Delivery { client: clients[i], event })
}

/// Whether an event ends a client's connection.
pub open spec fn ends_connection<D>(event: ClientEvent<D>) -> bool {
    event is Close || event is End || event is TransportError || event is SendFailed || event
        is Shutdown
}

/// The answer to a client's event.
pub open spec fn client_answer<D>(event: ClientEvent<D>) -> ClientAction<D> {
    match event {
        ClientEvent::Message(ClientMessage::Accuracy { .. }) => ClientAction::Recorded,
        ClientEvent::Message(m) => ClientAction::Forward(m),
        ClientEvent::Unparseable => ClientAction::Continue,
        ClientEvent::Other => ClientAction::Continue,
        _ => ClientAction::Disconnect,
    }
}

/// The relay: the clients that are connected, in the order they came, and
/// whether the accept loop was stopped.
pub struct Relay {
    clients: Vec<ClientId>,
    next_id: u64,
    stopped: bool,
}

impl Relay {
    /// The clients that are connected, oldest connection first.
    pub closed spec fn clients(self) -> Seq<ClientId> {
        self.clients@
    }

    /// The number of clients that were ever admitted.
    pub closed spec fn issued(self) -> nat {
        self.next_id as nat
    }

    /// Whether the accept loop was stopped.
    pub closed spec fn is_stopped(self) -> bool {
        self.stopped
    }

    /// The relay's invariant: no client is listed twice, and every name
    /// was issued.
    pub closed spec fn wf(self) -> bool {
        &&& self.clients@.no_duplicates()
        &&& forall|i: int| 0 <= i < self.clients@.len() ==> (#[trigger] self.clients@[i]).0 < self.next_id
    }

    /// Whether the client count of a shared state is that of this relay.
    pub open spec fn in_step<D>(self, shared: SharedState<D>) -> bool {
        shared.connected_clients == self.clients().len()
    }

    /// A relay without clients, accepting.
    pub fn new() -> (r: Self)
        ensures
            r.wf(),
            r.clients() == Seq::<ClientId>::empty(),
            r.issued() == 0,
            !r.is_stopped(),
    {
        Relay { clients: Vec::new(), next_id: 0, stopped: false }
    }

    /// The number of connected clients.
    pub fn client_count(&self) -> (r: usize)
        ensures
            r == self.clients().len(),
    {
        self.clients.len()
    }

    /// Whether a client is connected.
    pub fn is_connected(&self, id: ClientId) -> (r: bool)
        ensures
            r == self.clients().contains(id),
    {
        self.find(id).is_some()
    }

    fn find(&self, id: ClientId) -> (r: Option<usize>)
        ensures
            match r {
                Some(i) => i < self.clients@.len() && self.clients@[i as int] == id,
                None => !self.clients@.contains(id),
            },
    {
        let mut i: usize = 0;
        while i < self.clients.len()
            invariant
                i <= self.clients@.len(),
                forall|k: int| 0 <= k < i ==> self.clients@[k] != id,
            decreases self.clients@.len() - i,
        {
            if self.clients[i].0 == id.0 {
                return Some(i);
            }
            i = i + 1;
        }
        None
    }

    /// Takes one event from the listener. A failed accept costs nothing
    /// but that connection; a shutdown ends the loop and touches no
    /// client.
    pub fn on_accept(&mut self, event: AcceptEvent) -> (action: AcceptAction)
        ensures
            (final(self).is_stopped(), action) == accept_step(old(self).is_stopped(), event),
            final(self).clients() == old(self).clients(),
            final(self).issued() == old(self).issued(),
            final(self).wf() == old(self).wf(),
    {
        if self.stopped {
            return AcceptAction::Stop;
        }
        match event {
            AcceptEvent::Connection => AcceptAction::Handshake,
            AcceptEvent::AcceptFailed => AcceptAction::Listen,
            AcceptEvent::Shutdown => {
                self.stopped = true;
                AcceptAction::Stop
            },
        }
    }

    /// Takes the outcome of a handshake. A client whose handshake went
    /// through is given a fresh name, listed last and counted in; one whose
    /// handshake failed is not. `None` with a good handshake means that no
    /// name or no count is left to give.
    pub fn on_handshake<D>(&mut self, shared: &mut SharedState<D>, succeeded: bool) -> (r: Option<
        ClientId,
    >)
        requires
            old(self).wf(),
        ensures
            final(self).wf(),
            final(shared).wf() == old(shared).wf(),
            final(shared).same_engine(*old(shared)),
            final(shared).index_pressure == old(shared).index_pressure,
            final(shared).middle_pressure == old(shared).middle_pressure,
            final(shared).link_state == old(shared).link_state,
            final(shared).client_version == old(shared).client_version,
            final(self).is_stopped() == old(self).is_stopped(),
            r is Some <==> succeeded && old(self).issued() < u64::MAX && old(shared).connected_clients
                < usize::MAX,
            match r {
                Some(id) => {
                    &&& id.0 == old(self).issued()
                    &&& !old(self).clients().contains(id)
                    &&& final(self).clients() == old(self).clients().push(id)
                    &&& final(self).issued() == old(self).issued() + 1
                    &&& final(shared).connected_clients == old(shared).connected_clients + 1
                },
                None => {
                    &&& final(self).clients() == old(self).clients()
                    &&& final(self).issued() == old(self).issued()
                    &&& final(shared).connected_clients == old(shared).connected_clients
                },
            },
            old(self).in_step(*old(shared)) ==> final(self).in_step(*final(shared)),
    {
        if !succeeded || self.next_id == u64::MAX || shared.connected_clients == usize::MAX {
            return None;
        }
        let id = ClientId(self.next_id);
        assert(!self.clients@.contains(id)) by {
            if self.clients@.contains(id) {
                let k = choose|k: int| 0 <= k < self.clients@.len() && self.clients@[k] == id;
                assert(self.clients@[k].0 < self.next_id);
            }
        }
        let counted = shared.client_connected();
        assert(counted);
        self.clients.push(id);
        self.next_id = self.next_id + 1;
        assert(self.clients@.no_duplicates());
        Some(id)
    }

    /// Lets a client go. If it was connected it leaves the list, the
    /// others keep their order, the count drops by exactly one and what
    /// the client said of its version is forgotten. If it was not, nothing
    /// changes.
    pub fn dismiss<D>(&mut self, shared: &mut SharedState<D>, id: ClientId) -> (was_connected: bool)
        requires
            old(self).wf(),
        ensures
            final(self).wf(),
            was_connected == old(self).clients().contains(id),
            final(self).clients() == without(old(self).clients(), id),
            !final(self).clients().contains(id),
            forall|other: ClientId|
                other != id ==> final(self).clients().contains(other) == old(
                    self,
                ).clients().contains(other),
            final(self).clients().len() == if was_connected {
                old(self).clients().len() - 1
            } else {
                old(self).clients().len() as int
            },
            final(self).issued() == old(self).issued(),
            final(self).is_stopped() == old(self).is_stopped(),
            final(shared).wf() == old(shared).wf(),
            final(shared).same_engine(*old(shared)),
            final(shared).index_pressure == old(shared).index_pressure,
            final(shared).middle_pressure == old(shared).middle_pressure,
            final(shared).link_state == old(shared).link_state,
            final(shared).connected_clients == if was_connected {
                one_less(old(shared).connected_clients)
            } else {
                old(shared).connected_clients
            },
            final(shared).client_version == if was_connected {
                None
            } else {
                old(shared).client_version
            },
            old(self).in_step(*old(shared)) ==> final(self).in_step(*final(shared)),
    {
        match self.find(id) {
            Some(i) => {
                let ghost before = self.clients@;
                proof {
                    lemma_index_of_distinct(before, i as int);
                    lemma_remove_from_distinct(before, i as int);
                }
                let _ = self.clients.remove(i);
                shared.client_disconnected();
                true
            },
            None => false,
        }
    }

    /// The copies of a press to send: one for each connected client, in
    /// the order of the clients. With no client there is nothing to send,
    /// and that is no failure.
    pub fn publish(&self, event: PressEvent) -> (r: Vec<Delivery>)
        ensures
            r@ == deliveries(self.clients(), event),
            r@.len() == self.clients().len(),
    {
        let mut out: Vec<Delivery> = Vec::new();
        let mut i: usize = 0;
        while i < self.clients.len()
            invariant
                i <= self.clients@.len(),
                out@.len() == i,
                forall|k: int|
                    0 <= k < i ==> out@[k] == (Delivery { client: self.clients@[k], event }),
            decreases self.clients@.len() - i,
        {
            out.push(Delivery { client: self.clients[i], event });
            i = i + 1;
        }
        assert(out@ =~= deliveries(self.clients(), event));
        out
    }
}

/// Takes one event from a client's connection. An accuracy response is
/// correlated and recorded; a readiness message leaves the client's
/// version in the shared state and is handed on like every other message;
/// what does not parse is passed over and never ends the connection; a
/// close frame, the end of the stream, a failure or a shutdown ends it.
pub fn on_client_event<D>(shared: &mut SharedState<D>, event: ClientEvent<D>, recorded_ms: u64) -> (action:
    ClientAction<D>)
    requires
        old(shared).wf(),
    ensures
        final(shared).wf(),
        action == client_answer(event),
        (action is Disconnect) == ends_connection(event),
        final(shared).index_pressure == old(shared).index_pressure,
        final(shared).middle_pressure == old(shared).middle_pressure,
        final(shared).link_state == old(shared).link_state,
        final(shared).connected_clients == old(shared).connected_clients,
        final(shared).client_version == match event {
            ClientEvent::Message(ClientMessage::Ready { client_version }) => Some(client_version),
            _ => old(shared).client_version,
        },
        final(shared).records() == match event {
            ClientEvent::Message(ClientMessage::Accuracy { distance, timestamp_ms }) => appended(
                old(shared).records(),
                1000,
                record_of(old(shared).pending(), distance, timestamp_ms, recorded_ms),
            ),
            _ => old(shared).records(),
        },
        final(shared).pending() == match event {
            ClientEvent::Message(ClientMessage::Accuracy { .. }) => old(shared).pending().cleared(
                old(shared).pending().attributed(),
            ),
            _ => old(shared).pending(),
        },
{
    match event {
        ClientEvent::Message(message) => match message {
            ClientMessage::Accuracy { distance, timestamp_ms } => {
                shared.record_response(distance, timestamp_ms, recorded_ms);
                ClientAction::Recorded
            },
            ClientMessage::Ready { client_version } => {
                shared.client_ready(client_version.clone());
                ClientAction::Forward(ClientMessage::Ready { client_version })
            },
            other => ClientAction::Forward(other),
        },
        ClientEvent::Unparseable => ClientAction::Continue,
        ClientEvent::Other => ClientAction::Continue,
        _ => ClientAction::Disconnect,
    }
}

/// In a list without duplicates, the place of an entry is the place where
/// it stands.
pub proof fn lemma_index_of_distinct(clients: Seq<ClientId>, at: int)
    requires
        clients.no_duplicates(),
        0 <= at < clients.len(),
    ensures
        clients.contains(clients[at]),
        clients.index_of(clients[at]) == at,
        without(clients, clients[at]) == clients.remove(at),
{
    let id = clients[at];
    assert(clients.contains(id));
    let found = clients.index_of(id);
    assert(0 <= found < clients.len() && clients[found] == id);
}

/// Removing one entry of a list without duplicates removes that client
/// and no other, and leaves a list without duplicates.
pub proof fn lemma_remove_from_distinct(clients: Seq<ClientId>, at: int)
    requires
        clients.no_duplicates(),
        0 <= at < clients.len(),
    ensures
        clients.remove(at).no_duplicates(),
        clients.remove(at).len() == clients.len() - 1,
        !clients.remove(at).contains(clients[at]),
        forall|other: ClientId|
            other != clients[at] ==> clients.remove(at).contains(other) == clients.contains(other),
        forall|k: int|
            0 <= k < clients.len() - 1 ==> #[trigger] clients.remove(at)[k] == if k < at {
                clients[k]
            } else {
                clients[k + 1]
            },
{
    let rest = clients.remove(at);
    assert forall|k: int| 0 <= k < rest.len() implies #[trigger] rest[k] == if k < at {
        clients[k]
    } else {
        clients[k + 1]
    } by {}
    assert forall|other: ClientId| other != clients[at] implies rest.contains(other)
        == clients.contains(other) by {
        if clients.contains(other) {
            let k = choose|k: int| 0 <= k < clients.len() && clients[k] == other;
            if k < at {
                assert(rest[k] == other);
            } else {
                assert(rest[k - 1] == other);
            }
        }
        if rest.contains(other) {
            let k = choose|k: int| 0 <= k < rest.len() && rest[k] == other;
            if k < at {
                assert(clients[k] == other);
            } else {
                assert(clients[k + 1] == other);
            }
        }
    }
    if rest.contains(clients[at]) {
        let k = choose|k: int| 0 <= k < rest.len() && rest[k] == clients[at];
        if k < at {
            assert(clients[k] == clients[at]);
        } else {
            assert(clients[k + 1] == clients[at]);
        }
    }
}

/// A press that is published once reaches every connected client, each
/// exactly once and with the same content; after a client has left, the
/// others still get theirs.
pub proof fn lemma_publish_reaches_all(clients: Seq<ClientId>, event: PressEvent, leaving: ClientId)
    requires
        clients.no_duplicates(),
    ensures
        deliveries(clients, event).len() == clients.len(),
        forall|i: int|
            0 <= i < clients.len() ==> #[trigger] deliveries(clients, event)[i] == (Delivery {
                client: clients[i],
                event,
            }),
        forall|c: ClientId|
            clients.contains(c) && c != leaving ==> deliveries(
                without(clients, leaving),
                event,
            ).contains(Delivery { client: c, event }),
        !deliveries(without(clients, leaving), event).contains(Delivery { client: leaving, event }),
{
    let rest = without(clients, leaving);
    if clients.contains(leaving) {
        let at = clients.index_of(leaving);
        lemma_remove_from_distinct(clients, at);
    }
    let sent = deliveries(rest, event);
    assert forall|c: ClientId| clients.contains(c) && c != leaving implies sent.contains(
        Delivery { client: c, event },
    ) by {
        assert(rest.contains(c));
        let k = choose|k: int| 0 <= k < rest.len() && rest[k] == c;
        assert(sent[k] == Delivery { client: c, event });
    }
    if sent.contains(Delivery { client: leaving, event }) {
        let k = choose|k: int| 0 <= k < sent.len() && sent[k] == Delivery { client: leaving, event };
        assert(rest[k] == leaving);
    }
}

} // verus!
