//! The registry of live connections: who is connected, what has been sent to whom, and
//! who went silent.

use crate::infrastructure::clock::wall_clock_now;
use std::collections::HashMap;
use tokio::sync::mpsc::UnboundedSender;
use tokio::time::Instant;
use vstd::prelude::*;
use vstd::std_specs::iter::IteratorSpec;

verus! {

broadcast use vstd::std_specs::hash::group_hash_axioms;

/// Tokio's sending half of an unbounded channel, carried through as an opaque handle.
#[verifier::external_type_specification]
#[verifier::external_body]
#[verifier::reject_recursive_types(T)]
pub struct ExUnboundedSender<T>(UnboundedSender<T>);

/// Tokio's monotonic instant, carried through as an opaque value.
#[verifier::external_type_specification]
#[verifier::external_body]
pub struct ExInstant(Instant);

/// Silence longer than this many milliseconds gets a connection removed by the cleanup.
pub const STALE_THRESHOLD_MILLIS: u64 = 60_000;

/// Names one live client connection for its lifetime: the 128 bits of its UUID.
pub type ConnectionId = u128;

/// Milliseconds on the registry's monotonic clock, counted from server start.
pub type Millis = u64;

/// A message exchanged with a client over its socket.
#[derive(Debug, PartialEq, Eq)]
pub enum WebSocketMessage {
    Heartbeat { timestamp: u64, server_time: String },
    ConnectionStatus { connected_users: usize, uptime_seconds: u64 },
    Error { message: String },
    Pong,
}

/// The mathematical content of a [`WebSocketMessage`].
pub enum MessageView {
    Heartbeat { timestamp: u64, server_time: Seq<char> },
    ConnectionStatus { connected_users: usize, uptime_seconds: u64 },
    Error { message: Seq<char> },
    Pong,
}

impl View for WebSocketMessage {
    type V = MessageView;

    open spec fn view(&self) -> MessageView {
        match *self {
            WebSocketMessage::Heartbeat { timestamp, server_time } => MessageView::Heartbeat {
                timestamp,
                server_time: server_time@,
            },
            WebSocketMessage::ConnectionStatus {
                connected_users,
                uptime_seconds,
            } => MessageView::ConnectionStatus { connected_users, uptime_seconds },
            WebSocketMessage::Error { message } => MessageView::Error { message: message@ },
            WebSocketMessage::Pong => MessageView::Pong,
        }
    }
}

impl WebSocketMessage {
    /// The heartbeat for a wall clock reading of `millis` milliseconds since the Unix epoch,
    /// written out as `server_time`. A reading before the epoch is sent as zero.
    pub fn heartbeat(millis: i64, server_time: String) -> (message: Self)
        ensures
            message@ == (MessageView::Heartbeat {
                timestamp: if millis < 0 { 0u64 } else { millis as u64 },
                server_time: server_time@,
            }),
    {
        let timestamp: u64 = if millis < 0 { 0 } else { millis as u64 };
        WebSocketMessage::Heartbeat { timestamp, server_time }
    }
}

impl Clone for WebSocketMessage {
    fn clone(&self) -> (copy: Self)
        ensures
            copy == *self,
    {
        match self {
            WebSocketMessage::Heartbeat { timestamp, server_time } => WebSocketMessage::Heartbeat {
                timestamp: *timestamp,
                server_time: server_time.clone(),
            },
            WebSocketMessage::ConnectionStatus {
                connected_users,
                uptime_seconds,
            } => WebSocketMessage::ConnectionStatus {
                connected_users: *connected_users,
                uptime_seconds: *uptime_seconds,
            },
            WebSocketMessage::Error { message } => WebSocketMessage::Error {
                message: message.clone(),
            },
            WebSocketMessage::Pong => WebSocketMessage::Pong,
        }
    }
}

/// What the registry remembers about one connection.
#[derive(Debug)]
pub struct ConnectionInfo {
    pub id: ConnectionId,
    pub connected_at: Millis,
    pub last_heartbeat: Millis,
    pub user_id: Option<String>,
}

/// Calls `tokio::time::Instant::now`. Nothing is claimed of the instant returned.
#[verifier::external_body]
fn instant_now() -> (now: Instant) {
    Instant::now()
}

/// Calls `tokio::time::Instant::elapsed` on `start` and converts the duration with
/// `Duration::as_millis`. Nothing is claimed of the number returned.
#[verifier::external_body]
fn elapsed_millis(start: &Instant) -> (millis: Millis) {
    start.elapsed().as_millis() as u64
}

/// Calls `tokio::sync::mpsc::UnboundedSender::send`, which hands `message` to the channel
/// without blocking. The result is `true` when the channel took the message and `false` when
/// its receiving half is closed; which of the two happens is not a property of the arguments,
/// so nothing is claimed of it.
#[verifier::external_body]
fn send_message(sender: &UnboundedSender<WebSocketMessage>, message: WebSocketMessage) -> (accepted: bool) {
    sender.send(message).is_ok()
}

/// The mathematical content of a [`ConnectionManager`]: who is registered, with which
/// metadata and which outbound channel, what each channel has taken, and when the server
/// started.
pub struct RegistryView {
    pub entries: Map<ConnectionId, ConnectionInfo>,
    pub channels: Map<ConnectionId, UnboundedSender<WebSocketMessage>>,
    /// For each registered connection, the messages that the registry has put on its
    /// channel since it registered, oldest first.
    pub outbox: Map<ConnectionId, Seq<MessageView>>,
    pub started: Instant,
}

/// Whether a connection last heard from at `last_heartbeat` counts as silent at `now`,
/// given that silence longer than `threshold` is not tolerated.
pub open spec fn is_stale(last_heartbeat: Millis, now: Millis, threshold: Millis) -> bool {
    now - last_heartbeat > threshold
}

/// One connection removed by a cleanup pass for its silence.
#[derive(Debug)]
pub struct Eviction {
    /// The connection that was silent for too long.
    pub id: ConnectionId,
    /// The connections removed because the announcement of this removal could not be
    /// delivered to them.
    pub dropped: Vec<ConnectionId>,
}

impl RegistryView {
    /// The identifiers currently registered.
    pub open spec fn ids(self) -> Set<ConnectionId> {
        self.entries.dom()
    }

    /// The three mappings cover the same finite set of identifiers, and every entry is
    /// filed under its own identifier.
    pub open spec fn wf(self) -> bool {
        &&& self.entries.dom().finite()
        &&& self.channels.dom() == self.entries.dom()
        &&& self.outbox.dom() == self.entries.dom()
        &&& forall|id: ConnectionId| #[trigger]
            self.entries.contains_key(id) ==> self.entries[id].id == id
    }

    /// The registry after `id` registers at `now`, with nothing on its channel yet; an
    /// earlier entry under `id` is replaced.
    pub open spec fn register(
        self,
        id: ConnectionId,
        sender: UnboundedSender<WebSocketMessage>,
        user_id: Option<String>,
        now: Millis,
    ) -> Self {
        RegistryView {
            entries: self.entries.insert(
                id,
                ConnectionInfo { id, connected_at: now, last_heartbeat: now, user_id },
            ),
            channels: self.channels.insert(id, sender),
            outbox: self.outbox.insert(id, Seq::empty()),
            started: self.started,
        }
    }

    /// The registry without `id`.
    pub open spec fn remove(self, id: ConnectionId) -> Self {
        RegistryView {
            entries: self.entries.remove(id),
            channels: self.channels.remove(id),
            outbox: self.outbox.remove(id),
            started: self.started,
        }
    }

    /// The registry without any of `gone`.
    pub open spec fn remove_all(self, gone: Set<ConnectionId>) -> Self {
        RegistryView {
            entries: self.entries.remove_keys(gone),
            channels: self.channels.remove_keys(gone),
            outbox: self.outbox.remove_keys(gone),
            started: self.started,
        }
    }

    /// The registry after `id`, if registered, is heard from at `now`.
    pub open spec fn touch(self, id: ConnectionId, now: Millis) -> Self {
        if self.entries.contains_key(id) {
            RegistryView {
                entries: self.entries.insert(
                    id,
                    ConnectionInfo { last_heartbeat: now, ..self.entries[id] },
                ),
                ..self
            }
        } else {
            self
        }
    }

    /// The registered identifiers that are silent at `now` for longer than `threshold`.
    pub open spec fn stale_ids(self, now: Millis, threshold: Millis) -> Set<ConnectionId> {
        Set::new(
            |id: ConnectionId|
                self.entries.contains_key(id) && is_stale(
                    self.entries[id].last_heartbeat,
                    now,
                    threshold,
                ),
        )
    }

    /// The status message that describes this registry at `now`.
    pub open spec fn status_message(self, now: Millis) -> MessageView {
        MessageView::ConnectionStatus {
            connected_users: self.ids().len() as usize,
            uptime_seconds: now / 1000,
        }
    }

    /// The registry after `message` was put on the channel of every registered connection
    /// but those in `refused`, whose channel did not take it.
    pub open spec fn hand_out(self, message: MessageView, refused: Set<ConnectionId>) -> Self {
        RegistryView {
            outbox: Map::new(
                |id: ConnectionId| self.outbox.contains_key(id),
                |id: ConnectionId|
                    if refused.contains(id) {
                        self.outbox[id]
                    } else {
                        self.outbox[id].push(message)
                    },
            ),
            ..self
        }
    }

    /// The registry after a broadcast of `message` that the channels of `refused` did not
    /// take: every other connection has the message on its channel, and those in `refused`
    /// are removed.
    pub open spec fn broadcast(self, message: MessageView, refused: Set<ConnectionId>) -> Self {
        self.hand_out(message, refused).remove_all(refused)
    }

    /// The registry after its status at `now` was broadcast and the channels of `refused`
    /// did not take it.
    pub open spec fn announce(self, now: Millis, refused: Set<ConnectionId>) -> Self {
        self.broadcast(self.status_message(now), refused)
    }

    /// The registry after `id` was removed and, if it was registered, the new status at
    /// `now` was broadcast, which the channels of `refused` did not take.
    pub open spec fn evict(self, id: ConnectionId, now: Millis, refused: Set<ConnectionId>) -> Self {
        if self.entries.contains_key(id) {
            self.remove(id).announce(now, refused)
        } else {
            self
        }
    }

    /// The registry after the evictions of a cleanup pass at `now`, one after the other.
    pub open spec fn after_evictions(self, evictions: Seq<Eviction>, now: Millis) -> Self
        decreases evictions.len(),
    {
        if evictions.len() == 0 {
            self
        } else {
            self.after_evictions(evictions.drop_last(), now).evict(
                evictions.last().id,
                now,
                evictions.last().dropped@.to_set(),
            )
        }
    }
}

/// Whether every element of `part` occurs in `whole`, and none of them twice.
pub open spec fn distinct_members(part: Seq<ConnectionId>, whole: Set<ConnectionId>) -> bool {
    &&& part.no_duplicates()
    &&& part.to_set().subset_of(whole)
}

/// The identifiers that the evictions were made for, in their order.
pub open spec fn evicted_ids(evictions: Seq<Eviction>) -> Seq<ConnectionId> {
    Seq::new(evictions.len(), |i: int| evictions[i].id)
}

/// The registry of live connections: for each identifier an outbound channel and its
/// metadata, together with the live counter and the instant the server started.
pub struct ConnectionManager {
    connections: HashMap<ConnectionId, UnboundedSender<WebSocketMessage>>,
    connection_info: HashMap<ConnectionId, ConnectionInfo>,
    connected_count: usize,
    server_start_time: Instant,
    /// What has been put on each channel: a record kept for the contracts alone.
    delivered: Ghost<Map<ConnectionId, Seq<MessageView>>>,
}

impl View for ConnectionManager {
    type V = RegistryView;

    closed spec fn view(&self) -> RegistryView {
        RegistryView {
            entries: self.connection_info@,
            channels: self.connections@,
            outbox: self.delivered@,
            started: self.server_start_time,
        }
    }
}

impl ConnectionManager {
    /// The live counter.
    pub closed spec fn count(&self) -> nat {
        self.connected_count as nat
    }

    /// The registry invariant: the view is well formed and the live counter is the number
    /// of registered identifiers.
    pub open spec fn wf(&self) -> bool {
        &&& self@.wf()
        &&& self.count() == self@.ids().len()
    }

    /// An empty registry whose clock starts now.
    pub fn new() -> (manager: Self)
        ensures
            manager.wf(),
            manager@.ids() == Set::<ConnectionId>::empty(),
    {
        let manager = ConnectionManager {
            connections: HashMap::new(),
            connection_info: HashMap::new(),
            connected_count: 0,
            server_start_time: instant_now(),
            delivered: Ghost(Map::empty()),
        };
        assert(manager@.ids() =~= Set::<ConnectionId>::empty());
        assert(manager@.channels.dom() =~= manager@.entries.dom());
        assert(manager@.outbox.dom() =~= manager@.entries.dom());
        manager
    }

    /// The number of live connections.
    pub fn get_connection_count(&self) -> (count: usize)
        requires
            self.wf(),
        ensures
            count == self@.ids().len(),
    {
        self.connected_count
    }

    /// Milliseconds elapsed on the registry's clock since the server started.
    pub fn now(&self) -> (now: Millis) {
        elapsed_millis(&self.server_start_time)
    }

    /// Whether `connection_id` is registered.
    pub fn is_connected(&self, connection_id: ConnectionId) -> (found: bool)
        requires
            self.wf(),
        ensures
            found == self@.ids().contains(connection_id),
    {
        self.connection_info.contains_key(&connection_id)
    }

    /// The metadata of `connection_id`, if it is registered.
    pub fn connection_info(&self, connection_id: ConnectionId) -> (found: Option<&ConnectionInfo>)
        requires
            self.wf(),
        ensures
            match found {
                Some(info) => self@.entries.contains_key(connection_id) && *info
                    == self@.entries[connection_id],
                None => !self@.entries.contains_key(connection_id),
            },
    {
        self.connection_info.get(&connection_id)
    }

    /// The identifiers of all registered connections, each once, in no particular order.
    pub fn connection_ids(&self) -> (ids: Vec<ConnectionId>)
        requires
            self.wf(),
        ensures
            ids@.no_duplicates(),
            ids@.to_set() == self@.ids(),
    {
        let mut ids: Vec<ConnectionId> = Vec::new();
        for id in it: self.connections.keys()
            invariant
                ids@.len() == it.index(),
                forall|i: int| 0 <= i < ids@.len() ==> ids@[i] == *it.seq()[i],
        {
            ids.push(*id);
        }
        proof {
            let keys = self.connections.keys().remaining();
            assert(ids@ =~= keys.unref());
        }
        ids
    }

    /// Takes `connection_id` out of the registry and, if it was there, counts it out.
    fn remove_entry(&mut self, connection_id: ConnectionId) -> (was_present: bool)
        requires
            old(self).wf(),
        ensures
            final(self).wf(),
            final(self)@ == old(self)@.remove(connection_id),
            was_present == old(self)@.ids().contains(connection_id),
    {
        let sender = self.connections.remove(&connection_id);
        let info = self.connection_info.remove(&connection_id);
        self.delivered = Ghost(self.delivered@.remove(connection_id));
        if sender.is_some() {
            self.connected_count = self.connected_count - 1;
            true
        } else {
            proof {
                assert(self@.entries =~= old(self)@.entries);
            }
            false
        }
    }

    /// The status message for this registry at `now`: the live counter, and the whole
    /// seconds since the server started.
    pub fn connection_status_message(&self, now: Millis) -> (message: WebSocketMessage)
        requires
            self.wf(),
        ensures
            message@ == self@.status_message(now),
    {
        WebSocketMessage::ConnectionStatus {
            connected_users: self.connected_count,
            uptime_seconds: now / 1000,
        }
    }

    /// Records that `connection_id` was heard from at `now`; does nothing if it is not
    /// registered.
    pub fn update_last_heartbeat_at(&mut self, connection_id: ConnectionId, now: Millis)
        requires
            old(self).wf(),
        ensures
            final(self).wf(),
            final(self)@ == old(self)@.touch(connection_id, now),
    {
        match self.connection_info.remove(&connection_id) {
            Some(info) => {
                let refreshed = ConnectionInfo {
                    id: info.id,
                    connected_at: info.connected_at,
                    last_heartbeat: now,
                    user_id: info.user_id,
                };
                self.connection_info.insert(connection_id, refreshed);
                proof {
                    assert(self@.entries =~= old(self)@.touch(connection_id, now).entries);
                    assert(self@.entries.dom() =~= old(self)@.entries.dom());
                }
            },
            None => {
                proof {
                    assert(self@.entries =~= old(self)@.entries);
                }
            },
        }
    }

    /// Records that `connection_id` was heard from just now; does nothing if it is not
    /// registered.
    pub fn update_last_heartbeat(&mut self, connection_id: ConnectionId)
        requires
            old(self).wf(),
        ensures
            final(self).wf(),
            exists|now: Millis| final(self)@ == old(self)@.touch(connection_id, now),
    {
        let now = self.now();
        self.update_last_heartbeat_at(connection_id, now);
    }

    /// Puts a copy of `message` on the channel of every registered connection, and returns
    /// those whose channel did not take it.
    fn deliver(&mut self, message: &WebSocketMessage) -> (failed: Vec<ConnectionId>)
        requires
            old(self).wf(),
        ensures
            final(self).wf(),
            distinct_members(failed@, old(self)@.ids()),
            final(self)@ == old(self)@.hand_out(message@, failed@.to_set()),
    {
        let targets = self.connection_ids();
        let mut failed: Vec<ConnectionId> = Vec::new();
        let mut i: usize = 0;
        while i < targets.len()
            invariant
                i <= targets@.len(),
                self.wf(),
                targets@.no_duplicates(),
                targets@.to_set() == old(self)@.ids(),
                failed@.no_duplicates(),
                forall|j: int|
                    0 <= j < failed@.len() ==> targets@.subrange(0, i as int).contains(
                        #[trigger] failed@[j],
                    ),
                self@.entries == old(self)@.entries,
                self@.channels == old(self)@.channels,
                self@.started == old(self)@.started,
                forall|id: ConnectionId| #[trigger]
                    self@.outbox.contains_key(id) ==> self@.outbox[id] == (if targets@.subrange(
                        0,
                        i as int,
                    ).contains(id) && !failed@.contains(id) {
                        old(self)@.outbox[id].push(message@)
                    } else {
                        old(self)@.outbox[id]
                    }),
            decreases targets@.len() - i,
        {
            let connection_id = targets[i];
            let ghost seen = targets@.subrange(0, i as int);
            let ghost before_failed = failed@;
            let ghost before_outbox = self@.outbox;
            proof {
                assert(targets@.to_set().contains(connection_id));
                assert(!seen.contains(connection_id)) by {
                    if seen.contains(connection_id) {
                        let k = choose|k: int| 0 <= k < seen.len() && seen[k] == connection_id;
                        assert(targets@[k] == targets@[i as int]);
                    }
                }
                assert(!failed@.contains(connection_id)) by {
                    if failed@.contains(connection_id) {
                        let j = choose|j: int|
                            0 <= j < failed@.len() && failed@[j] == connection_id;
                        assert(seen.contains(failed@[j]));
                    }
                }
            }
            let accepted = match self.connections.get(&connection_id) {
                Some(sender) => send_message(sender, message.clone()),
                None => false,
            };
            if accepted {
                self.delivered = Ghost(
                    self.delivered@.insert(
                        connection_id,
                        self.delivered@[connection_id].push(message@),
                    ),
                );
            } else {
                failed.push(connection_id);
            }
            proof {
                assert(before_outbox.dom().contains(connection_id));
                assert(self@.outbox.dom() =~= before_outbox.dom());
                let next = targets@.subrange(0, i + 1);
                assert(next[i as int] == connection_id);
                assert forall|id: ConnectionId| next.contains(id) <==> (seen.contains(id) || id
                    == connection_id) by {
                    if next.contains(id) {
                        let k = choose|k: int| 0 <= k < next.len() && next[k] == id;
                        if k < i {
                            assert(seen[k] == id);
                        }
                    }
                    if seen.contains(id) {
                        let k = choose|k: int| 0 <= k < seen.len() && seen[k] == id;
                        assert(next[k] == id);
                    }
                }
                assert forall|id: ConnectionId| failed@.contains(id) <==> (before_failed.contains(
                    id,
                ) || (!accepted && id == connection_id)) by {
                    if failed@.contains(id) {
                        let k = choose|k: int| 0 <= k < failed@.len() && failed@[k] == id;
                        if k < before_failed.len() {
                            assert(before_failed[k] == id);
                        }
                    }
                    if before_failed.contains(id) {
                        let k = choose|k: int|
                            0 <= k < before_failed.len() && before_failed[k] == id;
                        assert(failed@[k] == id);
                    }
                    if !accepted && id == connection_id {
                        assert(failed@[failed@.len() - 1] == id);
                    }
                }
                assert forall|j: int| 0 <= j < failed@.len() implies next.contains(
                    #[trigger] failed@[j],
                ) by {
                    assert(failed@.contains(failed@[j]));
                }
            }
            i = i + 1;
        }
        proof {
            assert(targets@.subrange(0, i as int) =~= targets@);
            assert forall|id: ConnectionId| failed@.to_set().contains(id) implies old(self)@.ids(
            ).contains(id) by {
                let j = choose|j: int| 0 <= j < failed@.len() && failed@[j] == id;
                assert(targets@.contains(failed@[j]));
                assert(targets@.to_set().contains(id));
            }
            let expected = old(self)@.hand_out(message@, failed@.to_set());
            assert(self@.outbox.dom() =~= expected.outbox.dom());
            assert forall|id: ConnectionId| self@.outbox.contains_key(id) implies self@.outbox[id]
                == expected.outbox[id] by {
                assert(targets@.to_set().contains(id));
            }
            assert(self@.outbox =~= expected.outbox);
        }
        failed
    }

    /// Removes each of `failed` from the registry, without announcing any of it.
    pub fn remove_failed(&mut self, failed: &Vec<ConnectionId>)
        requires
            old(self).wf(),
        ensures
            final(self).wf(),
            final(self)@ == old(self)@.remove_all(failed@.to_set()),
        decreases 1int,
    {
        let mut i: usize = 0;
        proof {
            assert(failed@.subrange(0, 0).to_set() =~= Set::<ConnectionId>::empty());
            lemma_remove_none(self@);
        }
        while i < failed.len()
            invariant
                i <= failed@.len(),
                self.wf(),
                self@ == old(self)@.remove_all(failed@.subrange(0, i as int).to_set()),
            decreases failed@.len() - i,
        {
            let dropped = self.remove_connection_internal(failed[i], false, 0);
            proof {
                lemma_subrange_to_set_step(failed@, i as int);
                lemma_remove_all_then_remove(
                    old(self)@,
                    failed@.subrange(0, i as int).to_set(),
                    failed@[i as int],
                );
            }
            i = i + 1;
        }
        proof {
            assert(failed@.subrange(0, failed@.len() as int) =~= failed@);
        }
    }

    /// Attempts to deliver `message` to every registered connection. A connection whose
    /// channel does not take it is removed, quietly, once all have been tried. Returns the
    /// identifiers removed.
    pub fn broadcast_message(&mut self, message: WebSocketMessage) -> (failed: Vec<ConnectionId>)
        requires
            old(self).wf(),
        ensures
            final(self).wf(),
            distinct_members(failed@, old(self)@.ids()),
            final(self)@ == old(self)@.broadcast(message@, failed@.to_set()),
        decreases 2int,
    {
        let failed = self.deliver(&message);
        self.remove_failed(&failed);
        failed
    }

    /// Tells every registered connection how many connections are live at `now`, and for
    /// how long the server has been up. Returns the identifiers removed because the
    /// message could not be delivered to them.
    pub fn broadcast_connection_status_at(&mut self, now: Millis) -> (failed: Vec<ConnectionId>)
        requires
            old(self).wf(),
        ensures
            final(self).wf(),
            distinct_members(failed@, old(self)@.ids()),
            final(self)@ == old(self)@.announce(now, failed@.to_set()),
        decreases 3int,
    {
        let message = self.connection_status_message(now);
        self.broadcast_message(message)
    }

    /// Removes `connection_id`. If it was registered and `broadcast_status` is set, the
    /// remaining connections are told the new count; the result names those removed because
    /// that message could not be delivered to them. Removing an identifier that is not
    /// registered does nothing.
    fn remove_connection_internal(
        &mut self,
        connection_id: ConnectionId,
        broadcast_status: bool,
        now: Millis,
    ) -> (dropped: Vec<ConnectionId>)
        requires
            old(self).wf(),
        ensures
            final(self).wf(),
            distinct_members(dropped@, old(self)@.remove(connection_id).ids()),
            final(self)@ == (if broadcast_status {
                old(self)@.evict(connection_id, now, dropped@.to_set())
            } else {
                old(self)@.remove(connection_id)
            }),
            !(broadcast_status && old(self)@.ids().contains(connection_id)) ==> dropped@.len()
                == 0,
        decreases (if broadcast_status { 4int } else { 0int }),
    {
        let was_present = self.remove_entry(connection_id);
        if was_present && broadcast_status {
            self.broadcast_connection_status_at(now)
        } else {
            let dropped: Vec<ConnectionId> = Vec::new();
            proof {
                assert(dropped@.to_set() =~= Set::<ConnectionId>::empty());
                lemma_remove_idempotent(old(self)@, connection_id);
            }
            dropped
        }
    }

    /// Registers `connection_id` at `now` with its outbound channel, replacing an earlier
    /// entry under the same identifier, and then tells every registered connection the new
    /// count. Returns the identifiers removed because that message could not be delivered
    /// to them.
    pub fn add_connection_at(
        &mut self,
        connection_id: ConnectionId,
        sender: UnboundedSender<WebSocketMessage>,
        user_id: Option<String>,
        now: Millis,
    ) -> (dropped: Vec<ConnectionId>)
        requires
            old(self).wf(),
        ensures
            final(self).wf(),
            distinct_members(
                dropped@,
                old(self)@.register(connection_id, sender, user_id, now).ids(),
            ),
            final(self)@ == old(self)@.register(connection_id, sender, user_id, now).announce(
                now,
                dropped@.to_set(),
            ),
    {
        let info = ConnectionInfo {
            id: connection_id,
            connected_at: now,
            last_heartbeat: now,
            user_id,
        };
        let previous = self.connections.insert(connection_id, sender);
        self.connection_info.insert(connection_id, info);
        self.delivered = Ghost(self.delivered@.insert(connection_id, Seq::empty()));
        if previous.is_none() {
            assert(self.connections.len() == self.connections@.len());
            self.connected_count = self.connected_count + 1;
        }
        self.broadcast_connection_status_at(now)
    }

    /// Registers `connection_id` as of now; see [`Self::add_connection_at`].
    pub fn add_connection(
        &mut self,
        connection_id: ConnectionId,
        sender: UnboundedSender<WebSocketMessage>,
        user_id: Option<String>,
    ) -> (dropped: Vec<ConnectionId>)
        requires
            old(self).wf(),
        ensures
            final(self).wf(),
            exists|now: Millis|
                {
                    &&& distinct_members(
                        dropped@,
                        old(self)@.register(connection_id, sender, user_id, now).ids(),
                    )
                    &&& final(self)@ == old(self)@.register(
                        connection_id,
                        sender,
                        user_id,
                        now,
                    ).announce(now, dropped@.to_set())
                },
    {
        let now = self.now();
        self.add_connection_at(connection_id, sender, user_id, now)
    }

    /// Removes `connection_id` and, if it was registered, tells the remaining connections
    /// the new count, with the uptime as of `now`. Returns the identifiers removed because
    /// that message could not be delivered to them. Removing an identifier that is not
    /// registered does nothing.
    pub fn remove_connection_at(&mut self, connection_id: ConnectionId, now: Millis) -> (dropped:
        Vec<ConnectionId>)
        requires
            old(self).wf(),
        ensures
            final(self).wf(),
            distinct_members(dropped@, old(self)@.remove(connection_id).ids()),
            final(self)@ == old(self)@.evict(connection_id, now, dropped@.to_set()),
            !old(self)@.ids().contains(connection_id) ==> dropped@.len() == 0 && final(self)@
                == old(self)@,
    {
        self.remove_connection_internal(connection_id, true, now)
    }

    /// Removes `connection_id` as of now; see [`Self::remove_connection_at`].
    pub fn remove_connection(&mut self, connection_id: ConnectionId) -> (dropped: Vec<
        ConnectionId,
    >)
        requires
            old(self).wf(),
        ensures
            final(self).wf(),
            distinct_members(dropped@, old(self)@.remove(connection_id).ids()),
            exists|now: Millis|
                final(self)@ == old(self)@.evict(connection_id, now, dropped@.to_set()),
            !old(self)@.ids().contains(connection_id) ==> dropped@.len() == 0 && final(self)@
                == old(self)@,
    {
        let now = self.now();
        self.remove_connection_at(connection_id, now)
    }

    /// Tells every registered connection the live count and the uptime as of now; see
    /// [`Self::broadcast_connection_status_at`].
    pub fn broadcast_connection_status(&mut self) -> (failed: Vec<ConnectionId>)
        requires
            old(self).wf(),
        ensures
            final(self).wf(),
            distinct_members(failed@, old(self)@.ids()),
            exists|now: Millis| final(self)@ == old(self)@.announce(now, failed@.to_set()),
    {
        let now = self.now();
        self.broadcast_connection_status_at(now)
    }

    /// Sends every registered connection a heartbeat that carries the wall clock's present
    /// reading; see [`WebSocketMessage::heartbeat`] and [`Self::broadcast_message`].
    pub fn broadcast_heartbeat(&mut self) -> (failed: Vec<ConnectionId>)
        requires
            old(self).wf(),
        ensures
            final(self).wf(),
            distinct_members(failed@, old(self)@.ids()),
            exists|timestamp: u64, server_time: Seq<char>|
                final(self)@ == old(self)@.broadcast(
                    MessageView::Heartbeat { timestamp, server_time },
                    failed@.to_set(),
                ),
    {
        let reading = wall_clock_now();
        let message = WebSocketMessage::heartbeat(reading.millis, reading.rfc3339);
        let ghost sent = message@;
        let failed = self.broadcast_message(message);
        proof {
            assert(final(self)@ == old(self)@.broadcast(
                MessageView::Heartbeat {
                    timestamp: sent->timestamp,
                    server_time: sent->server_time,
                },
                failed@.to_set(),
            ));
        }
        failed
    }

    /// The connections that are silent at `now` for longer than `threshold`, each once.
    pub fn stale_connections(&self, now: Millis, threshold: Millis) -> (stale: Vec<ConnectionId>)
        requires
            self.wf(),
        ensures
            stale@.no_duplicates(),
            stale@.to_set() == self@.stale_ids(now, threshold),
    {
        let ids = self.connection_ids();
        let mut stale: Vec<ConnectionId> = Vec::new();
        let mut i: usize = 0;
        while i < ids.len()
            invariant
                i <= ids@.len(),
                self.wf(),
                ids@.no_duplicates(),
                ids@.to_set() == self@.ids(),
                stale@.no_duplicates(),
                forall|j: int|
                    0 <= j < stale@.len() ==> self@.stale_ids(now, threshold).contains(
                        #[trigger] stale@[j],
                    ) && ids@.subrange(0, i as int).contains(stale@[j]),
                forall|k: int|
                    0 <= k < i && self@.stale_ids(now, threshold).contains(#[trigger] ids@[k])
                        ==> stale@.contains(ids@[k]),
            decreases ids@.len() - i,
        {
            let connection_id = ids[i];
            let ghost before = stale@;
            proof {
                assert(ids@.to_set().contains(connection_id));
            }
            match self.connection_info.get(&connection_id) {
                Some(info) => {
                    if now > info.last_heartbeat && now - info.last_heartbeat > threshold {
                        assert(!stale@.contains(connection_id)) by {
                            if stale@.contains(connection_id) {
                                let j = choose|j: int|
                                    0 <= j < stale@.len() && stale@[j] == connection_id;
                                assert(ids@.subrange(0, i as int).contains(stale@[j]));
                            }
                        }
                        stale.push(connection_id);
                    }
                },
                None => {},
            }
            proof {
                assert forall|j: int| 0 <= j < stale@.len() implies ids@.subrange(
                    0,
                    i + 1,
                ).contains(#[trigger] stale@[j]) by {
                    if j < before.len() {
                        let k = choose|k: int|
                            0 <= k < i && ids@.subrange(0, i as int)[k] == stale@[j];
                        assert(ids@.subrange(0, i + 1)[k] == stale@[j]);
                    } else {
                        assert(ids@.subrange(0, i + 1)[i as int] == connection_id);
                    }
                }
                assert forall|k: int|
                    0 <= k < i + 1 && self@.stale_ids(now, threshold).contains(
                        #[trigger] ids@[k],
                    ) implies stale@.contains(ids@[k]) by {
                    if k < i {
                        let j = choose|j: int| 0 <= j < before.len() && before[j] == ids@[k];
                        assert(stale@[j] == ids@[k]);
                    } else {
                        assert(stale@[stale@.len() - 1] == connection_id);
                    }
                }
            }
            i = i + 1;
        }
        proof {
            assert forall|id: ConnectionId|
                self@.stale_ids(now, threshold).contains(id) implies stale@.to_set().contains(
                id,
            ) by {
                assert(ids@.to_set().contains(id));
                let k = choose|k: int| 0 <= k < ids@.len() && ids@[k] == id;
                assert(stale@.contains(ids@[k]));
            }
            assert(stale@.to_set() =~= self@.stale_ids(now, threshold));
        }
        stale
    }

    /// One cleanup pass at `now`: every connection silent for longer than `threshold` is
    /// removed, each removal announced to the connections that remain. A connection to
    /// which an announcement cannot be delivered is removed as well, quietly. The result
    /// has one eviction for each silent connection, in the order in which they were made.
    pub fn cleanup_stale_connections_at(&mut self, now: Millis, threshold: Millis) -> (evictions:
        Vec<Eviction>)
        requires
            old(self).wf(),
        ensures
            final(self).wf(),
            evicted_ids(evictions@).no_duplicates(),
            evicted_ids(evictions@).to_set() == old(self)@.stale_ids(now, threshold),
            final(self)@ == old(self)@.after_evictions(evictions@, now),
    {
        let stale = self.stale_connections(now, threshold);
        let mut evictions: Vec<Eviction> = Vec::new();
        let mut i: usize = 0;
        proof {
            assert(evicted_ids(evictions@) =~= stale@.subrange(0, 0));
        }
        while i < stale.len()
            invariant
                i <= stale@.len(),
                self.wf(),
                evictions@.len() == i,
                evicted_ids(evictions@) == stale@.subrange(0, i as int),
                self@ == old(self)@.after_evictions(evictions@, now),
            decreases stale@.len() - i,
        {
            let ghost earlier = evictions@;
            let dropped = self.remove_connection_internal(stale[i], true, now);
            evictions.push(Eviction { id: stale[i], dropped });
            proof {
                assert(evictions@.drop_last() =~= earlier);
                assert forall|j: int| 0 <= j < i + 1 implies evicted_ids(evictions@)[j]
                    == stale@[j] by {
                    if j < i {
                        assert(evicted_ids(earlier)[j] == stale@.subrange(0, i as int)[j]);
                        assert(evictions@[j] == earlier[j]);
                    }
                }
                assert(evicted_ids(evictions@) =~= stale@.subrange(0, i + 1));
            }
            i = i + 1;
        }
        proof {
            assert(stale@.subrange(0, stale@.len() as int) =~= stale@);
        }
        evictions
    }

    /// One cleanup pass as of now, with the reference threshold of
    /// [`STALE_THRESHOLD_MILLIS`]; see [`Self::cleanup_stale_connections_at`].
    pub fn cleanup_stale_connections(&mut self) -> (evictions: Vec<Eviction>)
        requires
            old(self).wf(),
        ensures
            final(self).wf(),
            evicted_ids(evictions@).no_duplicates(),
            exists|now: Millis|
                {
                    &&& evicted_ids(evictions@).to_set() == old(self)@.stale_ids(
                        now,
                        STALE_THRESHOLD_MILLIS,
                    )
                    &&& final(self)@ == old(self)@.after_evictions(evictions@, now)
                },
    {
        let now = self.now();
        self.cleanup_stale_connections_at(now, STALE_THRESHOLD_MILLIS)
    }
}

impl Default for ConnectionManager {
    /// An empty registry whose clock starts now.
    fn default() -> (manager: Self)
        ensures
            manager.wf(),
            manager@.ids() == Set::<ConnectionId>::empty(),
    {
        Self::new()
    }
}

/// Registering and removing keep a registry well formed, and change the number of
/// registered identifiers by one exactly when the set of them changes: whatever sequence
/// of the two a registry has gone through, counting along gives the number registered.
pub proof fn lemma_membership_changes(
    view: RegistryView,
    id: ConnectionId,
    sender: UnboundedSender<WebSocketMessage>,
    user_id: Option<String>,
    now: Millis,
)
    requires
        view.wf(),
    ensures
        view.register(id, sender, user_id, now).wf(),
        view.register(id, sender, user_id, now).ids() == view.ids().insert(id),
        view.register(id, sender, user_id, now).ids().len() == view.ids().len() + (if view.ids(
        ).contains(id) {
            0int
        } else {
            1int
        }),
        view.remove(id).wf(),
        view.remove(id).ids() == view.ids().remove(id),
        view.remove(id).ids().len() == view.ids().len() - (if view.ids().contains(id) {
            1int
        } else {
            0int
        }),
{
    let added = view.register(id, sender, user_id, now);
    assert(added.channels.dom() =~= added.entries.dom());
    assert(added.outbox.dom() =~= added.entries.dom());
    assert(added.ids() =~= view.ids().insert(id));
    let removed = view.remove(id);
    assert(removed.channels.dom() =~= removed.entries.dom());
    assert(removed.outbox.dom() =~= removed.entries.dom());
    assert(removed.ids() =~= view.ids().remove(id));
}

/// Removing an identifier twice is removing it once, and removing one that is not
/// registered changes nothing.
pub proof fn lemma_remove_idempotent(view: RegistryView, id: ConnectionId)
    requires
        view.wf(),
    ensures
        view.remove(id).remove(id) == view.remove(id),
        !view.ids().contains(id) ==> view.remove(id) == view,
        !view.ids().contains(id) ==> forall|now: Millis, refused: Set<ConnectionId>|
            view.evict(id, now, refused) == view,
{
    assert(view.entries.remove(id).remove(id) =~= view.entries.remove(id));
    assert(view.channels.remove(id).remove(id) =~= view.channels.remove(id));
    assert(view.outbox.remove(id).remove(id) =~= view.outbox.remove(id));
    if !view.ids().contains(id) {
        assert(view.entries.remove(id) =~= view.entries);
        assert(view.channels.remove(id) =~= view.channels);
        assert(view.outbox.remove(id) =~= view.outbox);
    }
}

/// A broadcast reaches every registered connection whose channel takes the message: the
/// message is the last on its channel, after all that was there before, and the
/// connection stays registered as it was.
pub proof fn lemma_broadcast_reaches_the_registered(
    view: RegistryView,
    message: MessageView,
    refused: Set<ConnectionId>,
    id: ConnectionId,
)
    requires
        view.wf(),
        view.ids().contains(id),
        !refused.contains(id),
    ensures
        view.broadcast(message, refused).ids().contains(id),
        view.broadcast(message, refused).outbox[id] == view.outbox[id].push(message),
        view.broadcast(message, refused).entries[id] == view.entries[id],
        view.broadcast(message, refused).channels[id] == view.channels[id],
{
}

/// A broadcast removes every connection whose channel does not take the message, and the
/// number of registered connections goes down by the number of those.
pub proof fn lemma_broadcast_drops_the_refused(
    view: RegistryView,
    message: MessageView,
    refused: Seq<ConnectionId>,
)
    requires
        view.wf(),
        distinct_members(refused, view.ids()),
    ensures
        view.broadcast(message, refused.to_set()).wf(),
        view.broadcast(message, refused.to_set()).ids() == view.ids().difference(refused.to_set()),
        view.broadcast(message, refused.to_set()).ids().len() == view.ids().len() - refused.len(),
{
    let after = view.broadcast(message, refused.to_set());
    assert(after.channels.dom() =~= after.entries.dom());
    assert(after.outbox.dom() =~= after.entries.dom());
    assert(after.ids() =~= view.ids().difference(refused.to_set()));
    refused.unique_seq_to_set();
    assert(view.ids().intersect(refused.to_set()) =~= refused.to_set());
    vstd::set_lib::lemma_set_difference_len(view.ids(), refused.to_set());
}

/// A connection that registers and is then broadcast to, with every channel taking what
/// is put on it, has on its channel the status that announced it and then the message.
pub proof fn lemma_first_messages_of_a_connection(
    view: RegistryView,
    id: ConnectionId,
    sender: UnboundedSender<WebSocketMessage>,
    user_id: Option<String>,
    now: Millis,
    message: MessageView,
)
    requires
        view.wf(),
    ensures
        ({
            let registered = view.register(id, sender, user_id, now);
            let none = Set::<ConnectionId>::empty();
            registered.announce(now, none).broadcast(message, none).outbox[id] == seq![
                registered.status_message(now),
                message,
            ]
        }),
{
    let registered = view.register(id, sender, user_id, now);
    let none = Set::<ConnectionId>::empty();
    let announced = registered.announce(now, none);
    assert(announced.outbox[id] =~= seq![registered.status_message(now)]);
    assert(announced.broadcast(message, none).outbox[id] =~= seq![
        registered.status_message(now),
        message,
    ]);
}

/// A connection that was just heard from is not silent, however little silence is
/// tolerated; one that registered and was not heard from since is silent once more time
/// has passed than is tolerated.
pub proof fn lemma_silence(
    view: RegistryView,
    id: ConnectionId,
    sender: UnboundedSender<WebSocketMessage>,
    user_id: Option<String>,
    heard: Millis,
    now: Millis,
    threshold: Millis,
)
    requires
        view.wf(),
    ensures
        view.ids().contains(id) ==> !view.touch(id, now).stale_ids(now, threshold).contains(id),
        view.register(id, sender, user_id, heard).stale_ids(now, threshold).contains(id) <==> now
            - heard > threshold,
{
}

/// What a cleanup pass leaves: the registry is well formed, none of the connections it
/// evicted is registered, and every connection still registered was registered before,
/// with the metadata and the channel it has.
pub proof fn lemma_cleanup_membership(view: RegistryView, evictions: Seq<Eviction>, now: Millis)
    requires
        view.wf(),
    ensures
        view.after_evictions(evictions, now).wf(),
        forall|i: int|
            0 <= i < evictions.len() ==> !view.after_evictions(evictions, now).ids().contains(
                (#[trigger] evictions[i]).id,
            ),
        forall|id: ConnectionId| #[trigger]
            view.after_evictions(evictions, now).ids().contains(id) ==> {
                &&& view.ids().contains(id)
                &&& view.after_evictions(evictions, now).entries[id] == view.entries[id]
                &&& view.after_evictions(evictions, now).channels[id] == view.channels[id]
            },
    decreases evictions.len(),
{
    if evictions.len() > 0 {
        let earlier = evictions.drop_last();
        let last = evictions.last();
        lemma_cleanup_membership(view, earlier, now);
        let before = view.after_evictions(earlier, now);
        let after = before.evict(last.id, now, last.dropped@.to_set());
        if before.ids().contains(last.id) {
            assert(after.ids() =~= before.ids().remove(last.id).difference(
                last.dropped@.to_set(),
            ));
        }
        assert(after.channels.dom() =~= after.entries.dom());
        assert(after.outbox.dom() =~= after.entries.dom());
        assert forall|i: int| 0 <= i < evictions.len() implies !after.ids().contains(
            (#[trigger] evictions[i]).id,
        ) by {
            if i < earlier.len() {
                assert(earlier[i] == evictions[i]);
            }
        }
    }
}

/// A cleanup pass in which every announcement is delivered removes exactly the connections
/// that were silent for too long: none of them is left, and every other connection is
/// left with the metadata and the channel it had.
pub proof fn lemma_cleanup_is_exact(
    view: RegistryView,
    evictions: Seq<Eviction>,
    now: Millis,
    threshold: Millis,
)
    requires
        view.wf(),
        evicted_ids(evictions).to_set() == view.stale_ids(now, threshold),
        forall|i: int| 0 <= i < evictions.len() ==> (#[trigger] evictions[i]).dropped@.len() == 0,
    ensures
        view.after_evictions(evictions, now).ids() == view.ids().difference(
            view.stale_ids(now, threshold),
        ),
        view.after_evictions(evictions, now).stale_ids(now, threshold) == Set::<
            ConnectionId,
        >::empty(),
        forall|id: ConnectionId|
            #![trigger view.entries[id]]
            view.ids().contains(id) && !is_stale(view.entries[id].last_heartbeat, now, threshold)
                ==> {
                let swept = view.after_evictions(evictions, now);
                &&& swept.ids().contains(id)
                &&& swept.entries[id] == view.entries[id]
                &&& swept.channels[id] == view.channels[id]
            },
{
    lemma_evictions_without_drops(view, evictions, now);
    let swept = view.after_evictions(evictions, now);
    assert(swept.ids() =~= view.ids().difference(view.stale_ids(now, threshold)));
    assert(swept.stale_ids(now, threshold) =~= Set::<ConnectionId>::empty());
}

/// Where nothing was dropped along the way, the evictions removed just the connections
/// they were made for.
proof fn lemma_evictions_without_drops(view: RegistryView, evictions: Seq<Eviction>, now: Millis)
    requires
        view.wf(),
        forall|i: int| 0 <= i < evictions.len() ==> (#[trigger] evictions[i]).dropped@.len() == 0,
    ensures
        view.after_evictions(evictions, now).entries == view.entries.remove_keys(
            evicted_ids(evictions).to_set(),
        ),
        view.after_evictions(evictions, now).channels == view.channels.remove_keys(
            evicted_ids(evictions).to_set(),
        ),
    decreases evictions.len(),
{
    if evictions.len() == 0 {
        assert(evicted_ids(evictions).to_set() =~= Set::<ConnectionId>::empty());
        assert(view.entries.remove_keys(Set::<ConnectionId>::empty()) =~= view.entries);
        assert(view.channels.remove_keys(Set::<ConnectionId>::empty()) =~= view.channels);
    } else {
        let earlier = evictions.drop_last();
        let last = evictions.last();
        assert forall|i: int| 0 <= i < earlier.len() implies (#[trigger] earlier[i]).dropped@.len()
            == 0 by {
            assert(earlier[i] == evictions[i]);
        }
        lemma_evictions_without_drops(view, earlier, now);
        assert(last == evictions[evictions.len() - 1]);
        assert(last.dropped@.to_set() =~= Set::<ConnectionId>::empty());
        let all = evicted_ids(evictions);
        let most = evicted_ids(earlier);
        assert forall|x: ConnectionId| all.to_set().contains(x) <==> (most.to_set().contains(x)
            || x == last.id) by {
            if all.contains(x) {
                let k = choose|k: int| 0 <= k < all.len() && all[k] == x;
                if k < most.len() {
                    assert(most[k] == x);
                }
            }
            if most.contains(x) {
                let k = choose|k: int| 0 <= k < most.len() && most[k] == x;
                assert(all[k] == x);
            }
            if x == last.id {
                assert(all[all.len() - 1] == x);
            }
        }
        let before = view.after_evictions(earlier, now);
        let after = before.evict(last.id, now, last.dropped@.to_set());
        assert(after.entries =~= view.entries.remove_keys(all.to_set()));
        assert(after.channels =~= view.channels.remove_keys(all.to_set()));
    }
}

/// Removing nothing changes nothing.
proof fn lemma_remove_none(view: RegistryView)
    ensures
        view.remove_all(Set::<ConnectionId>::empty()) == view,
{
    assert(view.entries.remove_keys(Set::<ConnectionId>::empty()) =~= view.entries);
    assert(view.channels.remove_keys(Set::<ConnectionId>::empty()) =~= view.channels);
    assert(view.outbox.remove_keys(Set::<ConnectionId>::empty()) =~= view.outbox);
}

/// Removing a set and then one more identifier removes the set with that identifier added.
proof fn lemma_remove_all_then_remove(view: RegistryView, gone: Set<ConnectionId>, id: ConnectionId)
    ensures
        view.remove_all(gone).remove(id) == view.remove_all(gone.insert(id)),
{
    assert(view.entries.remove_keys(gone).remove(id) =~= view.entries.remove_keys(gone.insert(id)));
    assert(view.channels.remove_keys(gone).remove(id) =~= view.channels.remove_keys(
        gone.insert(id),
    ));
    assert(view.outbox.remove_keys(gone).remove(id) =~= view.outbox.remove_keys(gone.insert(id)));
}

/// The first `i + 1` elements are, as a set, the first `i` with the next one added.
proof fn lemma_subrange_to_set_step(s: Seq<ConnectionId>, i: int)
    requires
        0 <= i < s.len(),
    ensures
        s.subrange(0, i + 1).to_set() == s.subrange(0, i).to_set().insert(s[i]),
{
    let longer = s.subrange(0, i + 1);
    let shorter = s.subrange(0, i);
    assert forall|x: ConnectionId| longer.to_set().contains(x) <==> shorter.to_set().insert(
        s[i],
    ).contains(x) by {
        if longer.contains(x) {
            let k = choose|k: int| 0 <= k < longer.len() && longer[k] == x;
            if k < i {
                assert(shorter[k] == x);
            }
        }
        if shorter.contains(x) {
            let k = choose|k: int| 0 <= k < shorter.len() && shorter[k] == x;
            assert(longer[k] == x);
        }
        if x == s[i] {
            assert(longer[i] == x);
        }
    }
    assert(longer.to_set() =~= shorter.to_set().insert(s[i]));
}

} // verus!
