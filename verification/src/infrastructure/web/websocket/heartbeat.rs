//! What a connection's pump and the background service decide: how an inbound frame acts
//! on the registry, and what each tick of the service does.

use super::connection_manager::{
    distinct_members, evicted_ids, ConnectionId, ConnectionManager, Eviction, MessageView, Millis,
    RegistryView, WebSocketMessage, STALE_THRESHOLD_MILLIS,
};
use super::wire::{decode, decode_spec, encode, encode_spec, DecodeError};
use tokio::sync::mpsc::UnboundedSender;
use vstd::prelude::*;

verus! {

/// Seconds between two heartbeats.
pub const HEARTBEAT_INTERVAL_SECS: u64 = 30;

/// Seconds between two cleanup passes.
pub const CLEANUP_INTERVAL_SECS: u64 = 60;

/// What the transport handed to the inbound flow of a connection.
#[derive(Debug, Clone, PartialEq, Eq)]
pub enum InboundFrame {
    /// A text frame with its content.
    Text(String),
    /// A binary frame.
    Binary,
    /// A protocol-level ping.
    Ping,
    /// A protocol-level pong.
    Pong,
    /// The peer closed the connection.
    Close,
    /// The transport reported an error.
    Failed,
}

/// Whether a flow goes on after an event.
#[derive(Debug, Clone, Copy, PartialEq, Eq)]
pub enum Flow {
    Continue,
    Stop,
}

/// The registry after the text `text` arrived on `connection_id` at `now`: a `Pong`
/// refreshes the connection's heartbeat, anything else leaves the registry as it was.
pub open spec fn after_client_message(
    before: RegistryView,
    text: Seq<char>,
    connection_id: ConnectionId,
    now: Millis,
) -> RegistryView {
    match decode_spec(text) {
        Ok(MessageView::Pong) => before.touch(connection_id, now),
        _ => before,
    }
}

/// Acts on a text frame that arrived on `connection_id` at `now`. A text that is no
/// message is reported and changes nothing.
pub fn handle_client_message_at(
    text: &str,
    connection_id: ConnectionId,
    connection_manager: &mut ConnectionManager,
    now: Millis,
) -> (result: Result<(), DecodeError>)
    requires
        old(connection_manager).wf(),
    ensures
        final(connection_manager).wf(),
        final(connection_manager)@ == after_client_message(
            old(connection_manager)@,
            text@,
            connection_id,
            now,
        ),
        match decode_spec(text@) {
            Ok(_) => result is Ok,
            Err(error) => result == Err::<(), DecodeError>(error),
        },
{
    match decode(text) {
        Ok(message) => {
            match message {
                WebSocketMessage::Pong => {
                    connection_manager.update_last_heartbeat_at(connection_id, now);
                },
                _ => {},
            }
            Ok(())
        },
        Err(error) => Err(error),
    }
}

/// Acts on a text frame that arrived on `connection_id` just now; see
/// [`handle_client_message_at`].
pub fn handle_client_message(
    text: &str,
    connection_id: ConnectionId,
    connection_manager: &mut ConnectionManager,
) -> (result: Result<(), DecodeError>)
    requires
        old(connection_manager).wf(),
    ensures
        final(connection_manager).wf(),
        exists|now: Millis|
            final(connection_manager)@ == after_client_message(
                old(connection_manager)@,
                text@,
                connection_id,
                now,
            ),
        match decode_spec(text@) {
            Ok(_) => result is Ok,
            Err(error) => result == Err::<(), DecodeError>(error),
        },
{
    let now = connection_manager.now();
    handle_client_message_at(text, connection_id, connection_manager, now)
}

/// The registry after `frame` arrived on `connection_id` at `now`.
pub open spec fn after_frame(
    before: RegistryView,
    frame: InboundFrame,
    connection_id: ConnectionId,
    now: Millis,
) -> RegistryView {
    match frame {
        InboundFrame::Text(text) => after_client_message(before, text@, connection_id, now),
        InboundFrame::Ping => before.touch(connection_id, now),
        _ => before,
    }
}

/// Whether the inbound flow goes on after `frame`: it ends when the peer closes and when
/// the transport fails, and on nothing else.
pub open spec fn flow_after(frame: InboundFrame) -> Flow {
    match frame {
        InboundFrame::Close | InboundFrame::Failed => Flow::Stop,
        _ => Flow::Continue,
    }
}

/// Acts on a frame that arrived on `connection_id` at `now`, and says whether the inbound
/// flow goes on. A text that is no message is dropped; it does not end the flow.
pub fn handle_frame_at(
    frame: &InboundFrame,
    connection_id: ConnectionId,
    connection_manager: &mut ConnectionManager,
    now: Millis,
) -> (flow: Flow)
    requires
        old(connection_manager).wf(),
    ensures
        final(connection_manager).wf(),
        final(connection_manager)@ == after_frame(
            old(connection_manager)@,
            *frame,
            connection_id,
            now,
        ),
        flow == flow_after(*frame),
{
    match frame {
        InboundFrame::Text(text) => {
            let _ = handle_client_message_at(text.as_str(), connection_id, connection_manager, now);
            Flow::Continue
        },
        InboundFrame::Ping => {
            connection_manager.update_last_heartbeat_at(connection_id, now);
            Flow::Continue
        },
        InboundFrame::Close => Flow::Stop,
        InboundFrame::Failed => Flow::Stop,
        InboundFrame::Binary => Flow::Continue,
        InboundFrame::Pong => Flow::Continue,
    }
}

/// Acts on a frame that arrived on `connection_id` just now; see [`handle_frame_at`].
pub fn handle_frame(
    frame: &InboundFrame,
    connection_id: ConnectionId,
    connection_manager: &mut ConnectionManager,
) -> (flow: Flow)
    requires
        old(connection_manager).wf(),
    ensures
        final(connection_manager).wf(),
        exists|now: Millis|
            final(connection_manager)@ == after_frame(
                old(connection_manager)@,
                *frame,
                connection_id,
                now,
            ),
        flow == flow_after(*frame),
{
    let now = connection_manager.now();
    handle_frame_at(frame, connection_id, connection_manager, now)
}

/// What can happen to a connection while its two flows run.
#[derive(Debug)]
pub enum PumpEvent {
    /// The transport handed over a frame.
    Inbound(InboundFrame),
    /// The connection's channel handed over a message that the registry had put on it.
    Outbound(WebSocketMessage),
    /// The connection's channel is closed: the registry has removed the connection.
    ChannelClosed,
    /// Writing to the transport failed.
    WriteFailed,
}

/// What is to be done after an event.
#[derive(Debug)]
pub enum PumpAction {
    /// Nothing but to wait for the next event.
    Wait,
    /// This text is to be written to the transport.
    Write(String),
    /// Both flows are to end. The connection is removed from the registry; `dropped` are
    /// the connections removed because the announcement of that could not be delivered to
    /// them.
    Close { dropped: Vec<ConnectionId> },
}

/// Whether `event` ends the connection: the peer closed, the transport failed on reading
/// or on writing, or the channel is closed.
pub open spec fn ends_connection(event: PumpEvent) -> bool {
    match event {
        PumpEvent::Inbound(frame) => flow_after(frame) == Flow::Stop,
        PumpEvent::Outbound(_) => false,
        PumpEvent::ChannelClosed => true,
        PumpEvent::WriteFailed => true,
    }
}

/// The registry after `event` happened to `connection_id` at `now`, before anything is
/// torn down: only an inbound frame acts on it.
pub open spec fn after_event(
    before: RegistryView,
    event: PumpEvent,
    connection_id: ConnectionId,
    now: Millis,
) -> RegistryView {
    match event {
        PumpEvent::Inbound(frame) => after_frame(before, frame, connection_id, now),
        _ => before,
    }
}

/// The two flows of one connection, seen as one: it is open from registration until the
/// first event that ends it, at which the connection is removed from the registry, once.
pub struct ConnectionPump {
    connection_id: ConnectionId,
    open: bool,
}

impl ConnectionPump {
    /// The connection that the pump serves.
    pub closed spec fn id(&self) -> ConnectionId {
        self.connection_id
    }

    /// Whether the flows still run.
    pub closed spec fn is_open(&self) -> bool {
        self.open
    }

    /// Registers `connection_id` at `now` and gives the pump that serves it, with the
    /// connections removed because the announcement could not be delivered to them.
    pub fn start_at(
        connection_manager: &mut ConnectionManager,
        connection_id: ConnectionId,
        sender: UnboundedSender<WebSocketMessage>,
        user_id: Option<String>,
        now: Millis,
    ) -> (started: (Self, Vec<ConnectionId>))
        requires
            old(connection_manager).wf(),
        ensures
            final(connection_manager).wf(),
            started.0.id() == connection_id,
            started.0.is_open(),
            distinct_members(
                started.1@,
                old(connection_manager)@.register(connection_id, sender, user_id, now).ids(),
            ),
            final(connection_manager)@ == old(connection_manager)@.register(
                connection_id,
                sender,
                user_id,
                now,
            ).announce(now, started.1@.to_set()),
    {
        let dropped = connection_manager.add_connection_at(connection_id, sender, user_id, now);
        (ConnectionPump { connection_id, open: true }, dropped)
    }

    /// Registers `connection_id` as of now; see [`Self::start_at`].
    pub fn start(
        connection_manager: &mut ConnectionManager,
        connection_id: ConnectionId,
        sender: UnboundedSender<WebSocketMessage>,
        user_id: Option<String>,
    ) -> (started: (Self, Vec<ConnectionId>))
        requires
            old(connection_manager).wf(),
        ensures
            final(connection_manager).wf(),
            started.0.id() == connection_id,
            started.0.is_open(),
            exists|now: Millis|
                {
                    &&& distinct_members(
                        started.1@,
                        old(connection_manager)@.register(
                            connection_id,
                            sender,
                            user_id,
                            now,
                        ).ids(),
                    )
                    &&& final(connection_manager)@ == old(connection_manager)@.register(
                        connection_id,
                        sender,
                        user_id,
                        now,
                    ).announce(now, started.1@.to_set())
                },
    {
        let now = connection_manager.now();
        Self::start_at(connection_manager, connection_id, sender, user_id, now)
    }

    /// Whether the flows still run.
    pub fn open(&self) -> (open: bool)
        ensures
            open == self.is_open(),
    {
        self.open
    }

    /// The connection that the pump serves.
    pub fn connection_id(&self) -> (connection_id: ConnectionId)
        ensures
            connection_id == self.id(),
    {
        self.connection_id
    }

    /// Acts on `event` at `now` and says what is to be done. An inbound frame acts on the
    /// registry as [`handle_frame_at`] has it, an outbound message is to be written as
    /// text. The first event that ends the connection closes the pump and removes the
    /// connection from the registry; once closed, the pump leaves the registry alone
    /// whatever happens.
    pub fn on_event_at(
        &mut self,
        connection_manager: &mut ConnectionManager,
        event: &PumpEvent,
        now: Millis,
    ) -> (action: PumpAction)
        requires
            old(connection_manager).wf(),
        ensures
            final(connection_manager).wf(),
            final(self).id() == old(self).id(),
            pump_step(
                old(self).is_open(),
                old(self).id(),
                old(connection_manager)@,
                *event,
                now,
                action,
                final(self).is_open(),
                final(connection_manager)@,
            ),
    {
        if !self.open {
            return PumpAction::Close { dropped: Vec::new() };
        }
        let ends = match event {
            PumpEvent::Inbound(frame) => {
                match handle_frame_at(frame, self.connection_id, connection_manager, now) {
                    Flow::Stop => true,
                    Flow::Continue => false,
                }
            },
            PumpEvent::Outbound(message) => {
                return PumpAction::Write(encode(message));
            },
            PumpEvent::ChannelClosed => true,
            PumpEvent::WriteFailed => true,
        };
        if ends {
            self.open = false;
            let dropped = connection_manager.remove_connection_at(self.connection_id, now);
            PumpAction::Close { dropped }
        } else {
            PumpAction::Wait
        }
    }

    /// Acts on `event` as of now; see [`Self::on_event_at`].
    pub fn on_event(&mut self, connection_manager: &mut ConnectionManager, event: &PumpEvent) -> (action:
        PumpAction)
        requires
            old(connection_manager).wf(),
        ensures
            final(connection_manager).wf(),
            final(self).id() == old(self).id(),
            exists|now: Millis|
                pump_step(
                    old(self).is_open(),
                    old(self).id(),
                    old(connection_manager)@,
                    *event,
                    now,
                    action,
                    final(self).is_open(),
                    final(connection_manager)@,
                ),
    {
        let now = connection_manager.now();
        self.on_event_at(connection_manager, event, now)
    }
}

/// Whether a pump for `connection_id` that was open or not as `was_open` says, facing
/// `event` at `now` with the registry `before`, owes `action`, and leaves itself open or
/// not as `is_open` says and the registry as `after`.
pub open spec fn pump_step(
    was_open: bool,
    connection_id: ConnectionId,
    before: RegistryView,
    event: PumpEvent,
    now: Millis,
    action: PumpAction,
    is_open: bool,
    after: RegistryView,
) -> bool {
    if !was_open {
        &&& !is_open
        &&& after == before
        &&& action matches PumpAction::Close { dropped }
        &&& dropped@.len() == 0
    } else if ends_connection(event) {
        let acted = after_event(before, event, connection_id, now);
        &&& !is_open
        &&& action matches PumpAction::Close { dropped }
        &&& distinct_members(dropped@, acted.remove(connection_id).ids())
        &&& after == acted.evict(connection_id, now, dropped@.to_set())
    } else {
        &&& is_open
        &&& after == after_event(before, event, connection_id, now)
        &&& match event {
            PumpEvent::Outbound(message) => action matches PumpAction::Write(text) && text@
                == encode_spec(message@),
            _ => action is Wait,
        }
    }
}

/// A connection is removed by its pump once: the event that ends it removes it, and no
/// event after that changes the registry, whatever it is.
pub proof fn lemma_pump_removes_once(
    connection_id: ConnectionId,
    before: RegistryView,
    first: PumpEvent,
    first_action: PumpAction,
    between: RegistryView,
    then_open: bool,
    second: PumpEvent,
    second_action: PumpAction,
    after: RegistryView,
    finally_open: bool,
    now: Millis,
    later: Millis,
)
    requires
        before.wf(),
        ends_connection(first),
        pump_step(true, connection_id, before, first, now, first_action, then_open, between),
        pump_step(
            then_open,
            connection_id,
            between,
            second,
            later,
            second_action,
            finally_open,
            after,
        ),
    ensures
        !between.ids().contains(connection_id),
        after == between,
        !finally_open,
{
}

/// Which of the background service's two timers fired.
#[derive(Debug, Clone, Copy, PartialEq, Eq)]
pub enum ServiceTick {
    /// Due every [`HEARTBEAT_INTERVAL_SECS`].
    Heartbeat,
    /// Due every [`CLEANUP_INTERVAL_SECS`].
    Cleanup,
}

/// What one step of the background service did.
#[derive(Debug)]
pub enum TickReport {
    /// A heartbeat was sent; `dropped` are the connections it could not be delivered to,
    /// which were removed for it.
    Heartbeat { dropped: Vec<ConnectionId> },
    /// A cleanup pass was made, with these evictions.
    Cleanup { evictions: Vec<Eviction> },
}

/// Whether `report` and the registry `after` are what a step for `tick` owes on the
/// registry `before`: a heartbeat tick broadcasts one heartbeat, a cleanup tick evicts the
/// connections silent for longer than [`STALE_THRESHOLD_MILLIS`] at some moment.
pub open spec fn tick_outcome(
    before: RegistryView,
    tick: ServiceTick,
    report: TickReport,
    after: RegistryView,
) -> bool {
    match tick {
        ServiceTick::Heartbeat => {
            &&& report matches TickReport::Heartbeat { dropped }
            &&& distinct_members(dropped@, before.ids())
            &&& exists|timestamp: u64, server_time: Seq<char>|
                after == before.broadcast(
                    MessageView::Heartbeat { timestamp, server_time },
                    dropped@.to_set(),
                )
        },
        ServiceTick::Cleanup => {
            &&& report matches TickReport::Cleanup { evictions }
            &&& evicted_ids(evictions@).no_duplicates()
            &&& exists|now: Millis|
                {
                    &&& evicted_ids(evictions@).to_set() == before.stale_ids(
                        now,
                        STALE_THRESHOLD_MILLIS,
                    )
                    &&& after == before.after_evictions(evictions@, now)
                }
        },
    }
}

/// One step of the background service: a heartbeat tick sends every connection a
/// heartbeat, a cleanup tick removes the connections that have been silent for longer than
/// [`STALE_THRESHOLD_MILLIS`].
pub fn run_service_tick(connection_manager: &mut ConnectionManager, tick: ServiceTick) -> (report:
    TickReport)
    requires
        old(connection_manager).wf(),
    ensures
        final(connection_manager).wf(),
        tick_outcome(old(connection_manager)@, tick, report, final(connection_manager)@),
{
    match tick {
        ServiceTick::Heartbeat => {
            let dropped = connection_manager.broadcast_heartbeat();
            TickReport::Heartbeat { dropped }
        },
        ServiceTick::Cleanup => {
            let evictions = connection_manager.cleanup_stale_connections();
            TickReport::Cleanup { evictions }
        },
    }
}

} // verus!
