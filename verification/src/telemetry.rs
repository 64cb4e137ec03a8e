//! The telemetry bridge between the controller and the wireless link.
//!
//! The bridge holds what the link exposes: the values of the plant service's
//! characteristics, the state of the connection, and the latest moisture
//! reading. Status travels by overwriting: a reader finds the value that is
//! current, never a backlog. Commands written by the peer travel the other
//! way, as events through the mailbox.
//!
//! A remote write is handled inside a callback that cannot wait. If the
//! mailbox is full at that moment the command is not queued; the reaction
//! names it so that the caller can log the loss.

use vstd::prelude::*;
use embassy_sync::blocking_mutex::raw::NoopRawMutex;
use embassy_sync::signal::Signal;
use crate::event::Event;
use crate::mailbox::{push_model, Mailbox};

verus! {

/// The characteristics of the plant service, by their current values.
#[derive(Clone, Copy, Debug, PartialEq, Eq, Structural)]
pub struct PlantService {
    /// Written by the peer: non-zero starts a watering, zero stops it.
    pub pump_control: u8,
    /// Read by the peer: the latest moisture reading.
    pub moisture_level: u16,
    /// Written by the peer: the threshold to use from now on.
    pub threshold: u16,
}

/// The attribute server: the services the device offers.
#[derive(Clone, Copy, Debug, PartialEq, Eq, Structural)]
pub struct Server {
    pub plant_service: PlantService,
}

/// Something the peer did to the plant service.
#[derive(Clone, Copy, Debug, PartialEq, Eq, Structural)]
pub enum PlantServiceEvent {
    /// The pump-control characteristic was written.
    PumpControlWrite(u8),
    /// The peer switched notifications of the moisture level on or off.
    MoistureLevelCccdWrite { notifications: bool },
    /// The threshold characteristic was written.
    ThresholdWrite(u16),
}

/// Something the peer did to the server.
#[derive(Clone, Copy, Debug, PartialEq, Eq, Structural)]
pub enum ServerEvent {
    PlantService(PlantServiceEvent),
}

/// The most recent state of the wireless link.
#[derive(Clone, Copy, Debug, PartialEq, Eq, Structural)]
pub enum ConnectionState {
    /// A peer is connected; the number is the handle of the connection.
    Connected(u16),
    Disconnected,
}

/// What happened on the link.
#[derive(Clone, Copy, Debug, PartialEq, Eq, Structural)]
pub enum LinkInput {
    /// Advertising ended with a connection under the given handle.
    Connected(u16),
    /// Advertising failed.
    AdvertiseFailed,
    /// The peer wrote to the server.
    Write(ServerEvent),
    /// The connection ended.
    Disconnected,
}

/// What the link task has to do next.
#[derive(Clone, Copy, Debug, PartialEq, Eq, Structural)]
pub enum LinkRequest {
    /// Advertise until a peer connects.
    Advertise,
    /// Serve the connection with the given handle until it ends.
    Serve(u16),
}

/// The bridge's answer to one link input.
#[derive(Clone, Copy, Debug, PartialEq, Eq, Structural)]
pub struct LinkReaction {
    /// The new state of the connection, if it changed.
    pub announce: Option<ConnectionState>,
    /// The command that was queued for the controller.
    pub queued: Option<Event>,
    /// The command that found the mailbox full and was not queued.
    pub refused: Option<Event>,
    /// What to do next.
    pub next: LinkRequest,
}

/// The command that a remote write stands for.
pub open spec fn command_of(write: ServerEvent) -> Option<Event> {
    match write {
        ServerEvent::PlantService(PlantServiceEvent::PumpControlWrite(value)) => if value > 0 {
            Some(Event::Water)
        } else {
            Some(Event::WateringComplete)
        },
        ServerEvent::PlantService(PlantServiceEvent::ThresholdWrite(value)) => Some(
            Event::SetThreshold(value),
        ),
        ServerEvent::PlantService(PlantServiceEvent::MoistureLevelCccdWrite { .. }) => None,
    }
}

/// The server after a remote write: the written characteristic holds the new
/// value.
pub open spec fn server_after(server: Server, write: ServerEvent) -> Server {
    match write {
        ServerEvent::PlantService(PlantServiceEvent::PumpControlWrite(value)) => Server {
            plant_service: PlantService { pump_control: value, ..server.plant_service },
        },
        ServerEvent::PlantService(PlantServiceEvent::ThresholdWrite(value)) => Server {
            plant_service: PlantService { threshold: value, ..server.plant_service },
        },
        ServerEvent::PlantService(PlantServiceEvent::MoistureLevelCccdWrite { .. }) => server,
    }
}

/// The request that goes with a connection state.
pub open spec fn link_request_for(link: ConnectionState) -> LinkRequest {
    match link {
        ConnectionState::Connected(handle) => LinkRequest::Serve(handle),
        ConnectionState::Disconnected => LinkRequest::Advertise,
    }
}

/// The command that a remote write stands for, if it is one.
pub fn command_for_write(write: ServerEvent) -> (command: Option<Event>)
    ensures
        command == command_of(write),
{
    match write {
        ServerEvent::PlantService(PlantServiceEvent::PumpControlWrite(value)) => {
            if value > 0 {
                Some(Event::Water)
            } else {
                Some(Event::WateringComplete)
            }
        },
        ServerEvent::PlantService(PlantServiceEvent::ThresholdWrite(value)) => Some(
            Event::SetThreshold(value),
        ),
        ServerEvent::PlantService(PlantServiceEvent::MoistureLevelCccdWrite { .. }) => None,
    }
}

impl Server {
    /// A server whose characteristics all hold zero.
    pub fn new() -> (server: Server)
        ensures
            server == (Server {
                plant_service: PlantService { pump_control: 0, moisture_level: 0, threshold: 0 },
            }),
    {
        Server { plant_service: PlantService { pump_control: 0, moisture_level: 0, threshold: 0 } }
    }

    /// Records a remote write in the characteristic it was made to.
    pub fn record(&mut self, write: ServerEvent)
        ensures
            *final(self) == server_after(*old(self), write),
    {
        match write {
            ServerEvent::PlantService(PlantServiceEvent::PumpControlWrite(value)) => {
                self.plant_service.pump_control = value;
            },
            ServerEvent::PlantService(PlantServiceEvent::ThresholdWrite(value)) => {
                self.plant_service.threshold = value;
            },
            ServerEvent::PlantService(PlantServiceEvent::MoistureLevelCccdWrite { .. }) => {},
        }
    }
}

/// An `embassy_sync` signal for moisture readings, used by one owner at a
/// time. The verifier does not look inside it.
#[verifier::external_body]
pub struct ReadingSignal {
    inner: Signal<NoopRawMutex, u16>,
}

/// The value waiting in a signal, if any.
pub uninterp spec fn signal_slot(signal: ReadingSignal) -> Option<u16>;

/// `Signal::new`: nothing waits in a new signal.
#[verifier::external_body]
fn signal_new() -> (signal: ReadingSignal)
    ensures
        signal_slot(signal) is None,
{
    ReadingSignal { inner: Signal::new() }
}

/// `Signal::signal`: the value takes the slot, whatever was waiting there.
#[verifier::external_body]
fn signal_put(signal: &mut ReadingSignal, value: u16)
    ensures
        signal_slot(*final(signal)) == Some(value),
{
    signal.inner.signal(value)
}

/// `Signal::try_take`: the waiting value, if any, is returned and the slot is
/// left empty.
#[verifier::external_body]
fn signal_take(signal: &mut ReadingSignal) -> (value: Option<u16>)
    ensures
        value == signal_slot(*old(signal)),
        signal_slot(*final(signal)) is None,
{
    signal.inner.try_take()
}

/// Mathematical state of the bridge.
pub struct BridgeState {
    pub link: ConnectionState,
    pub server: Server,
    /// The latest reading that no reader has taken yet.
    pub latest: Option<u16>,
}

impl BridgeState {
    /// The bridge at power-up: no connection, all characteristics zero, no
    /// reading.
    pub open spec fn initial() -> BridgeState {
        BridgeState {
            link: ConnectionState::Disconnected,
            server: Server {
                plant_service: PlantService { pump_control: 0, moisture_level: 0, threshold: 0 },
            },
            latest: None,
        }
    }

    /// The command that `input` carries for the controller: that of a remote
    /// write made while a peer is connected. A write that arrives without a
    /// connection is of no effect.
    pub open spec fn command(self, input: LinkInput) -> Option<Event> {
        match (self.link, input) {
            (ConnectionState::Connected(_), LinkInput::Write(write)) => command_of(write),
            _ => None,
        }
    }

    /// The bridge after `input`.
    pub open spec fn next(self, input: LinkInput) -> BridgeState {
        match (self.link, input) {
            (ConnectionState::Disconnected, LinkInput::Connected(handle)) => BridgeState {
                link: ConnectionState::Connected(handle),
                ..self
            },
            (ConnectionState::Connected(_), LinkInput::Disconnected) => BridgeState {
                link: ConnectionState::Disconnected,
                ..self
            },
            (ConnectionState::Connected(_), LinkInput::Write(write)) => BridgeState {
                server: server_after(self.server, write),
                ..self
            },
            _ => self,
        }
    }

    /// The queue of the mailbox after `input`: the command it carries is
    /// queued if there is room.
    pub open spec fn queue_after(self, input: LinkInput, queue: Seq<Event>) -> Seq<Event> {
        match self.command(input) {
            Some(command) => push_model(queue, command).0,
            None => queue,
        }
    }

    /// The answer to `input` when the mailbox holds `queue`.
    pub open spec fn reaction(self, input: LinkInput, queue: Seq<Event>) -> LinkReaction {
        let after = self.next(input);
        let taken = self.command(input) is Some && push_model(queue, self.command(input)->0).1;
        LinkReaction {
            announce: if after.link == self.link {
                None
            } else {
                Some(after.link)
            },
            queued: if taken {
                self.command(input)
            } else {
                None
            },
            refused: if taken {
                None
            } else {
                self.command(input)
            },
            next: link_request_for(after.link),
        }
    }

    /// The bridge after the controller published `reading`: the moisture
    /// characteristic and the latest reading both hold it, whatever they held
    /// before.
    pub open spec fn published(self, reading: u16) -> BridgeState {
        BridgeState {
            server: Server {
                plant_service: PlantService { moisture_level: reading, ..self.server.plant_service },
            },
            latest: Some(reading),
            ..self
        }
    }

    /// The connection to notify of a new reading, if there is one.
    pub open spec fn notify_target(self) -> Option<u16> {
        match self.link {
            ConnectionState::Connected(handle) => Some(handle),
            ConnectionState::Disconnected => None,
        }
    }
}

/// Status is overwritten, not queued: after two readings were published the
/// bridge is as if only the second had been.
pub proof fn lemma_latest_reading_wins(bridge: BridgeState, first: u16, second: u16)
    ensures
        bridge.published(first).published(second) == bridge.published(second),
{
}

/// The telemetry bridge.
pub struct TelemetryBridge {
    link: ConnectionState,
    server: Server,
    moisture: ReadingSignal,
}

impl View for TelemetryBridge {
    type V = BridgeState;

    closed spec fn view(&self) -> BridgeState {
        BridgeState { link: self.link, server: self.server, latest: signal_slot(self.moisture) }
    }
}

impl TelemetryBridge {
    /// A bridge at power-up.
    pub fn new() -> (bridge: TelemetryBridge)
        ensures
            bridge@ == BridgeState::initial(),
    {
        TelemetryBridge {
            link: ConnectionState::Disconnected,
            server: Server::new(),
            moisture: signal_new(),
        }
    }

    /// The most recent state of the link.
    pub fn connection(&self) -> (link: ConnectionState)
        ensures
            link == self@.link,
    {
        self.link
    }

    /// The server with the current values of its characteristics.
    pub fn server(&self) -> (server: Server)
        ensures
            server == self@.server,
    {
        self.server
    }

    /// What the link task has to do now.
    pub fn request(&self) -> (request: LinkRequest)
        ensures
            request == link_request_for(self@.link),
    {
        match self.link {
            ConnectionState::Connected(handle) => LinkRequest::Serve(handle),
            ConnectionState::Disconnected => LinkRequest::Advertise,
        }
    }

    /// Takes one input from the link: follows the connection, records a
    /// remote write and queues the command it stands for.
    pub fn link_step(&mut self, input: LinkInput, mailbox: &mut Mailbox) -> (reaction: LinkReaction)
        ensures
            final(self)@ == old(self)@.next(input),
            final(mailbox)@ == old(self)@.queue_after(input, old(mailbox)@),
            reaction == old(self)@.reaction(input, old(mailbox)@),
    {
        let before = self.link;
        let mut queued: Option<Event> = None;
        let mut refused: Option<Event> = None;
        match (self.link, input) {
            (ConnectionState::Disconnected, LinkInput::Connected(handle)) => {
                self.link = ConnectionState::Connected(handle);
            },
            (ConnectionState::Connected(_), LinkInput::Disconnected) => {
                self.link = ConnectionState::Disconnected;
            },
            (ConnectionState::Connected(_), LinkInput::Write(write)) => {
                self.server.record(write);
                if let Some(command) = command_for_write(write) {
                    match mailbox.try_push(command) {
                        Ok(()) => {
                            queued = Some(command);
                        },
                        Err(back) => {
                            refused = Some(back);
                        },
                    }
                }
            },
            _ => {},
        }
        let announce = if self.link == before {
            None
        } else {
            Some(self.link)
        };
        LinkReaction { announce, queued, refused, next: self.request() }
    }

    /// Publishes a reading: it replaces the value of the moisture
    /// characteristic and the latest reading. Returns the connection to
    /// notify, if a peer is connected.
    pub fn publish_reading(&mut self, reading: u16) -> (target: Option<u16>)
        ensures
            final(self)@ == old(self)@.published(reading),
            target == old(self)@.notify_target(),
    {
        self.server.plant_service.moisture_level = reading;
        signal_put(&mut self.moisture, reading);
        match self.link {
            ConnectionState::Connected(handle) => Some(handle),
            ConnectionState::Disconnected => None,
        }
    }

    /// Takes the latest reading, if one was published since the last call.
    pub fn take_reading(&mut self) -> (reading: Option<u16>)
        ensures
            reading == old(self)@.latest,
            final(self)@ == (BridgeState { latest: None, ..old(self)@ }),
    {
        signal_take(&mut self.moisture)
    }
}

} // verus!
