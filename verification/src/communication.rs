//! The metrics publisher's settings and decisions: which transport and
//! endpoint a record goes to, what is sent when a record could not be
//! serialised, and how the local listener answers what arrives. Sockets are
//! opened by the caller.

use crate::text::{append_decimal, decimal};
use vstd::prelude::*;
use vstd::string::*;

verus! {

/// Port that a fresh manager publishes to.
pub const DEFAULT_PORT: u16 = 8080;

/// Milliseconds a listener waits when nothing has arrived.
pub const LISTENER_WAIT_MS: u64 = 100;

/// The transport that metrics are published over.
#[derive(PartialEq, Eq, Clone, Copy, Debug, Structural)]
pub enum Protocol {
    /// Connection-oriented.
    TCP,
    /// Connectionless.
    UDP,
}

/// The local endpoint for a port, as in `127.0.0.1:8080`.
pub open spec fn endpoint_of(port: u16) -> Seq<char> {
    "127.0.0.1:"@ + decimal(port as nat)
}

/// What is sent in place of a record that could not be serialised.
pub open spec fn fallback_payload() -> Seq<char> {
    "{\"error\": \"Failed to serialize metrics\"}"@
}

/// What a listener on a transport answers to whatever reaches it.
pub open spec fn greeting(protocol: Protocol) -> Seq<char> {
    match protocol {
        Protocol::TCP => "Connection established to attack simulator"@,
        Protocol::UDP => "Attack metrics received"@,
    }
}

/// The message for a listener that could not be bound, given the reason
/// that the system named.
pub open spec fn bind_failure(protocol: Protocol, reason: Seq<char>) -> Seq<char> {
    match protocol {
        Protocol::TCP => "Failed to bind TCP socket: "@ + reason,
        Protocol::UDP => "Failed to bind UDP socket: "@ + reason,
    }
}

/// Where and how to open the local listener.
#[derive(Debug)]
pub struct ListenerPlan {
    /// The transport to listen on.
    pub protocol: Protocol,
    /// The address to bind.
    pub address: String,
}

/// One attempt to publish: the transport, the endpoint and the text to send.
/// Whether the attempt succeeds is of no consequence to the engine.
#[derive(Debug)]
pub struct Delivery {
    /// The transport to send over.
    pub protocol: Protocol,
    /// The endpoint to send to.
    pub address: String,
    /// The text to send.
    pub payload: String,
}

/// What a listener observed when it looked for input.
#[derive(PartialEq, Eq, Clone, Copy, Debug, Structural)]
pub enum ListenerEvent {
    /// A peer connected, or a datagram arrived.
    Incoming,
    /// Nothing has arrived yet.
    WouldBlock,
    /// The socket failed.
    Failed,
}

/// What a listener does about an event.
#[derive(PartialEq, Eq, Clone, Copy, Debug, Structural)]
pub enum ListenerAction {
    /// Send the transport's greeting back to the peer and go on.
    Reply,
    /// Sleep for this many milliseconds and go on.
    Wait(u64),
    /// Give up listening.
    Close,
}

/// The publisher's settings and whether its listener is meant to run.
#[derive(Debug)]
pub struct CommunicationManager {
    /// The transport in use. A change takes effect with the next attempt.
    pub protocol: Protocol,
    /// The port in use. A change takes effect with the next attempt.
    pub port: u16,
    /// Whether the listener is meant to run.
    pub running: bool,
}

/// The text a listener on `protocol` answers with.
pub fn greeting_text(protocol: Protocol) -> (text: &'static str)
    ensures
        text@ == greeting(protocol),
{
    match protocol {
        Protocol::TCP => "Connection established to attack simulator",
        Protocol::UDP => "Attack metrics received",
    }
}

/// What a listener does about `event`: it answers input with its
/// transport's greeting, waits [`LISTENER_WAIT_MS`] when nothing has arrived,
/// and closes when the socket failed.
pub fn listener_action(event: ListenerEvent) -> (action: ListenerAction)
    ensures
        action == match event {
            ListenerEvent::Incoming => ListenerAction::Reply,
            ListenerEvent::WouldBlock => ListenerAction::Wait(LISTENER_WAIT_MS),
            ListenerEvent::Failed => ListenerAction::Close,
        },
{
    match event {
        ListenerEvent::Incoming => ListenerAction::Reply,
        ListenerEvent::WouldBlock => ListenerAction::Wait(LISTENER_WAIT_MS),
        ListenerEvent::Failed => ListenerAction::Close,
    }
}

/// The message for a listener on `protocol` that could not be bound.
pub fn bind_failure_message(protocol: Protocol, reason: &str) -> (message: String)
    ensures
        message@ == bind_failure(protocol, reason@),
{
    let mut message = match protocol {
        Protocol::TCP => String::from_str("Failed to bind TCP socket: "),
        Protocol::UDP => String::from_str("Failed to bind UDP socket: "),
    };
    message.append(reason);
    message
}

impl CommunicationManager {
    /// A manager for TCP on [`DEFAULT_PORT`] whose listener is not running.
    pub fn new() -> (manager: CommunicationManager)
        ensures
            manager.protocol == Protocol::TCP,
            manager.port == DEFAULT_PORT,
            !manager.running,
    {
        CommunicationManager { protocol: Protocol::TCP, port: DEFAULT_PORT, running: false }
    }

    /// Marks the listener as running and says where to open it. The mark is
    /// set whether or not the caller then manages to bind the address.
    pub fn start(&mut self) -> (plan: ListenerPlan)
        ensures
            final(self).running,
            final(self).protocol == old(self).protocol,
            final(self).port == old(self).port,
            plan.protocol == old(self).protocol,
            plan.address@ == endpoint_of(old(self).port),
    {
        self.running = true;
        ListenerPlan { protocol: self.protocol, address: self.endpoint() }
    }

    /// Marks the listener as stopped; it closes when it next looks.
    pub fn stop(&mut self)
        ensures
            !final(self).running,
            final(self).protocol == old(self).protocol,
            final(self).port == old(self).port,
    {
        self.running = false;
    }

    /// Chooses the transport for the next attempt.
    pub fn set_protocol(&mut self, protocol: Protocol)
        ensures
            final(self).protocol == protocol,
            final(self).port == old(self).port,
            final(self).running == old(self).running,
    {
        self.protocol = protocol;
    }

    /// Chooses the port for the next attempt.
    pub fn set_port(&mut self, port: u16)
        ensures
            final(self).port == port,
            final(self).protocol == old(self).protocol,
            final(self).running == old(self).running,
    {
        self.port = port;
    }

    /// Whether the listener is meant to run.
    pub fn is_running(&self) -> (r: bool)
        ensures
            r == self.running,
    {
        self.running
    }

    /// The local endpoint for the port in use.
    pub fn endpoint(&self) -> (address: String)
        ensures
            address@ == endpoint_of(self.port),
    {
        let mut address = String::from_str("127.0.0.1:");
        append_decimal(&mut address, self.port as u64);
        address
    }

    /// Prepares one attempt to publish a metrics record. `serialised` is the
    /// record as text, or `None` when it could not be serialised, in which
    /// case a fixed error text is sent instead. The attempt goes to the
    /// endpoint and over the transport in use at this moment.
    pub fn send_metrics(&self, serialised: Option<String>) -> (delivery: Delivery)
        ensures
            delivery.protocol == self.protocol,
            delivery.address@ == endpoint_of(self.port),
            delivery.payload@ == match serialised {
                Some(text) => text@,
                None => fallback_payload(),
            },
    {
        let payload = match serialised {
            Some(text) => text,
            None => String::from_str("{\"error\": \"Failed to serialize metrics\"}"),
        };
        Delivery { protocol: self.protocol, address: self.endpoint(), payload }
    }
}

} // verus!
