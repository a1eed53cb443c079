//! Notifications for the host, each on the channel of its category, and the
//! text the host shows for each.
use vstd::prelude::*;
use crate::text::{decimal, decimal_text};

verus! {

/// The host's notification channels.
#[derive(Debug, PartialEq, Eq, Structural)]
pub enum Channel {
    /// Connection lifecycle and server status.
    Server,
    /// Messages received from clients.
    Accept,
    /// Messages broadcast to clients.
    Send,
    /// The local addresses the server can be reached on.
    Addresses,
}

/// A notification for the host.
#[derive(Debug)]
pub enum ServerEvent {
    ConnectionOpened { address: Option<String> },
    MessageReceived { address: Option<String>, text: String },
    ConnectionClosed { address: Option<String>, code: u16, reason: String },
    MessageBroadcast { text: String, recipients: usize },
    Listening { port: u16 },
    ListenFailed { cause: String },
    LocalAddresses { list: String },
}

/// The channel of each kind of event.
pub open spec fn channel_of(e: ServerEvent) -> Channel {
    match e {
        ServerEvent::MessageReceived { .. } => Channel::Accept,
        ServerEvent::MessageBroadcast { .. } => Channel::Send,
        ServerEvent::LocalAddresses { .. } => Channel::Addresses,
        _ => Channel::Server,
    }
}

/// The address of a connection, or `unknown` where it could not be resolved.
pub open spec fn address_label(address: Option<String>) -> Seq<char> {
    match address {
        Some(a) => a@,
        None => "unknown"@,
    }
}

/// The text the host shows for an event.
pub open spec fn event_text(e: ServerEvent) -> Seq<char> {
    match e {
        ServerEvent::ConnectionOpened { address } => "new connection "@ + address_label(address),
        ServerEvent::MessageReceived { address, text } => address_label(address) + ": "@ + text@,
        ServerEvent::ConnectionClosed { address, code, reason } => "connection closed "@
            + address_label(address) + ": "@ + decimal(code as nat) + " - "@ + reason@,
        ServerEvent::MessageBroadcast { text, .. } => text@,
        ServerEvent::Listening { port } => "listening on port "@ + decimal(port as nat),
        ServerEvent::ListenFailed { cause } => "listen failed: "@ + cause@,
        ServerEvent::LocalAddresses { list } => list@,
    }
}

/// Writes the address of a connection, or `unknown`.
fn label_text(address: &Option<String>) -> (r: String)
    ensures
        r@ == address_label(*address),
{
    match address {
        Some(a) => a.clone(),
        None => String::from_str("unknown"),
    }
}

impl ServerEvent {
    /// The channel this event goes out on.
    pub fn channel(&self) -> (r: Channel)
        ensures
            r == channel_of(*self),
    {
        match self {
            ServerEvent::MessageReceived { .. } => Channel::Accept,
            ServerEvent::MessageBroadcast { .. } => Channel::Send,
            ServerEvent::LocalAddresses { .. } => Channel::Addresses,
            _ => Channel::Server,
        }
    }

    /// The text the host shows for this event.
    pub fn text(&self) -> (r: String)
        ensures
            r@ == event_text(*self),
    {
        match self {
            ServerEvent::ConnectionOpened { address } => {
                let mut r = String::from_str("new connection ");
                let l = label_text(address);
                r.append(l.as_str());
                r
            },
            ServerEvent::MessageReceived { address, text } => {
                let mut r = label_text(address);
                r.append(": ");
                r.append(text.as_str());
                r
            },
            ServerEvent::ConnectionClosed { address, code, reason } => {
                let mut r = String::from_str("connection closed ");
                let l = label_text(address);
                r.append(l.as_str());
                r.append(": ");
                let c = decimal_text(*code as u64);
                r.append(c.as_str());
                r.append(" - ");
                r.append(reason.as_str());
                r
            },
            ServerEvent::MessageBroadcast { text, .. } => text.clone(),
            ServerEvent::Listening { port } => {
                let mut r = String::from_str("listening on port ");
                let p = decimal_text(*port as u64);
                r.append(p.as_str());
                r
            },
            ServerEvent::ListenFailed { cause } => {
                let mut r = String::from_str("listen failed: ");
                r.append(cause.as_str());
                r
            },
            ServerEvent::LocalAddresses { list } => list.clone(),
        }
    }
}

} // verus!
