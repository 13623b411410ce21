//! Connection events of the messaging client and how they are logged:
//! disconnects and reconnects informationally, client errors as errors, and
//! every other event as a warning.

use vstd::prelude::*;

verus! {

/// A connection event reported by the messaging client, reduced to what the
/// logging decision reads: the kind, and the client's description of an
/// error or of an unrecognized event.
pub enum ConnectionEvent {
    /// The connection to the server was lost.
    Disconnected,
    /// The connection to the server was re-established.
    Reconnected,
    /// The client reported an error, with its description.
    ClientError(String),
    /// Any other event, with its description.
    Other(String),
}

/// The severity a diagnostic line is logged with.
#[derive(Clone, Copy, PartialEq, Eq, Structural, Debug)]
pub enum Severity {
    Info,
    Warn,
    Error,
}

/// The severity a connection event is logged with: disconnects and
/// reconnects are informational, client errors are errors, everything else
/// is a warning.
pub fn event_severity(event: &ConnectionEvent) -> (r: Severity)
    ensures
        r == (match event {
            ConnectionEvent::Disconnected => Severity::Info,
            ConnectionEvent::Reconnected => Severity::Info,
            ConnectionEvent::ClientError(_) => Severity::Error,
            ConnectionEvent::Other(_) => Severity::Warn,
        }),
{
    match event {
        ConnectionEvent::Disconnected => Severity::Info,
        ConnectionEvent::Reconnected => Severity::Info,
        ConnectionEvent::ClientError(_) => Severity::Error,
        ConnectionEvent::Other(_) => Severity::Warn,
    }
}

/// The text a connection event is logged with: a fixed line per kind, with
/// the client's description appended for errors and unrecognized events.
pub fn event_message(event: &ConnectionEvent) -> (r: String)
    ensures
        r@ == (match event {
            ConnectionEvent::Disconnected => "Disconnected nats connection"@,
            ConnectionEvent::Reconnected => "Nats client reconnected"@,
            ConnectionEvent::ClientError(detail) => "Nats client received error: "@ + detail@,
            ConnectionEvent::Other(detail) => "Nats client unused event: "@ + detail@,
        }),
{
    match event {
        ConnectionEvent::Disconnected => String::from_str("Disconnected nats connection"),
        ConnectionEvent::Reconnected => String::from_str("Nats client reconnected"),
        ConnectionEvent::ClientError(detail) => {
            let mut s = String::from_str("Nats client received error: ");
            s.append(detail.as_str());
            s
        },
        ConnectionEvent::Other(detail) => {
            let mut s = String::from_str("Nats client unused event: ");
            s.append(detail.as_str());
            s
        },
    }
}

} // verus!
