//! Conditions that end the simulation.

use vstd::prelude::*;

verus! {

/// What the protocol engine reports when an event reaches an established
/// session in a state that does not take it.
#[derive(Clone, Copy, Debug, PartialEq, Eq, Structural)]
pub enum SessionError {
    RadioEventWhileIdle,
    RadioEventWhileWaitingForRxWindow,
    NewSessionWhileWaitingForRxWindow,
    SendDataWhileWaitingForRxWindow,
    NewSessionWhileWaitingForRx,
    SendDataWhileWaitingForRx,
}

/// What the protocol engine reports when an event reaches a device without a
/// session in a state that does not take it.
#[derive(Clone, Copy, Debug, PartialEq, Eq, Structural)]
pub enum NoSessionError {
    DeviceDoesNotHaveOtaaCredentials,
    RadioEventWhileIdle,
    SendDataWhileNoSession,
    RadioEventWhileWaitingForJoinWindow,
    NewSessionWhileWaitingForJoinWindow,
    SendDataWhileWaitingForJoinWindow,
    NewSessionWhileWaitingForJoinResponse,
}

/// An unrecoverable fault. Nothing in this library retries after one: the
/// caller is expected to stop the process, loudly.
#[derive(Clone, Copy, Debug, PartialEq, Eq, Structural)]
pub enum Fault {
    /// The outbound channel took no more records.
    TxQueueOverflow,
    /// An inbound payload was not valid base64.
    PayloadDecode,
    /// An inbound payload was longer than the receive buffer.
    RxBufferOverflow,
    /// The engine refused an event with a session error that no stale timer
    /// or frame explains.
    Session(SessionError),
    /// The same, before a session was established.
    NoSession(NoSessionError),
}

} // verus!
