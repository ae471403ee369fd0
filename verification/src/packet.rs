//! The records exchanged with the packet forwarder transport, reduced to the
//! fields that the adapter reads and writes, and the events that travel on
//! the device's internal queue.

use vstd::prelude::*;
use vstd::std_specs::convert::FromSpecImpl;

verus! {

/// A protocol field that holds either text or a number.
#[derive(Clone, Debug, PartialEq, Eq)]
pub enum StringOrNum {
    S(String),
    N(u64),
}

/// A downlink handed over by the network server for transmission.
#[derive(Clone, Debug, PartialEq, Eq)]
pub struct PullResp {
    /// When to transmit: a count of microseconds on the shared clock, or a
    /// textual marker that asks for immediate transmission.
    pub tmst: StringOrNum,
    /// The frame, base64 encoded.
    pub data: String,
}

/// What arrives from the transport.
#[derive(Clone, Debug, PartialEq, Eq)]
pub enum RxMessage {
    /// A downlink data record.
    PullResp(Box<PullResp>),
    /// Any other record: acknowledgements and uplink echoes.
    Other,
}

/// An uplink as the packet forwarder reports a received frame.
#[derive(Clone, Debug, PartialEq, Eq)]
pub struct RxPk {
    /// Concentrator channel.
    pub chan: u64,
    /// Coding rate label.
    pub codr: String,
    /// The frame, base64 encoded.
    pub data: String,
    /// Data rate label.
    pub datr: String,
    /// Centre frequency in Hz. The wire format carries it in MHz.
    pub freq: u32,
    /// Signal to noise ratio in tenths of a dB. The wire format carries it in
    /// dB.
    pub lsnr: i32,
    /// Modulation identifier.
    pub modu: String,
    /// Concentrator RF chain.
    pub rfch: u64,
    /// Signal strength in dBm.
    pub rssi: i32,
    /// Length of the frame in bytes.
    pub size: u64,
    /// CRC status.
    pub stat: u64,
    /// Microseconds on the shared clock at which the frame was sent.
    pub tmst: u64,
}

/// A physical layer event of the adapter: a downlink is on the air.
#[derive(Clone, Debug, PartialEq, Eq)]
pub enum Event {
    Rx(Box<PullResp>),
}

impl From<Box<PullResp>> for Event {
    fn from(rx: Box<PullResp>) -> (event: Event) {
        Event::Rx(rx)
    }
}

impl FromSpecImpl<Box<PullResp>> for Event {
    open spec fn obeys_from_spec() -> bool {
        true
    }

    open spec fn from_spec(rx: Box<PullResp>) -> Event {
        Event::Rx(rx)
    }
}

/// An event on the device's internal queue.
#[derive(Clone, Debug, PartialEq, Eq)]
pub enum IntermediateEvent {
    /// A downlink, with the milliseconds that lay between its arrival and
    /// its transmission time.
    Rx(Box<PullResp>, u64),
    NewSession,
    Timeout,
    SendPacket,
}

/// An event to put on the internal queue once `delay_ms` milliseconds have
/// passed.
#[derive(Clone, Debug, PartialEq, Eq)]
pub struct Scheduled {
    pub delay_ms: u64,
    pub event: IntermediateEvent,
}

} // verus!
