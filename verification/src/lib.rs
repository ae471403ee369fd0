//! Verified core of a LoRaWAN radio adapter that speaks to a UDP packet
//! forwarder instead of radio hardware.
//!
//! A protocol engine drives a radio through a small set of events. Here the
//! radio is [`UdpRadio`]: what the engine transmits becomes an uplink record
//! for the transport, and a downlink from the transport reaches the engine
//! as a received frame, at the instant the network server asked for.
//! [`UdpRadioRuntime`] decides when that is, and [`run_loop`] what follows
//! from each answer of the engine.
//!
//! Nothing here sleeps, reads a clock or touches a channel. Clock readings
//! come in as numbers, and what is to be sent or scheduled goes out as
//! values for the caller to act on.

pub mod codec;
pub mod device;
pub mod driver;
pub mod fault;
pub mod modulation;
pub mod packet;
pub mod radio;
pub mod router;
pub mod rx_buffer;

pub use device::{pretty_device, Credentials};
pub use driver::{bootstrap, dispatch, run_loop};
pub use fault::Fault;
pub use packet::{Event, IntermediateEvent};
pub use radio::UdpRadio;
pub use router::UdpRadioRuntime;
