//! Turns what arrives from the transport into events for the device, each at
//! the instant the network server asked for.

use vstd::prelude::*;

use crate::packet::{IntermediateEvent, PullResp, RxMessage, Scheduled, StringOrNum};

verus! {

/// Milliseconds added to every scheduled delivery, so that the event never
/// reaches the engine before its instant.
pub const DELIVERY_GUARD_MS: u64 = 50;

/// What the router does with one inbound record.
#[derive(Clone, Debug, PartialEq, Eq)]
pub enum Routing {
    /// Not a downlink: nothing to do.
    Ignored,
    /// A downlink for a later instant: deliver it after the delay.
    Deliver(Scheduled),
    /// A downlink whose instant has passed `by_ms` milliseconds ago:
    /// dropped, with a warning.
    Late { by_ms: u64 },
    /// A downlink that asks for immediate transmission: dropped, with a
    /// warning.
    Immediate,
}

/// The millisecond on the shared clock at which a downlink with timestamp
/// `tmst`, in microseconds, is to be on the air.
pub open spec fn scheduled_ms(tmst: u64) -> u64 {
    tmst / 1000
}

/// What becomes of the inbound record `message` when the shared clock reads
/// `now_ms` milliseconds.
pub open spec fn routing(message: RxMessage, now_ms: u64) -> Routing {
    match message {
        RxMessage::Other => Routing::Ignored,
        RxMessage::PullResp(packet) => match packet.tmst {
            StringOrNum::S(_) => Routing::Immediate,
            StringOrNum::N(tmst) => if scheduled_ms(tmst) > now_ms {
                Routing::Deliver(
                    Scheduled {
                        delay_ms: ((scheduled_ms(tmst) - now_ms) + DELIVERY_GUARD_MS) as u64,
                        event: IntermediateEvent::Rx(
                            packet,
                            (scheduled_ms(tmst) - now_ms) as u64,
                        ),
                    },
                )
            } else {
                Routing::Late { by_ms: (now_ms - scheduled_ms(tmst)) as u64 }
            },
        },
    }
}

/// The router between the transport and the device's internal queue.
#[derive(Clone, Copy, Debug, PartialEq, Eq, Structural)]
pub struct UdpRadioRuntime {}

impl UdpRadioRuntime {
    /// Routes one inbound record, given the reading of the shared clock in
    /// milliseconds.
    pub fn run(&self, message: RxMessage, now_ms: u64) -> (routed: Routing)
        ensures
            routed == routing(message, now_ms),
    {
        match message {
            RxMessage::PullResp(pull_resp) => {
                let scheduled = match &pull_resp.tmst {
                    StringOrNum::N(n) => Some(*n / 1000),
                    StringOrNum::S(_) => None,
                };
                match scheduled {
                    Some(scheduled_time) => {
                        if scheduled_time > now_ms {
                            let delay = scheduled_time - now_ms;
                            Routing::Deliver(
                                Scheduled {
                                    delay_ms: delay + DELIVERY_GUARD_MS,
                                    event: IntermediateEvent::Rx(pull_resp, delay),
                                },
                            )
                        } else {
                            Routing::Late { by_ms: now_ms - scheduled_time }
                        }
                    },
                    None => Routing::Immediate,
                }
            },
            RxMessage::Other => Routing::Ignored,
        }
    }
}

/// A downlink whose instant is not in the future is never delivered.
pub proof fn lemma_late_downlink_is_dropped(packet: Box<PullResp>, tmst: u64, now_ms: u64)
    requires
        packet.tmst == StringOrNum::N(tmst),
        scheduled_ms(tmst) <= now_ms,
    ensures
        routing(RxMessage::PullResp(packet), now_ms) == (Routing::Late {
            by_ms: (now_ms - scheduled_ms(tmst)) as u64,
        }),
        !(routing(RxMessage::PullResp(packet), now_ms) is Deliver),
{
}

/// A downlink for a later instant is delivered, unchanged, after the time
/// that is left until that instant and the guard on top of it.
pub proof fn lemma_early_downlink_waits(packet: Box<PullResp>, tmst: u64, now_ms: u64)
    requires
        packet.tmst == StringOrNum::N(tmst),
        scheduled_ms(tmst) > now_ms,
    ensures
        routing(RxMessage::PullResp(packet), now_ms) matches Routing::Deliver(scheduled) && {
            &&& scheduled.delay_ms == scheduled_ms(tmst) - now_ms + DELIVERY_GUARD_MS
            &&& scheduled.delay_ms >= scheduled_ms(tmst) - now_ms
            &&& scheduled.event == IntermediateEvent::Rx(packet, (scheduled_ms(tmst) - now_ms) as u64)
        },
{
}

} // verus!
