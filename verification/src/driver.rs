//! The decisions of the device's main loop: which request an event puts to
//! the protocol engine, and what follows from the engine's answer. The
//! engine itself, the sleeping and the queue are the caller's.

use vstd::prelude::*;

use crate::device::{device_label, pretty_device, Credentials};
use crate::fault::{Fault, NoSessionError, SessionError};
use crate::packet::{Event, IntermediateEvent, Scheduled};
use crate::radio::{RadioEvent, UdpRadio};

verus! {

/// The port on which uplinks are sent.
pub const UPLINK_PORT: u8 = 2;

/// The bits of a random number that make a jitter delay: 0 to 127 ms.
pub const JITTER_MASK: u32 = 0x7F;

/// The payload of every uplink.
pub open spec fn uplink_payload() -> Seq<u8> {
    seq![12u8, 3u8, 54u8, 54u8, 123u8, 23u8, 13u8, 14u8, 15u8, 16u8]
}

/// A request to the protocol engine.
#[derive(Clone, Debug, PartialEq, Eq)]
pub enum LorawanEvent {
    /// Start a new session: join the network.
    NewSession,
    /// Send an uplink.
    SendData { data: Vec<u8>, fport: u8, confirmed: bool },
    /// Pass an event on to the radio.
    RadioEvent(RadioEvent),
    /// A timer that the engine asked for has fired.
    Timeout,
}

/// An answer of the protocol engine.
#[derive(Clone, Copy, Debug, PartialEq, Eq, Structural)]
pub enum LorawanResponse {
    /// Fire a timeout at this instant, in milliseconds on the shared clock.
    TimeoutRequest(u32),
    /// The join request went unanswered.
    NoJoinAccept,
    /// A session is established.
    NewSession,
    Idle,
    /// The uplink went unacknowledged.
    NoAck,
    /// No downlink came and none was due.
    ReadyToSend,
    /// A downlink came; its frame counter.
    DataDown(u32),
    /// A receive window is open.
    Rxing,
    /// Any other answer. None of them asks anything of the loop.
    Other,
}

/// A refusal of the protocol engine.
#[derive(Clone, Copy, Debug, PartialEq, Eq, Structural)]
pub enum LorawanError {
    /// The radio refused. Expected, and of no consequence.
    Radio,
    Session(SessionError),
    NoSession(NoSessionError),
}

/// A measurement for the metrics collector.
#[derive(Clone, Copy, Debug, PartialEq, Eq, Structural)]
pub enum Stat {
    /// An uplink went unacknowledged.
    DownlinkTimeout,
    /// A downlink came; the milliseconds that lay between its arrival from
    /// the transport and its transmission time.
    DownlinkResponse(u64),
}

/// A message to the metrics collector.
#[derive(Clone, Debug, PartialEq, Eq)]
pub enum Message {
    /// A measurement, under the label of the device.
    Stat(String, Stat),
}

/// What an event from the internal queue asks of the caller.
#[derive(Clone, Debug, PartialEq, Eq)]
pub struct Delivery {
    /// Milliseconds to sleep before the engine gets the request.
    pub delay_ms: u64,
    /// The request for the engine.
    pub event: LorawanEvent,
    /// For a downlink, the milliseconds that lay between its arrival and its
    /// transmission time. To be handed to [`run_loop`] with the engine's
    /// answer to this request.
    pub time: Option<u64>,
}

/// What follows from an answer of the engine. Where more than one field is
/// set, the caller acts on them in the order in which they stand here.
#[derive(Clone, Debug, PartialEq, Eq)]
pub struct Reaction {
    /// Arm the radio's timer for this instant.
    pub timer: Option<u32>,
    /// Send this to the metrics collector.
    pub stat: Option<Message>,
    /// Put this event on the internal queue after its delay.
    pub next: Option<Scheduled>,
}

/// A [`Reaction`] with the label as plain text.
pub struct ReactionView {
    pub timer: Option<u32>,
    pub stat: Option<(Seq<char>, Stat)>,
    pub next: Option<Scheduled>,
}

impl View for Reaction {
    type V = ReactionView;

    open spec fn view(&self) -> ReactionView {
        ReactionView {
            timer: self.timer,
            stat: match self.stat {
                Some(Message::Stat(label, stat)) => Some((label@, stat)),
                None => None,
            },
            next: self.next,
        }
    }
}

/// The jitter delay in milliseconds that the random number `random` stands
/// for: its low seven bits where jitter is enabled, else none.
pub open spec fn jitter_ms(jitter: bool, random: u32) -> u64 {
    if jitter {
        (random & JITTER_MASK) as u64
    } else {
        0
    }
}

/// Nothing to do.
pub open spec fn no_reaction() -> ReactionView {
    ReactionView { timer: None, stat: None, next: None }
}

/// The next uplink, due after `delay_ms` milliseconds.
pub open spec fn next_uplink(delay_ms: u64) -> Option<Scheduled> {
    Some(Scheduled { delay_ms, event: IntermediateEvent::SendPacket })
}

/// Whether a session error only tells of a timer or a frame that came after
/// the engine had moved on.
pub open spec fn is_stale_in_session(error: SessionError) -> bool {
    error is RadioEventWhileIdle || error is RadioEventWhileWaitingForRxWindow
}

/// The same, before a session was established.
pub open spec fn is_stale_without_session(error: NoSessionError) -> bool {
    error is RadioEventWhileIdle || error is RadioEventWhileWaitingForJoinWindow
}

/// What follows from the engine's answer `outcome`, for the device with
/// label `label`.
///
/// `time` belongs to the event that was put to the engine, `random` is a
/// fresh random number, `telemetry` tells whether a metrics collector
/// listens, `transmit_delay` is the base delay between uplinks in
/// milliseconds.
pub open spec fn reaction(
    outcome: Result<LorawanResponse, LorawanError>,
    time: Option<u64>,
    label: Seq<char>,
    jitter: bool,
    random: u32,
    telemetry: bool,
    transmit_delay: u64,
) -> Result<ReactionView, Fault> {
    match outcome {
        Ok(LorawanResponse::TimeoutRequest(at)) => Ok(
            ReactionView { timer: Some(at), ..no_reaction() },
        ),
        Ok(LorawanResponse::NoJoinAccept) => Ok(
            ReactionView {
                next: Some(Scheduled { delay_ms: 0, event: IntermediateEvent::NewSession }),
                ..no_reaction()
            },
        ),
        Ok(LorawanResponse::NewSession) => Ok(
            ReactionView { next: next_uplink(transmit_delay), ..no_reaction() },
        ),
        Ok(LorawanResponse::NoAck) => Ok(
            ReactionView {
                timer: None,
                stat: if telemetry {
                    Some((label, Stat::DownlinkTimeout))
                } else {
                    None
                },
                next: next_uplink(transmit_delay),
            },
        ),
        Ok(LorawanResponse::ReadyToSend) => Ok(
            ReactionView { next: next_uplink(transmit_delay), ..no_reaction() },
        ),
        Ok(LorawanResponse::DataDown(_)) => Ok(
            ReactionView {
                timer: None,
                stat: match time {
                    Some(t) if telemetry => Some((label, Stat::DownlinkResponse(t))),
                    _ => None,
                },
                next: next_uplink((transmit_delay + jitter_ms(jitter, random)) as u64),
            },
        ),
        Ok(LorawanResponse::Idle) | Ok(LorawanResponse::Rxing) | Ok(LorawanResponse::Other) => Ok(
            no_reaction(),
        ),
        Err(LorawanError::Radio) => Ok(no_reaction()),
        Err(LorawanError::Session(error)) => if is_stale_in_session(error) {
            Ok(no_reaction())
        } else {
            Err(Fault::Session(error))
        },
        Err(LorawanError::NoSession(error)) => if is_stale_without_session(error) {
            Ok(no_reaction())
        } else {
            Err(Fault::NoSession(error))
        },
    }
}

/// A result of [`run_loop`] with the label as plain text.
pub open spec fn viewed(reaction: Result<Reaction, Fault>) -> Result<ReactionView, Fault> {
    match reaction {
        Ok(reaction) => Ok(reaction@),
        Err(fault) => Err(fault),
    }
}

/// The event that starts a device: it is put on the internal queue once,
/// before the loop takes its first event.
pub fn bootstrap() -> (event: IntermediateEvent)
    ensures
        event == IntermediateEvent::NewSession,
{
    IntermediateEvent::NewSession
}

/// The jitter delay in milliseconds for the random number `random`.
pub fn jitter_delay(jitter: bool, random: u32) -> (delay_ms: u64)
    ensures
        delay_ms == jitter_ms(jitter, random),
        delay_ms <= JITTER_MASK,
{
    assert(random & 0x7F <= 0x7F) by (bit_vector);
    if jitter {
        (random & JITTER_MASK) as u64
    } else {
        0
    }
}

/// The request that `event` puts to the engine.
///
/// A new session waits for a jitter delay first, so that devices started
/// together do not join together. An uplink carries the fixed payload on
/// the fixed port and asks for an acknowledgement.
pub fn dispatch(event: IntermediateEvent, jitter: bool, random: u32) -> (delivery: Delivery)
    ensures
        match event {
            IntermediateEvent::NewSession => {
                &&& delivery.delay_ms == jitter_ms(jitter, random)
                &&& delivery.event == LorawanEvent::NewSession
                &&& delivery.time is None
            },
            IntermediateEvent::SendPacket => {
                &&& delivery.delay_ms == 0
                &&& delivery.event matches LorawanEvent::SendData { data, fport, confirmed }
                &&& data@ == uplink_payload()
                &&& fport == UPLINK_PORT
                &&& confirmed
                &&& delivery.time is None
            },
            IntermediateEvent::Rx(packet, time_received) => {
                &&& delivery.delay_ms == 0
                &&& delivery.event == LorawanEvent::RadioEvent(
                    RadioEvent::PhyEvent(Event::Rx(packet)),
                )
                &&& delivery.time == Some(time_received)
            },
            IntermediateEvent::Timeout => {
                &&& delivery.delay_ms == 0
                &&& delivery.event == LorawanEvent::Timeout
                &&& delivery.time is None
            },
        },
{
    match event {
        IntermediateEvent::NewSession => Delivery {
            delay_ms: jitter_delay(jitter, random),
            event: LorawanEvent::NewSession,
            time: None,
        },
        IntermediateEvent::SendPacket => {
            let data: Vec<u8> = vec![12, 3, 54, 54, 123, 23, 13, 14, 15, 16];
            assert(data@ =~= uplink_payload());
            Delivery {
                delay_ms: 0,
                event: LorawanEvent::SendData { data, fport: UPLINK_PORT, confirmed: true },
                time: None,
            }
        },
        IntermediateEvent::Rx(packet, time_received) => Delivery {
            delay_ms: 0,
            event: LorawanEvent::RadioEvent(RadioEvent::PhyEvent(Event::from(packet))),
            time: Some(time_received),
        },
        IntermediateEvent::Timeout => Delivery {
            delay_ms: 0,
            event: LorawanEvent::Timeout,
            time: None,
        },
    }
}

/// One turn of the device's main loop, from the engine's answer on.
///
/// `radio` is the engine's radio and `creds` its credentials; the other
/// arguments are those of [`reaction`]. A join that failed is tried again,
/// and every answer that ends an uplink's cycle schedules the next uplink:
/// the loop never comes to rest. A refusal of the engine is passed over
/// where a stale timer or frame explains it, and is a fault otherwise.
pub fn run_loop(
    radio: &UdpRadio,
    creds: &Credentials,
    outcome: Result<LorawanResponse, LorawanError>,
    time: Option<u64>,
    random: u32,
    telemetry: bool,
    transmit_delay: u64,
) -> (reaction: Result<Reaction, Fault>)
    requires
        outcome matches Ok(LorawanResponse::DataDown(_)) ==> transmit_delay + jitter_ms(
            radio@.jitter,
            random,
        ) <= u64::MAX,
    ensures
        viewed(reaction) == self::reaction(
            outcome,
            time,
            device_label(creds.deveui@),
            radio@.jitter,
            random,
            telemetry,
            transmit_delay,
        ),
{
    match outcome {
        Ok(response) => match response {
            LorawanResponse::TimeoutRequest(delay) => Ok(
                Reaction { timer: Some(delay), stat: None, next: None },
            ),
            LorawanResponse::NoJoinAccept => Ok(
                Reaction {
                    timer: None,
                    stat: None,
                    next: Some(Scheduled { delay_ms: 0, event: IntermediateEvent::NewSession }),
                },
            ),
            LorawanResponse::NewSession => Ok(
                Reaction { timer: None, stat: None, next: Some(uplink_after(transmit_delay)) },
            ),
            LorawanResponse::Idle => Ok(Reaction { timer: None, stat: None, next: None }),
            LorawanResponse::NoAck => {
                let stat = if telemetry {
                    Some(Message::Stat(pretty_device(creds), Stat::DownlinkTimeout))
                } else {
                    None
                };
                Ok(Reaction { timer: None, stat, next: Some(uplink_after(transmit_delay)) })
            },
            LorawanResponse::ReadyToSend => Ok(
                Reaction { timer: None, stat: None, next: Some(uplink_after(transmit_delay)) },
            ),
            LorawanResponse::DataDown(_) => {
                let stat = match time {
                    Some(t) => if telemetry {
                        Some(Message::Stat(pretty_device(creds), Stat::DownlinkResponse(t)))
                    } else {
                        None
                    },
                    None => None,
                };
                let delay = transmit_delay + jitter_delay(radio.jitter(), random);
                Ok(Reaction { timer: None, stat, next: Some(uplink_after(delay)) })
            },
            LorawanResponse::Rxing => Ok(Reaction { timer: None, stat: None, next: None }),
            LorawanResponse::Other => Ok(Reaction { timer: None, stat: None, next: None }),
        },
        Err(err) => match err {
            LorawanError::Radio => Ok(Reaction { timer: None, stat: None, next: None }),
            LorawanError::Session(e) => match e {
                SessionError::RadioEventWhileIdle
                | SessionError::RadioEventWhileWaitingForRxWindow => Ok(
                    Reaction { timer: None, stat: None, next: None },
                ),
                _ => Err(Fault::Session(e)),
            },
            LorawanError::NoSession(e) => match e {
                NoSessionError::RadioEventWhileIdle
                | NoSessionError::RadioEventWhileWaitingForJoinWindow => Ok(
                    Reaction { timer: None, stat: None, next: None },
                ),
                _ => Err(Fault::NoSession(e)),
            },
        },
    }
}

/// One turn of the loop: the engine's answer, and what came with it.
pub struct Turn {
    pub outcome: Result<LorawanResponse, LorawanError>,
    pub time: Option<u64>,
    pub random: u32,
}

/// Whether the turn `turn` puts `event` on the internal queue.
pub open spec fn schedules(
    turn: Turn,
    event: IntermediateEvent,
    label: Seq<char>,
    jitter: bool,
    telemetry: bool,
    transmit_delay: u64,
) -> bool {
    reaction(turn.outcome, turn.time, label, jitter, turn.random, telemetry, transmit_delay) matches Ok(
        then,
    ) && then.next matches Some(scheduled) && scheduled.event == event
}

/// How many times the turns `turns` put `event` on the internal queue.
pub open spec fn times_scheduled(
    turns: Seq<Turn>,
    event: IntermediateEvent,
    label: Seq<char>,
    jitter: bool,
    telemetry: bool,
    transmit_delay: u64,
) -> nat
    decreases turns.len(),
{
    if turns.len() == 0 {
        0
    } else {
        let before = times_scheduled(
            turns.drop_last(),
            event,
            label,
            jitter,
            telemetry,
            transmit_delay,
        );
        if schedules(turns.last(), event, label, jitter, telemetry, transmit_delay) {
            before + 1
        } else {
            before
        }
    }
}

/// Whether the turn ended an uplink's cycle without an acknowledgement or
/// with a downlink.
pub open spec fn ends_uplink_cycle(turn: Turn) -> bool {
    turn.outcome matches Ok(response) && (response is NoAck || response is DataDown)
}

/// Once a session is established, one uplink is due after the base delay,
/// and nothing else happens: no timer, no measurement, no new session.
pub proof fn lemma_session_established_sends_once(
    time: Option<u64>,
    label: Seq<char>,
    jitter: bool,
    random: u32,
    telemetry: bool,
    transmit_delay: u64,
)
    ensures
        reaction(
            Ok(LorawanResponse::NewSession),
            time,
            label,
            jitter,
            random,
            telemetry,
            transmit_delay,
        ) == Ok::<ReactionView, Fault>(
            ReactionView {
                timer: None,
                stat: None,
                next: Some(
                    Scheduled { delay_ms: transmit_delay, event: IntermediateEvent::SendPacket },
                ),
            },
        ),
{
}

/// A turn asks for a new session only where the join went unanswered: past
/// the bootstrap, nothing else starts one.
pub proof fn lemma_new_session_only_after_rejection(
    turn: Turn,
    label: Seq<char>,
    jitter: bool,
    telemetry: bool,
    transmit_delay: u64,
)
    ensures
        schedules(turn, IntermediateEvent::NewSession, label, jitter, telemetry, transmit_delay)
            <==> turn.outcome == Ok::<LorawanResponse, LorawanError>(LorawanResponse::NoJoinAccept),
{
}

/// The loop does not come to rest: turns that end without an
/// acknowledgement or with a downlink, however many, each schedule the next
/// uplink, and none of them is a fault.
pub proof fn lemma_retry_cycle_stays_alive(
    turns: Seq<Turn>,
    label: Seq<char>,
    jitter: bool,
    telemetry: bool,
    transmit_delay: u64,
)
    requires
        forall|i: int| 0 <= i < turns.len() ==> ends_uplink_cycle(#[trigger] turns[i]),
    ensures
        times_scheduled(
            turns,
            IntermediateEvent::SendPacket,
            label,
            jitter,
            telemetry,
            transmit_delay,
        ) == turns.len(),
        forall|i: int|
            0 <= i < turns.len() ==> reaction(
                (#[trigger] turns[i]).outcome,
                turns[i].time,
                label,
                jitter,
                turns[i].random,
                telemetry,
                transmit_delay,
            ) is Ok,
    decreases turns.len(),
{
    if turns.len() > 0 {
        let before = turns.drop_last();
        assert forall|i: int| 0 <= i < before.len() implies ends_uplink_cycle(
            #[trigger] before[i],
        ) by {
            assert(before[i] == turns[i]);
        }
        lemma_retry_cycle_stays_alive(before, label, jitter, telemetry, transmit_delay);
        assert(turns.last() == turns[turns.len() - 1]);
    }
}

/// The next uplink, due after `delay_ms` milliseconds.
fn uplink_after(delay_ms: u64) -> (scheduled: Scheduled)
    ensures
        Some(scheduled) == next_uplink(delay_ms),
{
    Scheduled { delay_ms, event: IntermediateEvent::SendPacket }
}

} // verus!
