use udp_radio::device::Credentials;
use udp_radio::driver::{
    bootstrap, dispatch, jitter_delay, run_loop, Delivery, LorawanError, LorawanEvent,
    LorawanResponse, Message, Reaction, Stat,
};
use udp_radio::fault::{Fault, NoSessionError, SessionError};
use udp_radio::packet::{Event, IntermediateEvent, PullResp, Scheduled, StringOrNum};
use udp_radio::radio::{RadioEvent, UdpRadio};

fn creds() -> Credentials {
    Credentials::new([0x01, 0x23, 0x45, 0x67, 0x89, 0xab, 0xcd, 0xef])
}

fn radio(jitter: bool) -> UdpRadio {
    let mut radio = UdpRadio::new().1;
    if !jitter {
        radio.disable_jitter();
    }
    radio
}

fn nothing() -> Reaction {
    Reaction { timer: None, stat: None, next: None }
}

fn uplink_after(delay_ms: u64) -> Option<Scheduled> {
    Some(Scheduled { delay_ms, event: IntermediateEvent::SendPacket })
}

fn react(
    outcome: Result<LorawanResponse, LorawanError>,
    time: Option<u64>,
    telemetry: bool,
) -> Result<Reaction, Fault> {
    run_loop(&radio(false), &creds(), outcome, time, 0xffff_ffff, telemetry, 1_500)
}

#[test]
fn device_starts_with_a_new_session() {
    assert_eq!(bootstrap(), IntermediateEvent::NewSession);
}

#[test]
fn jitter_is_the_low_seven_bits() {
    assert_eq!(jitter_delay(true, 0), 0);
    assert_eq!(jitter_delay(true, 0x7f), 127);
    assert_eq!(jitter_delay(true, 0x80), 0);
    assert_eq!(jitter_delay(true, 0xdead_beef), 0x6f);
    assert_eq!(jitter_delay(true, u32::MAX), 127);
    assert_eq!(jitter_delay(false, 0xdead_beef), 0);
}

#[test]
fn new_session_waits_for_jitter() {
    assert_eq!(
        dispatch(IntermediateEvent::NewSession, true, 0x1234_5685),
        Delivery { delay_ms: 5, event: LorawanEvent::NewSession, time: None }
    );
    assert_eq!(
        dispatch(IntermediateEvent::NewSession, false, 0x1234_5685),
        Delivery { delay_ms: 0, event: LorawanEvent::NewSession, time: None }
    );
}

#[test]
fn send_packet_asks_for_a_confirmed_uplink() {
    assert_eq!(
        dispatch(IntermediateEvent::SendPacket, true, 99),
        Delivery {
            delay_ms: 0,
            event: LorawanEvent::SendData {
                data: vec![12, 3, 54, 54, 123, 23, 13, 14, 15, 16],
                fport: 2,
                confirmed: true,
            },
            time: None,
        }
    );
}

#[test]
fn downlink_goes_to_the_radio_and_its_delay_is_remembered() {
    let packet = Box::new(PullResp { tmst: StringOrNum::N(5_000_000), data: "AQID".to_string() });
    assert_eq!(
        dispatch(IntermediateEvent::Rx(packet.clone(), 2_000), true, 99),
        Delivery {
            delay_ms: 0,
            event: LorawanEvent::RadioEvent(RadioEvent::PhyEvent(Event::Rx(packet.clone()))),
            time: Some(2_000),
        }
    );
    assert_eq!(Event::from(packet.clone()), Event::Rx(packet));
}

#[test]
fn timeout_goes_to_the_engine() {
    assert_eq!(
        dispatch(IntermediateEvent::Timeout, true, 99),
        Delivery { delay_ms: 0, event: LorawanEvent::Timeout, time: None }
    );
}

#[test]
fn timeout_request_arms_the_timer() {
    assert_eq!(
        react(Ok(LorawanResponse::TimeoutRequest(8_000)), None, true),
        Ok(Reaction { timer: Some(8_000), stat: None, next: None })
    );
}

#[test]
fn rejected_join_is_tried_again() {
    assert_eq!(
        react(Ok(LorawanResponse::NoJoinAccept), None, true),
        Ok(Reaction {
            timer: None,
            stat: None,
            next: Some(Scheduled { delay_ms: 0, event: IntermediateEvent::NewSession }),
        })
    );
}

#[test]
fn established_session_sends_one_uplink_after_the_base_delay() {
    assert_eq!(
        react(Ok(LorawanResponse::NewSession), Some(30), true),
        Ok(Reaction { timer: None, stat: None, next: uplink_after(1_500) })
    );
    let jittering =
        run_loop(&radio(true), &creds(), Ok(LorawanResponse::NewSession), None, 0x55, true, 0);
    assert_eq!(jittering, Ok(Reaction { timer: None, stat: None, next: uplink_after(0) }));
}

#[test]
fn quiet_answers_ask_nothing() {
    for response in [LorawanResponse::Idle, LorawanResponse::Rxing, LorawanResponse::Other] {
        assert_eq!(react(Ok(response), Some(1), true), Ok(nothing()));
    }
}

#[test]
fn missing_acknowledgement_is_reported_and_the_uplink_repeated() {
    assert_eq!(
        react(Ok(LorawanResponse::NoAck), None, true),
        Ok(Reaction {
            timer: None,
            stat: Some(Message::Stat("AB8967452301".to_string(), Stat::DownlinkTimeout)),
            next: uplink_after(1_500),
        })
    );
    assert_eq!(
        react(Ok(LorawanResponse::NoAck), Some(3), false),
        Ok(Reaction { timer: None, stat: None, next: uplink_after(1_500) })
    );
}

#[test]
fn ready_to_send_repeats_the_uplink() {
    assert_eq!(
        react(Ok(LorawanResponse::ReadyToSend), None, true),
        Ok(Reaction { timer: None, stat: None, next: uplink_after(1_500) })
    );
}

#[test]
fn downlink_latency_is_reported_and_the_uplink_repeated() {
    assert_eq!(
        react(Ok(LorawanResponse::DataDown(17)), Some(2_000), true),
        Ok(Reaction {
            timer: None,
            stat: Some(Message::Stat("AB8967452301".to_string(), Stat::DownlinkResponse(2_000))),
            next: uplink_after(1_500),
        })
    );
    assert_eq!(
        react(Ok(LorawanResponse::DataDown(17)), None, true),
        Ok(Reaction { timer: None, stat: None, next: uplink_after(1_500) })
    );
    assert_eq!(
        react(Ok(LorawanResponse::DataDown(17)), Some(2_000), false),
        Ok(Reaction { timer: None, stat: None, next: uplink_after(1_500) })
    );
}

#[test]
fn uplink_after_a_downlink_is_spread_by_jitter() {
    let reaction = run_loop(
        &radio(true),
        &creds(),
        Ok(LorawanResponse::DataDown(1)),
        None,
        0xabcd_ef2a,
        false,
        1_500,
    );
    assert_eq!(reaction, Ok(Reaction { timer: None, stat: None, next: uplink_after(1_542) }));
    let reaction = run_loop(
        &radio(true),
        &creds(),
        Ok(LorawanResponse::DataDown(1)),
        None,
        u32::MAX,
        false,
        u64::MAX - 127,
    );
    assert_eq!(reaction, Ok(Reaction { timer: None, stat: None, next: uplink_after(u64::MAX) }));
}

#[test]
fn radio_errors_are_passed_over() {
    assert_eq!(react(Err(LorawanError::Radio), Some(9), true), Ok(nothing()));
}

#[test]
fn stale_events_are_passed_over() {
    for error in [SessionError::RadioEventWhileIdle, SessionError::RadioEventWhileWaitingForRxWindow]
    {
        assert_eq!(react(Err(LorawanError::Session(error)), None, true), Ok(nothing()));
    }
    for error in [
        NoSessionError::RadioEventWhileIdle,
        NoSessionError::RadioEventWhileWaitingForJoinWindow,
    ] {
        assert_eq!(react(Err(LorawanError::NoSession(error)), None, true), Ok(nothing()));
    }
}

#[test]
fn other_session_errors_are_fatal() {
    for error in [
        SessionError::NewSessionWhileWaitingForRxWindow,
        SessionError::SendDataWhileWaitingForRxWindow,
        SessionError::NewSessionWhileWaitingForRx,
        SessionError::SendDataWhileWaitingForRx,
    ] {
        assert_eq!(
            react(Err(LorawanError::Session(error)), None, true),
            Err(Fault::Session(error))
        );
    }
}

#[test]
fn other_no_session_errors_are_fatal() {
    for error in [
        NoSessionError::DeviceDoesNotHaveOtaaCredentials,
        NoSessionError::SendDataWhileNoSession,
        NoSessionError::NewSessionWhileWaitingForJoinWindow,
        NoSessionError::SendDataWhileWaitingForJoinWindow,
        NoSessionError::NewSessionWhileWaitingForJoinResponse,
    ] {
        assert_eq!(
            react(Err(LorawanError::NoSession(error)), None, true),
            Err(Fault::NoSession(error))
        );
    }
}

#[test]
fn retry_cycle_stays_alive() {
    let radio = radio(true);
    let mut uplinks = 0;
    for turn in 0..1_000u32 {
        let outcome = if turn % 2 == 0 {
            Ok(LorawanResponse::NoAck)
        } else {
            Ok(LorawanResponse::DataDown(turn))
        };
        let reaction = run_loop(&radio, &creds(), outcome, Some(turn as u64), turn, true, 10)
            .expect("the cycle ended in a fault");
        let next = reaction.next.expect("the cycle came to rest");
        assert_eq!(next.event, IntermediateEvent::SendPacket);
        assert!(next.delay_ms >= 10 && next.delay_ms <= 137);
        assert!(reaction.timer.is_none());
        uplinks += 1;
    }
    assert_eq!(uplinks, 1_000);
}

// An engine that joins at once and never hears an acknowledgement.
fn engine(event: &LorawanEvent) -> Result<LorawanResponse, LorawanError> {
    match event {
        LorawanEvent::NewSession => Ok(LorawanResponse::NewSession),
        LorawanEvent::SendData { .. } => Ok(LorawanResponse::NoAck),
        LorawanEvent::RadioEvent(_) => Err(LorawanError::Session(SessionError::RadioEventWhileIdle)),
        LorawanEvent::Timeout => Ok(LorawanResponse::Idle),
    }
}

#[test]
fn fresh_device_joins_and_keeps_sending() {
    let radio = radio(false);
    let mut now_ms: u64 = 0;
    let mut queue: Vec<(u64, IntermediateEvent)> = vec![(0, bootstrap())];
    let mut seen: Vec<IntermediateEvent> = Vec::new();
    let mut turns = 0;
    while !queue.is_empty() && turns < 6 {
        let (due, event) = queue.remove(0);
        now_ms = now_ms.max(due);
        seen.push(event.clone());
        let delivery = dispatch(event, radio.jitter(), 0x7b);
        now_ms += delivery.delay_ms;
        let outcome = engine(&delivery.event);
        let reaction =
            run_loop(&radio, &creds(), outcome, delivery.time, 0x7b, false, 0).unwrap();
        if let Some(next) = reaction.next {
            queue.push((now_ms + next.delay_ms, next.event));
            queue.sort_by_key(|(due, _)| *due);
        }
        turns += 1;
    }
    assert_eq!(seen[0], IntermediateEvent::NewSession);
    let new_sessions = seen.iter().filter(|e| **e == IntermediateEvent::NewSession).count();
    let uplinks = seen.iter().filter(|e| **e == IntermediateEvent::SendPacket).count();
    assert_eq!(new_sessions, 1);
    assert!(uplinks >= 3);
    assert_eq!(uplinks, 5);
    assert_eq!(now_ms, 0);
    assert_eq!(queue.len(), 1);
}
