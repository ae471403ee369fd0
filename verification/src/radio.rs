//! The radio that the protocol engine drives. It has no hardware behind it:
//! a transmit request becomes an uplink record for the packet forwarder
//! transport, and a downlink from the transport becomes a received frame.

use vstd::prelude::*;

use crate::codec::{base64_bytes, base64_text, decode, encode};
use crate::fault::Fault;
use crate::modulation::{
    codr_label, datr_label, initial_rf_config, RfConfig, RxQuality, Settings, TxConfig,
};
use crate::packet::{Event, IntermediateEvent, RxPk, Scheduled};
use crate::router::UdpRadioRuntime;
use crate::rx_buffer::{RxBuffer, RX_CAPACITY};

verus! {

/// Signal to noise ratio reported with every uplink, in tenths of a dB.
pub const TX_LSNR: i32 = 55;

/// Signal strength reported with every uplink, in dBm.
pub const TX_RSSI: i32 = -112;

/// CRC status reported with every uplink: the check passed.
pub const TX_STAT: u64 = 1;

/// Signal strength reported with every received frame, in dBm.
pub const RX_RSSI: i16 = -115;

/// Signal to noise ratio reported with every received frame, in dB.
pub const RX_SNR: i8 = 4;

/// Milliseconds by which the engine is to open a receive window early.
pub const RX_WINDOW_OFFSET_MS: i32 = 20;

/// Milliseconds for which the engine is to keep a receive window open.
pub const RX_WINDOW_DURATION_MS: u32 = 100;

/// What the engine asks of the radio.
#[derive(Clone, Debug, PartialEq, Eq)]
pub enum RadioEvent {
    /// Send these bytes with these settings.
    TxRequest(TxConfig, Vec<u8>),
    /// Listen with these settings.
    RxRequest(RfConfig),
    /// Stop listening.
    CancelRx,
    /// Something happened on the air.
    PhyEvent(Event),
}

/// What the radio answers.
#[derive(Clone, Copy, Debug, PartialEq, Eq, Structural)]
pub enum RadioResponse {
    Idle,
    /// The frame is out; the reading of the shared clock in milliseconds.
    TxDone(u32),
    /// A frame is in the receive buffer.
    RxDone(RxQuality),
}

/// How far the radio got with an event.
#[derive(Clone, Debug, PartialEq, Eq)]
pub enum Handled {
    /// The event is dealt with: this is the answer for the engine.
    Done(RadioResponse),
    /// The record is to be pushed to the outbound channel, without
    /// blocking; [`UdpRadio::tx_done`] then has the answer for the engine.
    Transmit(RxPk),
}

/// The state of a radio, as contracts see it.
pub struct UdpRadioView {
    /// The bytes in the receive buffer.
    pub rx_buffer: Seq<u8>,
    /// The settings of the last receive request.
    pub settings: Settings,
    /// The delay of the timer armed last, in milliseconds.
    pub window_start: u32,
    /// Whether retries are spread by a random delay.
    pub jitter: bool,
}

impl UdpRadioView {
    /// Whether the receive buffer holds no more than its capacity.
    pub open spec fn within_capacity(self) -> bool {
        self.rx_buffer.len() <= RX_CAPACITY
    }
}

/// The radio adapter.
pub struct UdpRadio {
    rx_buffer: RxBuffer,
    settings: Settings,
    window_start: u32,
    jitter: bool,
}

impl View for UdpRadio {
    type V = UdpRadioView;

    closed spec fn view(&self) -> UdpRadioView {
        UdpRadioView {
            rx_buffer: self.rx_buffer@,
            settings: self.settings,
            window_start: self.window_start,
            jitter: self.jitter,
        }
    }
}

/// Whether `rxpk` is the uplink record for `buffer`, sent with `tx_config`
/// when the shared clock read `tmst` microseconds.
pub open spec fn is_uplink_record(rxpk: RxPk, tx_config: TxConfig, buffer: Seq<u8>, tmst: u64) -> bool {
    &&& rxpk.chan == 0
    &&& rxpk.codr@ == codr_label(tx_config.rf.coding_rate)
    &&& rxpk.data@ == base64_text(buffer)
    &&& rxpk.datr@ == datr_label(tx_config.rf.spreading_factor, tx_config.rf.bandwidth)
    &&& rxpk.freq == tx_config.rf.frequency
    &&& rxpk.lsnr == TX_LSNR
    &&& rxpk.modu@ == "LORA"@
    &&& rxpk.rfch == 0
    &&& rxpk.rssi == TX_RSSI
    &&& rxpk.size == buffer.len()
    &&& rxpk.stat == TX_STAT
    &&& rxpk.tmst == tmst
}

/// What a downlink whose payload text is `data` leaves in the receive
/// buffer, or the fault it ends in.
pub open spec fn received_frame(data: Seq<char>) -> Result<Seq<u8>, Fault> {
    match base64_bytes(data) {
        None => Err(Fault::PayloadDecode),
        Some(bytes) => if bytes.len() <= RX_CAPACITY {
            Ok(bytes)
        } else {
            Err(Fault::RxBufferOverflow)
        },
    }
}

/// The radio's answer to a downlink whose payload text is `data`.
pub open spec fn downlink_answer(data: Seq<char>) -> Result<RadioResponse, Fault> {
    match received_frame(data) {
        Ok(_) => Ok(RadioResponse::RxDone(RxQuality { rssi: RX_RSSI, snr: RX_SNR })),
        Err(fault) => Err(fault),
    }
}

/// The radio's state after a downlink whose payload text is `data`. A
/// payload that does not decode leaves the radio as it was; one that is too
/// long leaves its first [`RX_CAPACITY`] bytes in the buffer.
pub open spec fn after_downlink(radio: UdpRadioView, data: Seq<char>) -> UdpRadioView {
    match base64_bytes(data) {
        None => radio,
        Some(bytes) => UdpRadioView {
            rx_buffer: if bytes.len() <= RX_CAPACITY {
                bytes
            } else {
                bytes.subrange(0, RX_CAPACITY as int)
            },
            ..radio
        },
    }
}

impl UdpRadio {
    /// A radio with an empty receive buffer, tuned to the initial channel,
    /// with jitter enabled; and the router that feeds its device.
    pub fn new() -> (made: (UdpRadioRuntime, UdpRadio))
        ensures
            made.1@ == (UdpRadioView {
                rx_buffer: Seq::<u8>::empty(),
                settings: Settings { rfconfig: initial_rf_config() },
                window_start: 0,
                jitter: true,
            }),
    {
        let radio = UdpRadio {
            rx_buffer: RxBuffer::new(),
            settings: Settings::default(),
            window_start: 0,
            jitter: true,
        };
        assert(radio.rx_buffer@ =~= Seq::<u8>::empty());
        (UdpRadioRuntime {  }, radio)
    }

    /// Turns the random spreading of retries off.
    pub fn disable_jitter(&mut self)
        ensures
            final(self)@ == (UdpRadioView { jitter: false, ..old(self)@ }),
    {
        self.jitter = false;
    }

    /// Whether retries are spread by a random delay.
    pub fn jitter(&self) -> (jitter: bool)
        ensures
            jitter == self@.jitter,
    {
        self.jitter
    }

    /// The delay of the timer armed last, in milliseconds.
    pub fn window_start(&self) -> (delay: u32)
        ensures
            delay == self@.window_start,
    {
        self.window_start
    }

    /// The settings of the last receive request.
    pub fn settings(&self) -> (settings: Settings)
        ensures
            settings == self@.settings,
    {
        self.settings
    }

    /// Arms the timer for the instant `future_time`, in milliseconds on the
    /// shared clock, which now reads `now_ms`: a `Timeout` is due once the
    /// difference has passed. The difference is kept as the window start.
    ///
    /// There is no way to disarm a timer.
    pub fn timer(&mut self, future_time: u32, now_ms: u32) -> (armed: Scheduled)
        requires
            future_time >= now_ms,
        ensures
            armed == (Scheduled {
                delay_ms: (future_time - now_ms) as u64,
                event: IntermediateEvent::Timeout,
            }),
            final(self)@ == (UdpRadioView {
                window_start: (future_time - now_ms) as u32,
                ..old(self)@
            }),
    {
        let delay = future_time - now_ms;
        self.window_start = delay;
        Scheduled { delay_ms: delay as u64, event: IntermediateEvent::Timeout }
    }

    /// The received frame, for the engine to read and to decrypt in place.
    pub fn get_received_packet(&mut self) -> (packet: &mut [u8])
        ensures
            packet@ == old(self)@.rx_buffer,
            final(self)@ == (UdpRadioView { rx_buffer: final(packet)@, ..old(self)@ }),
    {
        self.rx_buffer.as_mut_slice()
    }

    /// The uplink record for `buffer`, sent with `tx_config` when the shared
    /// clock reads `tmst` microseconds.
    ///
    /// The payload text of the record decodes to `buffer` again, so a radio
    /// that is handed the record's payload as a downlink holds `buffer`,
    /// provided the buffer has room for it.
    pub fn transmit(&self, tx_config: TxConfig, buffer: &[u8], tmst: u64) -> (rxpk: RxPk)
        ensures
            is_uplink_record(rxpk, tx_config, buffer@, tmst),
            base64_bytes(rxpk.data@) == Some(buffer@),
            buffer@.len() <= RX_CAPACITY ==> received_frame(rxpk.data@) == Ok::<Seq<u8>, Fault>(
                buffer@,
            ),
    {
        let size = buffer.len() as u64;
        let data = encode(buffer);
        let settings = Settings::from(tx_config);
        RxPk {
            chan: 0,
            codr: settings.get_codr(),
            data,
            datr: settings.get_datr(),
            freq: settings.get_freq(),
            lsnr: TX_LSNR,
            modu: String::from_str("LORA"),
            rfch: 0,
            rssi: TX_RSSI,
            size,
            stat: TX_STAT,
            tmst,
        }
    }

    /// The answer to a transmit request, once the push of its record to the
    /// outbound channel has been tried: `sent` tells whether the channel
    /// took it, `now_ms` is the reading of the shared clock in milliseconds.
    /// A record that the channel did not take is a fault, never a silent
    /// loss.
    pub fn tx_done(&self, sent: bool, now_ms: u32) -> (answer: Result<RadioResponse, Fault>)
        ensures
            sent ==> answer == Ok::<RadioResponse, Fault>(RadioResponse::TxDone(now_ms)),
            !sent ==> answer == Err::<RadioResponse, Fault>(Fault::TxQueueOverflow),
    {
        if sent {
            Ok(RadioResponse::TxDone(now_ms))
        } else {
            Err(Fault::TxQueueOverflow)
        }
    }

    /// Keeps `config` as the settings to listen with.
    pub fn prepare_receive(&mut self, config: RfConfig) -> (answer: RadioResponse)
        ensures
            answer == RadioResponse::Idle,
            final(self)@ == (UdpRadioView { settings: Settings { rfconfig: config }, ..old(self)@ }),
    {
        self.settings.rfconfig = config;
        RadioResponse::Idle
    }

    /// Stops listening. There is nothing to stop.
    pub fn cancel_receive(&self) -> (answer: RadioResponse)
        ensures
            answer == RadioResponse::Idle,
    {
        RadioResponse::Idle
    }

    /// Takes a downlink from the air: decodes its payload into the receive
    /// buffer, in place of what the buffer held.
    #[verifier::loop_isolation(false)]
    pub fn on_physical_event(&mut self, event: Event) -> (answer: Result<RadioResponse, Fault>)
        ensures
            event matches Event::Rx(packet) && {
                &&& answer == downlink_answer(packet.data@)
                &&& final(self)@ == after_downlink(old(self)@, packet.data@)
            },
    {
        match event {
            Event::Rx(packet) => match decode(packet.data.as_str()) {
                Ok(data) => {
                    self.rx_buffer.clear();
                    assert(self.rx_buffer@ =~= data@.subrange(0, 0));
                    let mut i: usize = 0;
                    while i < data.len()
                        invariant
                            i <= data.len(),
                            i <= RX_CAPACITY,
                            self.rx_buffer@ == data@.subrange(0, i as int),
                            self.settings == old(self).settings,
                            self.window_start == old(self).window_start,
                            self.jitter == old(self).jitter,
                        decreases data.len() - i,
                    {
                        match self.rx_buffer.push(data[i]) {
                            Ok(()) => {},
                            Err(_) => {
                                assert(i == RX_CAPACITY);
                                return Err(Fault::RxBufferOverflow);
                            },
                        }
                        assert(self.rx_buffer@ =~= data@.subrange(0, i + 1));
                        i = i + 1;
                    }
                    assert(data@.subrange(0, i as int) =~= data@);
                    Ok(RadioResponse::RxDone(RxQuality::new(RX_RSSI, RX_SNR)))
                },
                Err(_) => Err(Fault::PayloadDecode),
            },
        }
    }

    /// Handles one event of the engine. `tmst` is the reading of the shared
    /// clock in microseconds.
    pub fn handle_event(&mut self, event: RadioEvent, tmst: u64) -> (handled: Result<Handled, Fault>)
        ensures
            match event {
                RadioEvent::TxRequest(tx_config, buffer) => {
                    &&& handled matches Ok(Handled::Transmit(rxpk))
                    &&& is_uplink_record(rxpk, tx_config, buffer@, tmst)
                    &&& base64_bytes(rxpk.data@) == Some(buffer@)
                    &&& final(self)@ == old(self)@
                },
                RadioEvent::RxRequest(config) => {
                    &&& handled == Ok::<Handled, Fault>(Handled::Done(RadioResponse::Idle))
                    &&& final(self)@ == (UdpRadioView {
                        settings: Settings { rfconfig: config },
                        ..old(self)@
                    })
                },
                RadioEvent::CancelRx => {
                    &&& handled == Ok::<Handled, Fault>(Handled::Done(RadioResponse::Idle))
                    &&& final(self)@ == old(self)@
                },
                RadioEvent::PhyEvent(Event::Rx(packet)) => {
                    &&& handled == match downlink_answer(packet.data@) {
                        Ok(answer) => Ok::<Handled, Fault>(Handled::Done(answer)),
                        Err(fault) => Err::<Handled, Fault>(fault),
                    }
                    &&& final(self)@ == after_downlink(old(self)@, packet.data@)
                },
            },
    {
        match event {
            RadioEvent::TxRequest(tx_config, buffer) => {
                Ok(Handled::Transmit(self.transmit(tx_config, buffer.as_slice(), tmst)))
            },
            RadioEvent::RxRequest(config) => Ok(Handled::Done(self.prepare_receive(config))),
            RadioEvent::CancelRx => Ok(Handled::Done(self.cancel_receive())),
            RadioEvent::PhyEvent(udp_event) => match self.on_physical_event(udp_event) {
                Ok(answer) => Ok(Handled::Done(answer)),
                Err(fault) => Err(fault),
            },
        }
    }

    /// Milliseconds by which the engine is to open a receive window early.
    pub fn get_rx_window_offset_ms(&self) -> (offset: i32)
        ensures
            offset == RX_WINDOW_OFFSET_MS,
    {
        RX_WINDOW_OFFSET_MS
    }

    /// Milliseconds for which the engine is to keep a receive window open.
    pub fn get_rx_window_duration_ms(&self) -> (duration: u32)
        ensures
            duration == RX_WINDOW_DURATION_MS,
    {
        RX_WINDOW_DURATION_MS
    }
}

/// What is sent comes back: a radio that takes the payload text of an uplink
/// record as a downlink ends with the uplink's bytes in its receive buffer,
/// and reports a received frame.
pub proof fn lemma_uplink_round_trip(radio: UdpRadioView, buffer: Seq<u8>, data: Seq<char>)
    requires
        base64_bytes(data) == Some(buffer),
        buffer.len() <= RX_CAPACITY,
    ensures
        downlink_answer(data) == Ok::<RadioResponse, Fault>(
            RadioResponse::RxDone(RxQuality { rssi: RX_RSSI, snr: RX_SNR }),
        ),
        after_downlink(radio, data).rx_buffer == buffer,
{
}

/// The receive buffer never grows past its capacity, whatever arrives.
pub proof fn lemma_receive_buffer_never_grows(radio: UdpRadioView, data: Seq<char>)
    requires
        radio.within_capacity(),
    ensures
        after_downlink(radio, data).within_capacity(),
{
}

/// A payload text that does not decode ends in a fault, and leaves the radio
/// as it was.
pub proof fn lemma_corrupt_payload_is_fatal(radio: UdpRadioView, data: Seq<char>)
    requires
        base64_bytes(data) is None,
    ensures
        downlink_answer(data) == Err::<RadioResponse, Fault>(Fault::PayloadDecode),
        after_downlink(radio, data) == radio,
{
}

} // verus!
