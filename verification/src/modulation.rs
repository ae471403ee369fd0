//! LoRa modulation settings and the text labels that the packet forwarder
//! protocol uses for them.

use vstd::prelude::*;
use vstd::std_specs::convert::FromSpecImpl;

verus! {

/// LoRa spreading factor.
#[derive(Clone, Copy, Debug, PartialEq, Eq, Structural)]
pub enum SpreadingFactor {
    Sf7,
    Sf8,
    Sf9,
    Sf10,
    Sf11,
    Sf12,
}

/// Channel bandwidth.
#[derive(Clone, Copy, Debug, PartialEq, Eq, Structural)]
pub enum Bandwidth {
    Bw125,
    Bw250,
    Bw500,
}

/// Forward error correction rate.
#[derive(Clone, Copy, Debug, PartialEq, Eq, Structural)]
pub enum CodingRate {
    Cr4_5,
    Cr4_6,
    Cr4_7,
    Cr4_8,
}

/// Where and how the radio sends or listens.
#[derive(Clone, Copy, Debug, PartialEq, Eq, Structural)]
pub struct RfConfig {
    /// Centre frequency in Hz.
    pub frequency: u32,
    pub bandwidth: Bandwidth,
    pub spreading_factor: SpreadingFactor,
    pub coding_rate: CodingRate,
}

/// A transmit request's settings: output power in dBm and the channel.
#[derive(Clone, Copy, Debug, PartialEq, Eq, Structural)]
pub struct TxConfig {
    pub pw: i8,
    pub rf: RfConfig,
}

/// Signal quality reported with a received frame.
#[derive(Clone, Copy, Debug, PartialEq, Eq, Structural)]
pub struct RxQuality {
    /// Received signal strength in dBm.
    pub rssi: i16,
    /// Signal to noise ratio in dB.
    pub snr: i8,
}

impl RxQuality {
    pub fn new(rssi: i16, snr: i8) -> (quality: RxQuality)
        ensures
            quality == (RxQuality { rssi, snr }),
    {
        RxQuality { rssi, snr }
    }
}

/// The label of a coding rate.
pub open spec fn codr_label(coding_rate: CodingRate) -> Seq<char> {
    match coding_rate {
        CodingRate::Cr4_5 => "4/5"@,
        CodingRate::Cr4_6 => "4/6"@,
        CodingRate::Cr4_7 => "4/7"@,
        CodingRate::Cr4_8 => "4/8"@,
    }
}

/// The spreading factor's part of a data rate label.
pub open spec fn sf_label(spreading_factor: SpreadingFactor) -> Seq<char> {
    match spreading_factor {
        SpreadingFactor::Sf7 => "SF7"@,
        SpreadingFactor::Sf8 => "SF8"@,
        SpreadingFactor::Sf9 => "SF9"@,
        SpreadingFactor::Sf10 => "SF10"@,
        SpreadingFactor::Sf11 => "SF11"@,
        SpreadingFactor::Sf12 => "SF12"@,
    }
}

/// The bandwidth's part of a data rate label.
pub open spec fn bw_label(bandwidth: Bandwidth) -> Seq<char> {
    match bandwidth {
        Bandwidth::Bw125 => "BW125"@,
        Bandwidth::Bw250 => "BW250"@,
        Bandwidth::Bw500 => "BW500"@,
    }
}

/// The data rate label: spreading factor, then bandwidth, as in `SF7BW125`.
pub open spec fn datr_label(spreading_factor: SpreadingFactor, bandwidth: Bandwidth) -> Seq<char> {
    sf_label(spreading_factor) + bw_label(bandwidth)
}

/// The coding rate that a label stands for, if it is one of the four labels.
pub open spec fn codr_of_label(label: Seq<char>) -> Option<CodingRate> {
    if label == "4/5"@ {
        Some(CodingRate::Cr4_5)
    } else if label == "4/6"@ {
        Some(CodingRate::Cr4_6)
    } else if label == "4/7"@ {
        Some(CodingRate::Cr4_7)
    } else if label == "4/8"@ {
        Some(CodingRate::Cr4_8)
    } else {
        None
    }
}

/// The spreading factor that the first part of a data rate label stands for.
pub open spec fn sf_of_label(label: Seq<char>) -> Option<SpreadingFactor> {
    if label == "SF7"@ {
        Some(SpreadingFactor::Sf7)
    } else if label == "SF8"@ {
        Some(SpreadingFactor::Sf8)
    } else if label == "SF9"@ {
        Some(SpreadingFactor::Sf9)
    } else if label == "SF10"@ {
        Some(SpreadingFactor::Sf10)
    } else if label == "SF11"@ {
        Some(SpreadingFactor::Sf11)
    } else if label == "SF12"@ {
        Some(SpreadingFactor::Sf12)
    } else {
        None
    }
}

/// The bandwidth that the last part of a data rate label stands for.
pub open spec fn bw_of_label(label: Seq<char>) -> Option<Bandwidth> {
    if label == "BW125"@ {
        Some(Bandwidth::Bw125)
    } else if label == "BW250"@ {
        Some(Bandwidth::Bw250)
    } else if label == "BW500"@ {
        Some(Bandwidth::Bw500)
    } else {
        None
    }
}

/// Reads a data rate label back: the last five characters name the
/// bandwidth, what stands before them the spreading factor.
pub open spec fn datr_of_label(label: Seq<char>) -> Option<(SpreadingFactor, Bandwidth)> {
    if label.len() < 5 {
        None
    } else {
        let cut = label.len() - 5;
        match (sf_of_label(label.subrange(0, cut)), bw_of_label(label.subrange(cut, label.len() as int))) {
            (Some(spreading_factor), Some(bandwidth)) => Some((spreading_factor, bandwidth)),
            _ => None,
        }
    }
}

/// Makes the characters of every label known to the solver.
pub proof fn lemma_label_texts()
    ensures
        "4/5"@ == seq!['4', '/', '5'],
        "4/6"@ == seq!['4', '/', '6'],
        "4/7"@ == seq!['4', '/', '7'],
        "4/8"@ == seq!['4', '/', '8'],
        "SF7"@ == seq!['S', 'F', '7'],
        "SF8"@ == seq!['S', 'F', '8'],
        "SF9"@ == seq!['S', 'F', '9'],
        "SF10"@ == seq!['S', 'F', '1', '0'],
        "SF11"@ == seq!['S', 'F', '1', '1'],
        "SF12"@ == seq!['S', 'F', '1', '2'],
        "BW125"@ == seq!['B', 'W', '1', '2', '5'],
        "BW250"@ == seq!['B', 'W', '2', '5', '0'],
        "BW500"@ == seq!['B', 'W', '5', '0', '0'],
{
    reveal_strlit("4/5");
    reveal_strlit("4/6");
    reveal_strlit("4/7");
    reveal_strlit("4/8");
    reveal_strlit("SF7");
    reveal_strlit("SF8");
    reveal_strlit("SF9");
    reveal_strlit("SF10");
    reveal_strlit("SF11");
    reveal_strlit("SF12");
    reveal_strlit("BW125");
    reveal_strlit("BW250");
    reveal_strlit("BW500");
    assert("4/5"@ =~= seq!['4', '/', '5']);
    assert("4/6"@ =~= seq!['4', '/', '6']);
    assert("4/7"@ =~= seq!['4', '/', '7']);
    assert("4/8"@ =~= seq!['4', '/', '8']);
    assert("SF7"@ =~= seq!['S', 'F', '7']);
    assert("SF8"@ =~= seq!['S', 'F', '8']);
    assert("SF9"@ =~= seq!['S', 'F', '9']);
    assert("SF10"@ =~= seq!['S', 'F', '1', '0']);
    assert("SF11"@ =~= seq!['S', 'F', '1', '1']);
    assert("SF12"@ =~= seq!['S', 'F', '1', '2']);
    assert("BW125"@ =~= seq!['B', 'W', '1', '2', '5']);
    assert("BW250"@ =~= seq!['B', 'W', '2', '5', '0']);
    assert("BW500"@ =~= seq!['B', 'W', '5', '0', '0']);
}

/// Every coding rate label has three characters, and reading it back gives
/// the coding rate it was made from.
pub proof fn lemma_codr_label_round_trip(coding_rate: CodingRate)
    ensures
        codr_label(coding_rate).len() == 3,
        codr_of_label(codr_label(coding_rate)) == Some(coding_rate),
{
    lemma_label_texts();
    let label = codr_label(coding_rate);
    assert(label[2] == '5' || label[2] == '6' || label[2] == '7' || label[2] == '8');
}

/// Two coding rates have the same label only if they are the same.
pub proof fn lemma_codr_label_one_to_one(a: CodingRate, b: CodingRate)
    ensures
        codr_label(a) == codr_label(b) <==> a == b,
{
    lemma_codr_label_round_trip(a);
    lemma_codr_label_round_trip(b);
}

/// A label that reads back as a coding rate is that coding rate's label.
pub proof fn lemma_codr_of_label_sound(label: Seq<char>)
    ensures
        codr_of_label(label) matches Some(coding_rate) ==> codr_label(coding_rate) == label,
{
}

/// Every data rate label has eight or nine characters, and reading it back
/// gives the spreading factor and the bandwidth it was made from.
pub proof fn lemma_datr_label_round_trip(spreading_factor: SpreadingFactor, bandwidth: Bandwidth)
    ensures
        8 <= datr_label(spreading_factor, bandwidth).len() <= 9,
        datr_of_label(datr_label(spreading_factor, bandwidth)) == Some(
            (spreading_factor, bandwidth),
        ),
{
    lemma_label_texts();
    let sf = sf_label(spreading_factor);
    let bw = bw_label(bandwidth);
    let label = datr_label(spreading_factor, bandwidth);
    let cut = label.len() - 5;
    assert(bw.len() == 5);
    assert(label.subrange(0, cut) =~= sf);
    assert(label.subrange(cut, label.len() as int) =~= bw);
    assert(sf[2] == '7' || sf[2] == '8' || sf[2] == '9' || sf[2] == '1');
    assert(sf.len() == 4 ==> sf[3] == '0' || sf[3] == '1' || sf[3] == '2');
    assert(bw[2] == '1' || bw[2] == '2' || bw[2] == '5');
    assert(sf_of_label(sf) == Some(spreading_factor));
    assert(bw_of_label(bw) == Some(bandwidth));
}

/// A label that reads back as a spreading factor and a bandwidth is their
/// data rate label.
pub proof fn lemma_datr_of_label_sound(label: Seq<char>)
    ensures
        datr_of_label(label) matches Some((spreading_factor, bandwidth)) ==> datr_label(
            spreading_factor,
            bandwidth,
        ) == label,
{
    if label.len() >= 5 {
        let cut = label.len() - 5;
        assert(label =~= label.subrange(0, cut) + label.subrange(cut, label.len() as int));
    }
}

/// Two settings have the same data rate label only if they agree in
/// spreading factor and bandwidth.
pub proof fn lemma_datr_label_one_to_one(
    sf_a: SpreadingFactor,
    bw_a: Bandwidth,
    sf_b: SpreadingFactor,
    bw_b: Bandwidth,
)
    ensures
        datr_label(sf_a, bw_a) == datr_label(sf_b, bw_b) <==> sf_a == sf_b && bw_a == bw_b,
{
    lemma_datr_label_round_trip(sf_a, bw_a);
    lemma_datr_label_round_trip(sf_b, bw_b);
}

impl Default for RfConfig {
    /// The channel an adapter is tuned to before the first receive request:
    /// 902.3 MHz, 125 kHz, SF7, 4/5.
    fn default() -> (config: RfConfig)
        ensures
            config == initial_rf_config(),
    {
        RfConfig {
            frequency: 902_300_000,
            bandwidth: Bandwidth::Bw125,
            spreading_factor: SpreadingFactor::Sf7,
            coding_rate: CodingRate::Cr4_5,
        }
    }
}

/// The value of `RfConfig::default()`.
pub open spec fn initial_rf_config() -> RfConfig {
    RfConfig {
        frequency: 902_300_000,
        bandwidth: Bandwidth::Bw125,
        spreading_factor: SpreadingFactor::Sf7,
        coding_rate: CodingRate::Cr4_5,
    }
}

/// The radio settings that the adapter derives its labels from.
#[derive(Clone, Copy, Debug, PartialEq, Eq, Structural)]
pub struct Settings {
    pub rfconfig: RfConfig,
}

impl Default for Settings {
    fn default() -> (settings: Settings)
        ensures
            settings.rfconfig == initial_rf_config(),
    {
        Settings { rfconfig: RfConfig::default() }
    }
}

impl From<TxConfig> for Settings {
    fn from(txconfig: TxConfig) -> (settings: Settings) {
        Settings { rfconfig: txconfig.rf }
    }
}

impl FromSpecImpl<TxConfig> for Settings {
    open spec fn obeys_from_spec() -> bool {
        true
    }

    open spec fn from_spec(txconfig: TxConfig) -> Settings {
        Settings { rfconfig: txconfig.rf }
    }
}

impl Settings {
    /// The data rate label of these settings.
    pub fn get_datr(&self) -> (label: String)
        ensures
            label@ == datr_label(self.rfconfig.spreading_factor, self.rfconfig.bandwidth),
    {
        let spreading_factor = match self.rfconfig.spreading_factor {
            SpreadingFactor::Sf7 => "SF7",
            SpreadingFactor::Sf8 => "SF8",
            SpreadingFactor::Sf9 => "SF9",
            SpreadingFactor::Sf10 => "SF10",
            SpreadingFactor::Sf11 => "SF11",
            SpreadingFactor::Sf12 => "SF12",
        };
        let bandwidth = match self.rfconfig.bandwidth {
            Bandwidth::Bw125 => "BW125",
            Bandwidth::Bw250 => "BW250",
            Bandwidth::Bw500 => "BW500",
        };
        String::from_str(spreading_factor).concat(bandwidth)
    }

    /// The coding rate label of these settings.
    pub fn get_codr(&self) -> (label: String)
        ensures
            label@ == codr_label(self.rfconfig.coding_rate),
    {
        let coding_rate = match self.rfconfig.coding_rate {
            CodingRate::Cr4_5 => "4/5",
            CodingRate::Cr4_6 => "4/6",
            CodingRate::Cr4_7 => "4/7",
            CodingRate::Cr4_8 => "4/8",
        };
        String::from_str(coding_rate)
    }

    /// The centre frequency in Hz.
    pub fn get_freq(&self) -> (hz: u32)
        ensures
            hz == self.rfconfig.frequency,
    {
        self.rfconfig.frequency
    }
}

} // verus!
