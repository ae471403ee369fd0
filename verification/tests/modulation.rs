use udp_radio::modulation::{
    Bandwidth, CodingRate, RfConfig, RxQuality, Settings, SpreadingFactor, TxConfig,
};

fn settings(sf: SpreadingFactor, bw: Bandwidth, cr: CodingRate) -> Settings {
    Settings {
        rfconfig: RfConfig {
            frequency: 903_900_000,
            bandwidth: bw,
            spreading_factor: sf,
            coding_rate: cr,
        },
    }
}

fn all_sf() -> Vec<(SpreadingFactor, &'static str)> {
    vec![
        (SpreadingFactor::Sf7, "SF7"),
        (SpreadingFactor::Sf8, "SF8"),
        (SpreadingFactor::Sf9, "SF9"),
        (SpreadingFactor::Sf10, "SF10"),
        (SpreadingFactor::Sf11, "SF11"),
        (SpreadingFactor::Sf12, "SF12"),
    ]
}

fn all_bw() -> Vec<(Bandwidth, &'static str)> {
    vec![
        (Bandwidth::Bw125, "BW125"),
        (Bandwidth::Bw250, "BW250"),
        (Bandwidth::Bw500, "BW500"),
    ]
}

fn all_cr() -> Vec<(CodingRate, &'static str)> {
    vec![
        (CodingRate::Cr4_5, "4/5"),
        (CodingRate::Cr4_6, "4/6"),
        (CodingRate::Cr4_7, "4/7"),
        (CodingRate::Cr4_8, "4/8"),
    ]
}

#[test]
fn codr_label_of_every_coding_rate() {
    for (cr, label) in all_cr() {
        let s = settings(SpreadingFactor::Sf7, Bandwidth::Bw125, cr);
        assert_eq!(s.get_codr(), label);
    }
}

#[test]
fn datr_label_of_every_data_rate() {
    for (sf, sf_label) in all_sf() {
        for (bw, bw_label) in all_bw() {
            let s = settings(sf, bw, CodingRate::Cr4_5);
            assert_eq!(s.get_datr(), format!("{}{}", sf_label, bw_label));
        }
    }
}

#[test]
fn datr_label_examples() {
    let s = settings(SpreadingFactor::Sf7, Bandwidth::Bw125, CodingRate::Cr4_5);
    assert_eq!(s.get_datr(), "SF7BW125");
    let s = settings(SpreadingFactor::Sf12, Bandwidth::Bw500, CodingRate::Cr4_8);
    assert_eq!(s.get_datr(), "SF12BW500");
    let s = settings(SpreadingFactor::Sf10, Bandwidth::Bw250, CodingRate::Cr4_6);
    assert_eq!(s.get_datr(), "SF10BW250");
}

#[test]
fn labels_are_one_to_one() {
    let mut datr: Vec<String> = Vec::new();
    for (sf, _) in all_sf() {
        for (bw, _) in all_bw() {
            datr.push(settings(sf, bw, CodingRate::Cr4_5).get_datr());
        }
    }
    assert_eq!(datr.len(), 18);
    for i in 0..datr.len() {
        assert!(!datr[i].is_empty());
        for j in 0..datr.len() {
            assert_eq!(datr[i] == datr[j], i == j);
        }
    }
    let mut codr: Vec<String> = Vec::new();
    for (cr, _) in all_cr() {
        codr.push(settings(SpreadingFactor::Sf7, Bandwidth::Bw125, cr).get_codr());
    }
    for i in 0..codr.len() {
        assert_eq!(codr[i].len(), 3);
        for j in 0..codr.len() {
            assert_eq!(codr[i] == codr[j], i == j);
        }
    }
}

#[test]
fn frequency_is_kept_in_hz() {
    let s = settings(SpreadingFactor::Sf7, Bandwidth::Bw125, CodingRate::Cr4_5);
    assert_eq!(s.get_freq(), 903_900_000);
}

#[test]
fn settings_from_tx_config_take_the_channel() {
    let rf = RfConfig {
        frequency: 868_100_000,
        bandwidth: Bandwidth::Bw250,
        spreading_factor: SpreadingFactor::Sf9,
        coding_rate: CodingRate::Cr4_7,
    };
    let s = Settings::from(TxConfig { pw: 14, rf });
    assert_eq!(s, Settings { rfconfig: rf });
    assert_eq!(s.get_datr(), "SF9BW250");
    assert_eq!(s.get_codr(), "4/7");
}

#[test]
fn initial_settings() {
    let rf = RfConfig::default();
    assert_eq!(
        rf,
        RfConfig {
            frequency: 902_300_000,
            bandwidth: Bandwidth::Bw125,
            spreading_factor: SpreadingFactor::Sf7,
            coding_rate: CodingRate::Cr4_5,
        }
    );
    assert_eq!(Settings::default(), Settings { rfconfig: rf });
}

#[test]
fn rx_quality_keeps_its_values() {
    let q = RxQuality::new(-115, 4);
    assert_eq!(q.rssi, -115);
    assert_eq!(q.snr, 4);
}
