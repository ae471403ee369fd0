use udp_radio::device::{pretty_device, Credentials, LABEL_LEN};

#[test]
fn label_is_last_twelve_digits_of_reversed_eui() {
    let creds = Credentials::new([0x01, 0x23, 0x45, 0x67, 0x89, 0xab, 0xcd, 0xef]);
    assert_eq!(pretty_device(&creds), "AB8967452301");
}

#[test]
fn label_is_upper_case() {
    let creds = Credentials::new([0xfa, 0xfb, 0xfc, 0xfd, 0xfe, 0xff, 0x00, 0x11]);
    assert_eq!(pretty_device(&creds), "FFFEFDFCFBFA");
}

#[test]
fn label_of_zero_eui() {
    let creds = Credentials::new([0; 8]);
    let label = pretty_device(&creds);
    assert_eq!(label, "000000000000");
    assert_eq!(label.len(), LABEL_LEN);
}

#[test]
fn label_agrees_with_hex_crate() {
    let eui = [0x70, 0xb3, 0xd5, 0x7e, 0xd0, 0x03, 0x1a, 0x9c];
    let mut reversed = eui.to_vec();
    reversed.reverse();
    let hex = hex::encode_upper(&reversed);
    assert_eq!(pretty_device(&Credentials::new(eui)), hex[4..].to_string());
    assert_eq!(pretty_device(&Credentials::new(eui)), "03D07ED5B370");
}

#[test]
fn credentials_hand_out_the_eui() {
    let creds = Credentials::new([1, 2, 3, 4, 5, 6, 7, 8]);
    assert_eq!(creds.deveui(), &[1, 2, 3, 4, 5, 6, 7, 8]);
}
