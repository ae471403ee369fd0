//! Device identity and the label under which a device appears in logs and
//! metrics.

use vstd::prelude::*;

verus! {

/// The identity of a device. Only the device EUI is read here.
#[derive(Clone, Copy, Debug, PartialEq, Eq)]
pub struct Credentials {
    pub deveui: [u8; 8],
}

impl Credentials {
    pub fn new(deveui: [u8; 8]) -> (creds: Credentials)
        ensures
            creds.deveui == deveui,
    {
        Credentials { deveui }
    }

    pub fn deveui(&self) -> (deveui: &[u8; 8])
        ensures
            *deveui == self.deveui,
    {
        &self.deveui
    }
}

/// Number of characters in a device label.
pub const LABEL_LEN: usize = 12;

/// The lower case hexadecimal digit for a value below sixteen.
pub open spec fn lower_hex_digit(value: int) -> char {
    "0123456789abcdef"@[value]
}

/// The upper case hexadecimal digit for a value below sixteen.
pub open spec fn upper_hex_digit(value: int) -> char {
    "0123456789ABCDEF"@[value]
}

/// The value of the hexadecimal digit at place `i` of a text that spells
/// `bytes` with two digits each, the high one first.
pub open spec fn nibble_at(bytes: Seq<u8>, i: int) -> int {
    if i % 2 == 0 {
        bytes[i / 2] as int / 16
    } else {
        bytes[i / 2] as int % 16
    }
}

/// `bytes` in lower case hexadecimal digits.
pub open spec fn lower_hex(bytes: Seq<u8>) -> Seq<char> {
    Seq::new(2 * bytes.len(), |i: int| lower_hex_digit(nibble_at(bytes, i)))
}

/// `bytes` in upper case hexadecimal digits.
pub open spec fn upper_hex(bytes: Seq<u8>) -> Seq<char> {
    Seq::new(2 * bytes.len(), |i: int| upper_hex_digit(nibble_at(bytes, i)))
}

/// The upper case form of an ASCII letter; any other character unchanged.
pub open spec fn ascii_upper(c: char) -> char {
    if 'a' <= c && c <= 'z' {
        (c as int - 32) as char
    } else {
        c
    }
}

/// The label of the device with EUI `deveui`: the bytes in reverse order,
/// written in upper case hexadecimal, of which the last [`LABEL_LEN`]
/// characters.
pub open spec fn device_label(deveui: Seq<u8>) -> Seq<char> {
    let hex = upper_hex(deveui.reverse());
    hex.subrange(hex.len() - LABEL_LEN, hex.len() as int)
}

/// `hex::encode`: two lower case digits for each byte, the high four bits
/// first, taken from the table `0123456789abcdef`.
#[verifier::external_body]
pub(crate) fn hex_encode(bytes: &[u8]) -> (text: String)
    ensures
        text@ == lower_hex(bytes@),
{
    hex::encode(bytes)
}

/// `str::to_ascii_uppercase`: the letters `a` to `z` become `A` to `Z`, every
/// other character stays.
#[verifier::external_body]
pub(crate) fn to_ascii_uppercase(text: &str) -> (upper: String)
    ensures
        upper@ == text@.map_values(|c: char| ascii_upper(c)),
{
    text.to_ascii_uppercase()
}

/// Upper casing lower case hexadecimal digits gives the upper case digits.
pub proof fn lemma_upper_hex(bytes: Seq<u8>)
    ensures
        lower_hex(bytes).map_values(|c: char| ascii_upper(c)) == upper_hex(bytes),
{
    reveal_strlit("0123456789abcdef");
    reveal_strlit("0123456789ABCDEF");
    let upper = lower_hex(bytes).map_values(|c: char| ascii_upper(c));
    assert forall|i: int| 0 <= i < 2 * bytes.len() implies upper[i] == upper_hex(bytes)[i] by {
        let value = nibble_at(bytes, i);
        assert(0 <= i / 2 < bytes.len());
        assert(0 <= value < 16);
        assert(ascii_upper(lower_hex_digit(value)) == upper_hex_digit(value));
    }
    assert(upper =~= upper_hex(bytes));
}

/// The label reads the six low bytes of the EUI from the sixth down to the
/// first, two upper case hexadecimal digits each, the high one first.
pub proof fn lemma_device_label_digits(deveui: Seq<u8>)
    requires
        deveui.len() == 8,
    ensures
        device_label(deveui).len() == LABEL_LEN,
        forall|i: int|
            0 <= i < LABEL_LEN ==> #[trigger] device_label(deveui)[i] == upper_hex_digit(
                if i % 2 == 0 {
                    deveui[5 - i / 2] as int / 16
                } else {
                    deveui[5 - i / 2] as int % 16
                },
            ),
{
    let reversed = deveui.reverse();
    let hex = upper_hex(reversed);
    assert forall|i: int| 0 <= i < LABEL_LEN implies #[trigger] device_label(deveui)[i]
        == upper_hex_digit(
        if i % 2 == 0 {
            deveui[5 - i / 2] as int / 16
        } else {
            deveui[5 - i / 2] as int % 16
        },
    ) by {
        assert(device_label(deveui)[i] == hex[i + 4]);
        assert((i + 4) / 2 == i / 2 + 2 && (i + 4) % 2 == i % 2);
        assert(reversed[i / 2 + 2] == deveui[5 - i / 2]);
    }
}

/// The label of a device, as logs and metrics show it.
pub fn pretty_device(creds: &Credentials) -> (label: String)
    ensures
        label@ == device_label(creds.deveui@),
{
    let mut bytes: Vec<u8> = Vec::new();
    let mut left: usize = 8;
    while left > 0
        invariant
            left <= 8,
            bytes@.len() == 8 - left,
            forall|i: int| 0 <= i < bytes@.len() ==> bytes@[i] == creds.deveui@[7 - i],
        decreases left,
    {
        left = left - 1;
        bytes.push(creds.deveui[left]);
    }
    assert(bytes@ =~= creds.deveui@.reverse());
    let hex = hex_encode(bytes.as_slice());
    let upper = to_ascii_uppercase(hex.as_str());
    proof {
        lemma_upper_hex(bytes@);
    }
    let label = upper.as_str().substring_char(16 - LABEL_LEN, 16);
    label.to_owned()
}

} // verus!
