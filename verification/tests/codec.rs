use cctpintegration::codec::{
    decode_deposit_for_burn, decode_send_message, encode_deposit_for_burn, encode_send_message,
    DepositForBurnParams, SendMessageParams, DEPOSIT_FOR_BURN_DISCRIMINATOR,
    SEND_MESSAGE_DISCRIMINATOR,
};

fn addr(tag: u8) -> [u8; 32] {
    let mut a = [tag; 32];
    a[0] = tag.wrapping_add(1);
    a
}

fn sample_burn_params() -> DepositForBurnParams {
    DepositForBurnParams {
        amount: 0x0102030405060708,
        destination_domain: 0x0A0B0C0D,
        mint_recipient: addr(0x21),
        destination_caller: addr(0x42),
        max_fee: 0x1112131415161718,
        min_finality_threshold: 0x1A1B1C1D,
    }
}

#[test]
fn deposit_for_burn_payload_layout_is_exact() {
    let p = sample_burn_params();
    let bytes = encode_deposit_for_burn(&p);

    let mut expected = Vec::new();
    expected.extend_from_slice(&DEPOSIT_FOR_BURN_DISCRIMINATOR);
    expected.extend_from_slice(&p.amount.to_le_bytes());
    expected.extend_from_slice(&p.destination_domain.to_le_bytes());
    expected.extend_from_slice(&p.mint_recipient);
    expected.extend_from_slice(&p.destination_caller);
    expected.extend_from_slice(&p.max_fee.to_le_bytes());
    expected.extend_from_slice(&p.min_finality_threshold.to_le_bytes());

    assert_eq!(bytes.len(), 96);
    assert_eq!(bytes, expected);
}

#[test]
fn deposit_for_burn_discriminator_value() {
    // sha256("global:deposit_for_burn")[0..8]
    assert_eq!(DEPOSIT_FOR_BURN_DISCRIMINATOR, [215, 60, 61, 46, 114, 55, 128, 176]);
    let bytes = encode_deposit_for_burn(&sample_burn_params());
    assert_eq!(&bytes[0..8], &DEPOSIT_FOR_BURN_DISCRIMINATOR);
}

#[test]
fn send_message_discriminator_value() {
    // sha256("global:send_message")[0..8]
    assert_eq!(SEND_MESSAGE_DISCRIMINATOR, [57, 40, 34, 178, 189, 10, 65, 26]);
}

#[test]
fn deposit_for_burn_round_trips() {
    let p = sample_burn_params();
    let bytes = encode_deposit_for_burn(&p);
    let q = decode_deposit_for_burn(&bytes).expect("payload decodes");
    assert_eq!(q.amount, p.amount);
    assert_eq!(q.destination_domain, p.destination_domain);
    assert_eq!(q.mint_recipient, p.mint_recipient);
    assert_eq!(q.destination_caller, p.destination_caller);
    assert_eq!(q.max_fee, p.max_fee);
    assert_eq!(q.min_finality_threshold, p.min_finality_threshold);
    assert_eq!(q, p);
}

#[test]
fn deposit_for_burn_rejects_wrong_discriminator() {
    let mut bytes = encode_deposit_for_burn(&sample_burn_params());
    bytes[0] ^= 0xFF;
    assert_eq!(decode_deposit_for_burn(&bytes), None);
}

#[test]
fn deposit_for_burn_rejects_wrong_length() {
    let bytes = encode_deposit_for_burn(&sample_burn_params());
    assert_eq!(decode_deposit_for_burn(&bytes[..95]), None);
    let mut long = bytes.clone();
    long.push(0);
    assert_eq!(decode_deposit_for_burn(&long), None);
    assert_eq!(decode_deposit_for_burn(&[]), None);
}

#[test]
fn send_message_zero_body_is_exactly_the_header() {
    // A zero-length body gives discriminator(8) + 4 + 32 + 32 + 4 + 4 bytes
    // with a zero length prefix and no trailing bytes.
    let p = SendMessageParams {
        destination_domain: 1,
        recipient: addr(0x33),
        destination_caller: addr(0x44),
        min_finality_threshold: 2_000,
        message_body: Vec::new(),
    };
    let bytes = encode_send_message(&p);
    assert_eq!(bytes.len(), 8 + 4 + 32 + 32 + 4 + 4);
    assert_eq!(&bytes[80..84], &0u32.to_le_bytes());
}

#[test]
fn send_message_payload_layout_is_exact() {
    let p = SendMessageParams {
        destination_domain: 0x01020304,
        recipient: addr(0x55),
        destination_caller: addr(0x66),
        min_finality_threshold: 0x05060708,
        message_body: vec![0xDE, 0xAD, 0xBE, 0xEF, 0x99],
    };
    let bytes = encode_send_message(&p);

    let mut expected = Vec::new();
    expected.extend_from_slice(&SEND_MESSAGE_DISCRIMINATOR);
    expected.extend_from_slice(&p.destination_domain.to_le_bytes());
    expected.extend_from_slice(&p.recipient);
    expected.extend_from_slice(&p.destination_caller);
    expected.extend_from_slice(&p.min_finality_threshold.to_le_bytes());
    expected.extend_from_slice(&5u32.to_le_bytes());
    expected.extend_from_slice(&p.message_body);

    assert_eq!(bytes.len(), 84 + 5);
    assert_eq!(bytes, expected);
}

#[test]
fn send_message_round_trips() {
    let p = SendMessageParams {
        destination_domain: 7,
        recipient: addr(0x77),
        destination_caller: addr(0x88),
        min_finality_threshold: 1,
        message_body: (0u8..=200).collect(),
    };
    let bytes = encode_send_message(&p);
    let q = decode_send_message(&bytes).expect("payload decodes");
    assert_eq!(q, p);
}

#[test]
fn send_message_round_trips_empty_body() {
    let p = SendMessageParams {
        destination_domain: 0,
        recipient: [0u8; 32],
        destination_caller: [0u8; 32],
        min_finality_threshold: 0,
        message_body: Vec::new(),
    };
    let q = decode_send_message(&encode_send_message(&p)).expect("payload decodes");
    assert_eq!(q, p);
}

#[test]
fn send_message_rejects_bad_length_prefix() {
    let p = SendMessageParams {
        destination_domain: 7,
        recipient: addr(0x77),
        destination_caller: addr(0x88),
        min_finality_threshold: 1,
        message_body: vec![1, 2, 3],
    };
    let mut bytes = encode_send_message(&p);
    bytes[80] = 2; // claims 2 body bytes while 3 follow
    assert_eq!(decode_send_message(&bytes), None);
}

#[test]
fn send_message_rejects_truncated_header() {
    assert_eq!(decode_send_message(&SEND_MESSAGE_DISCRIMINATOR), None);
    assert_eq!(decode_send_message(&[]), None);
}

#[test]
fn send_message_rejects_wrong_discriminator() {
    let p = SendMessageParams {
        destination_domain: 7,
        recipient: addr(0x17),
        destination_caller: addr(0x18),
        min_finality_threshold: 1,
        message_body: Vec::new(),
    };
    let mut bytes = encode_send_message(&p);
    bytes[7] ^= 0x01;
    assert_eq!(decode_send_message(&bytes), None);
}
