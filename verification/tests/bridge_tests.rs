use lib::texts::text_of;
use lib::bridge::{
    nmos_ready, nmos_receiver_label, nmos_request_connect, nmos_sender_label, nmos_status,
    status_label, BridgeMemory, BRIDGE_LEN, CMD_CONNECT, COMMAND_OFFSET, LABEL_LEN,
    RECEIVER_OFFSET, SENDER_OFFSET, STATUS_OFFSET,
};

fn sample() -> BridgeMemory {
    let mut bytes = [0u8; 0x43];
    bytes[0] = 1;
    for i in 0..LABEL_LEN {
        bytes[SENDER_OFFSET + i] = 0x10 + i as u8;
        bytes[RECEIVER_OFFSET + i] = 0x80 + i as u8;
    }
    bytes[STATUS_OFFSET] = 2;
    BridgeMemory { bytes }
}

#[test]
fn ready_flag_is_byte_zero_equal_to_one() {
    let mut m = sample();
    assert!(nmos_ready(&m));
    m.bytes[0] = 0;
    assert!(!nmos_ready(&m));
    m.bytes[0] = 2;
    assert!(!nmos_ready(&m));
    m.bytes[0] = 0xFF;
    assert!(!nmos_ready(&m));
}

#[test]
fn labels_are_the_32_byte_fields() {
    let m = sample();
    let s = nmos_sender_label(&m);
    let r = nmos_receiver_label(&m);
    assert_eq!(s.len(), 32);
    assert_eq!(r.len(), 32);
    assert_eq!(s, (0..32u8).map(|i| 0x10 + i).collect::<Vec<u8>>());
    assert_eq!(r, (0..32u8).map(|i| 0x80 + i).collect::<Vec<u8>>());
    assert_eq!(&s[..], &m.bytes[1..0x21]);
    assert_eq!(&r[..], &m.bytes[0x21..0x41]);
}

#[test]
fn status_is_last_byte() {
    let mut m = sample();
    assert_eq!(nmos_status(&m), 2);
    m.bytes[0x42] = 7;
    assert_eq!(nmos_status(&m), 7);
    assert_eq!(BRIDGE_LEN, 0x43);
}

#[test]
fn connect_request_writes_command_only() {
    let mut m = sample();
    let before = m.bytes;
    nmos_request_connect(&mut m);
    assert_eq!(m.bytes[COMMAND_OFFSET], CMD_CONNECT);
    assert_eq!(m.bytes[0x41], 1);
    for i in 0..BRIDGE_LEN {
        if i != COMMAND_OFFSET {
            assert_eq!(m.bytes[i], before[i]);
        }
    }
    assert_eq!(nmos_sender_label(&m), (0..32u8).map(|i| 0x10 + i).collect::<Vec<u8>>());
    assert!(nmos_ready(&m));
    assert_eq!(nmos_status(&m), 2);
}

#[test]
fn status_names() {
    assert_eq!(text_of(status_label(0)), "Idle");
    assert_eq!(text_of(status_label(1)), "Connecting...");
    assert_eq!(text_of(status_label(2)), "Connected !");
    assert_eq!(text_of(status_label(3)), "Failed");
    assert_eq!(text_of(status_label(4)), "Unknown");
    assert_eq!(text_of(status_label(255)), "Unknown");
}
