use ctap::packet::{ContPacket, CtapCommand, CtapError, InitPacket, Packet};

const ALL_COMMANDS: [(CtapCommand, u8); 10] = [
    (CtapCommand::Invalid, 0x00),
    (CtapCommand::Ping, 0x01),
    (CtapCommand::Msg, 0x03),
    (CtapCommand::Lock, 0x04),
    (CtapCommand::Init, 0x06),
    (CtapCommand::Wink, 0x08),
    (CtapCommand::Cbor, 0x10),
    (CtapCommand::Cancel, 0x11),
    (CtapCommand::Keepalive, 0x3b),
    (CtapCommand::Error, 0x3f),
];

#[test]
fn command_wire_values() {
    for (cmd, byte) in ALL_COMMANDS {
        assert_eq!(cmd.to_wire_format(), byte);
    }
}

#[test]
fn command_byte_round_trip() {
    for (cmd, byte) in ALL_COMMANDS {
        assert_eq!(CtapCommand::from_wire_format(byte), cmd);
    }
}

#[test]
fn unknown_command_byte_decodes_to_invalid() {
    assert_eq!(CtapCommand::from_wire_format(0x7E), CtapCommand::Invalid);
}

#[test]
fn unknown_command_in_frame_reads_back_as_invalid() {
    let mut data = [0u8; 64];
    data[0..4].copy_from_slice(&[0x11, 0x22, 0x33, 0x44]);
    data[4] = 0x80 | 0x7E;
    let p = InitPacket::from_wire_format(&data);
    assert_eq!(p.cmd(), CtapCommand::Invalid);
}

#[test]
fn error_wire_values() {
    let all: [(CtapError, u8); 9] = [
        (CtapError::InvalidCmd, 0x01),
        (CtapError::InvalidPar, 0x02),
        (CtapError::InvalidLen, 0x03),
        (CtapError::InvalidSeq, 0x04),
        (CtapError::MsgTimeout, 0x05),
        (CtapError::ChannelBusy, 0x06),
        (CtapError::LockRequired, 0x0A),
        (CtapError::NA, 0x0B),
        (CtapError::Other, 0x7F),
    ];
    for (err, byte) in all {
        assert_eq!(err.to_wire_format(), byte);
    }
}

#[test]
fn error_descriptions() {
    assert_eq!(
        CtapError::InvalidCmd.description(),
        "The command in the request is invalid"
    );
    assert_eq!(
        CtapError::InvalidPar.description(),
        "The parameter(s) in the request is invalid"
    );
    assert_eq!(
        CtapError::InvalidLen.description(),
        "The length field (BCNT) is invalid for the request "
    );
    assert_eq!(
        CtapError::InvalidSeq.description(),
        "The sequence does not match expected value "
    );
    assert_eq!(CtapError::MsgTimeout.description(), "The message has timed out ");
    assert_eq!(
        CtapError::ChannelBusy.description(),
        "The device is busy for the requesting channel "
    );
    assert_eq!(CtapError::LockRequired.description(), "Command requires channel lock ");
    assert_eq!(CtapError::NA.description(), "Reserved error");
    assert_eq!(CtapError::Other.description(), "Unspecified error");
}

#[test]
fn init_example_serialization() {
    let p = InitPacket::new(&[0x11, 0x22, 0x33, 0x44], &CtapCommand::Ping, 1, &[0xAA]);
    let w = p.to_wire_format();
    assert_eq!(w.len(), 65);
    assert_eq!(w[0], 0x00);
    assert_eq!(&w[1..5], &[0x11, 0x22, 0x33, 0x44]);
    assert_eq!(w[5], 0x81);
    assert_eq!(&w[6..8], &[0x00, 0x01]);
    assert_eq!(w[8], 0xAA);
    assert!(w[9..65].iter().all(|&b| b == 0x00));
}

#[test]
fn cont_example_serialization() {
    let p = ContPacket::new(&[0x11, 0x22, 0x33, 0x44], 3, &[0xBB, 0xCC]);
    let w = p.to_wire_format();
    assert_eq!(w.len(), 65);
    assert_eq!(w[0], 0x00);
    assert_eq!(&w[1..5], &[0x11, 0x22, 0x33, 0x44]);
    assert_eq!(w[5], 0x03);
    assert_eq!(w[6], 0xBB);
    assert_eq!(w[7], 0xCC);
    assert!(w[8..65].iter().all(|&b| b == 0x00));
}

#[test]
fn init_round_trip() {
    let cid = [0xDE, 0xAD, 0xBE, 0xEF];
    let payload = [0x01, 0x02, 0x03, 0x04, 0x05];
    let p = InitPacket::new(&cid, &CtapCommand::Cbor, 0x1234, &payload);
    let w = p.to_wire_format().to_vec();
    let q = InitPacket::from_wire_format(&w[1..65]);
    assert_eq!(q.cid(), &cid);
    assert_eq!(q.cmd(), CtapCommand::Cbor);
    assert_eq!(q.size(), 0x1234);
    let mut expected = [0u8; 57];
    expected[0..5].copy_from_slice(&payload);
    assert_eq!(q.payload(), &expected);
    assert_eq!(q.to_wire_format(), w.as_slice());
}

#[test]
fn init_round_trip_largest_size() {
    let p = InitPacket::new(&[0, 0, 0, 1], &CtapCommand::Msg, 0xFFFF, &[]);
    let w = p.to_wire_format().to_vec();
    let q = InitPacket::from_wire_format(&w[1..65]);
    assert_eq!(q.size(), 0xFFFF);
    assert_eq!(q.cmd(), CtapCommand::Msg);
    assert_eq!(q.payload(), &[0u8; 57]);
}

#[test]
fn cont_round_trip() {
    let cid = [0xDE, 0xAD, 0xBE, 0xEF];
    let payload = [0x09, 0x08, 0x07];
    let p = ContPacket::new(&cid, 127, &payload);
    let w = p.to_wire_format().to_vec();
    let q = ContPacket::from_wire_format(&w[1..65]);
    assert_eq!(q.cid(), &cid);
    assert_eq!(q.seq(), 127);
    let mut expected = [0u8; 59];
    expected[0..3].copy_from_slice(&payload);
    assert_eq!(q.payload(), &expected);
    assert_eq!(q.to_wire_format(), w.as_slice());
}

#[test]
fn frame_type_disambiguation() {
    for (cmd, _) in ALL_COMMANDS {
        let p = InitPacket::new(&[1, 2, 3, 4], &cmd, 0, &[]);
        assert_eq!(p.to_wire_format()[5] & 0x80, 0x80);
    }
    for seq_no in [0u8, 1, 64, 127] {
        let p = ContPacket::new(&[1, 2, 3, 4], seq_no, &[]);
        assert_eq!(p.to_wire_format()[5] & 0x80, 0x00);
    }
}

#[test]
fn init_full_payload_fills_buffer_exactly() {
    let mut payload = [0u8; 57];
    for (i, b) in payload.iter_mut().enumerate() {
        *b = (i as u8) + 1;
    }
    let p = InitPacket::new(&[1, 2, 3, 4], &CtapCommand::Msg, 57, &payload);
    let w = p.to_wire_format();
    assert_eq!(&w[8..65], &payload);
    assert_eq!(w[64], 57);
}

#[test]
fn init_almost_full_payload_leaves_last_byte_zero() {
    let payload = [0x55u8; 56];
    let p = InitPacket::new(&[1, 2, 3, 4], &CtapCommand::Msg, 56, &payload);
    let w = p.to_wire_format();
    assert_eq!(&w[8..64], &payload);
    assert_eq!(w[64], 0x00);
}

#[test]
fn cont_full_payload_fills_buffer_exactly() {
    let payload = [0x77u8; 59];
    let p = ContPacket::new(&[1, 2, 3, 4], 0, &payload);
    let w = p.to_wire_format();
    assert_eq!(&w[6..65], &payload);
}

#[test]
fn empty_payloads_leave_regions_zero() {
    let i = InitPacket::new(&[9, 9, 9, 9], &CtapCommand::Wink, 0, &[]);
    assert_eq!(i.payload(), &[0u8; 57]);
    assert_eq!(i.size(), 0);
    let c = ContPacket::new(&[9, 9, 9, 9], 0, &[]);
    assert_eq!(c.payload(), &[0u8; 59]);
    assert_eq!(c.seq(), 0);
}
