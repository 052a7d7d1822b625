use bpfcap::errors::CaptureError;
use bpfcap::ether::{EthernetHeader, EthernetPacket, ETHERNET_HEADER_LEN};
use bpfcap::filter::{bpf_insn, bpf_program};
use bpfcap::ifname::{encode_interface_name, parse_interface_name};

#[test]
fn fifteen_byte_name_encodes_padded() {
    let name = b"abcdefghijklmno";
    assert_eq!(name.len(), 15);
    let field = encode_interface_name(name).expect("15 bytes fit");
    assert_eq!(field.len(), 16);
    assert_eq!(&field[..15], name);
    assert_eq!(field[15], 0);
}

#[test]
fn sixteen_byte_name_is_rejected_locally() {
    let name = b"abcdefghijklmnop";
    assert_eq!(name.len(), 16);
    let got = encode_interface_name(name);
    assert_eq!(got, Err(CaptureError::InvalidArgument));
}

#[test]
fn short_name_pads_with_zeroes() {
    let field = encode_interface_name(b"en0").expect("fits");
    assert_eq!(&field[..3], b"en0");
    assert!(field[3..].iter().all(|b| *b == 0));
    assert_eq!(field.len(), 16);
}

#[test]
fn returned_field_parses_up_to_first_zero() {
    let mut field = vec![0u8; 16];
    field[..4].copy_from_slice(b"wlan");
    field[5] = 0x7f;  // bytes past the terminator are ignored
    let name = parse_interface_name(&field).expect("terminated field");
    assert_eq!(name, b"wlan");
}

#[test]
fn field_without_terminator_is_invalid() {
    let field = [b'x'; 16];
    let got = parse_interface_name(&field);
    assert_eq!(got, Err(CaptureError::InvalidArgument));
}

#[test]
fn ethernet_header_decodes_fixed_layout() {
    let mut buf = Vec::new();
    buf.extend_from_slice(&[0x01, 0x02, 0x03, 0x04, 0x05, 0x06]);
    buf.extend_from_slice(&[0x11, 0x12, 0x13, 0x14, 0x15, 0x16]);
    buf.extend_from_slice(&[0x08, 0x00]);
    let h = EthernetHeader::try_decode(&buf).expect("14 bytes");
    assert_eq!(h.destination_mac.0, [0x01, 0x02, 0x03, 0x04, 0x05, 0x06]);
    assert_eq!(h.source_mac.0, [0x11, 0x12, 0x13, 0x14, 0x15, 0x16]);
    assert_eq!(h.ether_type, 0x0008);
}

#[test]
fn short_frame_has_no_header() {
    let buf = [0u8; ETHERNET_HEADER_LEN - 1];
    assert!(EthernetHeader::try_decode(&buf).is_none());
    assert!(EthernetPacket::try_decode(&buf).is_none());
}

#[test]
fn frame_splits_into_header_and_payload() {
    let mut buf = vec![0u8; ETHERNET_HEADER_LEN];
    buf.extend_from_slice(&[9, 8, 7, 6]);
    let pk = EthernetPacket::try_decode(&buf).expect("long enough");
    assert_eq!(pk.payload, &[9, 8, 7, 6]);
}

#[test]
fn empty_frame_payload_is_empty() {
    let buf = vec![0u8; ETHERNET_HEADER_LEN];
    let pk = EthernetPacket::try_decode(&buf).expect("exact header");
    assert_eq!(pk.payload.len(), 0);
}

#[test]
fn program_builder_keeps_the_sequence() {
    let mut p = bpf_program::empty();
    assert_eq!(p.len(), 0);
    p.push_instruction(0x28, 0, 0, 12);
    p.push_instruction(0x15, 0, 1, 0x0800);
    p.push_instruction(0x06, 0, 0, 0xffff);
    assert_eq!(p.len(), 3);
    let insns = p.instruction_vec();
    assert_eq!(insns[0], bpf_insn { code: 0x28, jt: 0, jf: 0, k: 12 });
    assert_eq!(insns[1], bpf_insn { code: 0x15, jt: 0, jf: 1, k: 0x0800 });
    assert_eq!(insns[2], bpf_insn { code: 0x06, jt: 0, jf: 0, k: 0xffff });
}

#[test]
fn program_from_instruction_vector() {
    let insns = vec![
        bpf_insn { code: 0x06, jt: 0, jf: 0, k: 0 },
        bpf_insn { code: 0x06, jt: 0, jf: 0, k: 1 },
    ];
    let p = bpf_program::from_instructions(insns).expect("countable");
    assert_eq!(p.len(), 2);
    assert_eq!(p.instruction_vec()[1].k, 1);
}
