use sdsp_gpio::sdsp::crc::sdsp_crc16;
use sdsp_gpio::sdsp::{
    assemble_packet, encode, join_bytes, lsb, msb, PacketInfo, BROADCAST_ID, FRAME_OVERHEAD,
    MAX_BODY_LEN, PKG_END_BYTE, PKG_START_BYTE,
};

#[test]
fn crc_of_nothing_is_zero() {
    assert_eq!(sdsp_crc16(&vec![]), 0x0000);
}

#[test]
fn crc_of_zero_byte_is_zero() {
    assert_eq!(sdsp_crc16(&vec![0x00]), 0x0000);
}

#[test]
fn crc_of_known_inputs() {
    assert_eq!(sdsp_crc16(&vec![0x01]), 0x17CE);
    assert_eq!(sdsp_crc16(&vec![0x7B]), 0x1D1B);
    assert_eq!(sdsp_crc16(&vec![1, 2, 3]), 0x1859);
    assert_eq!(sdsp_crc16(&vec![0xFF, 0xFF, 0xFF, 0xFF]), 0x09A9);
    assert_eq!(sdsp_crc16(&b"123456789".to_vec()), 0x0C73);
}

#[test]
fn crc_tells_single_bit_flips_apart() {
    let data: Vec<u8> = vec![0x7B, 0x01, 0x02, 0x00, 0x03, 0xDE, 0xAD, 0x7D, 0x00, 0x00, 0x7D];
    let reference: u16 = sdsp_crc16(&data);
    for index in 0..data.len() {
        for bit in 0..8u8 {
            let mut damaged = data.clone();
            damaged[index] ^= 1u8 << bit;
            assert_ne!(sdsp_crc16(&damaged), reference, "byte {} bit {}", index, bit);
        }
    }
}

#[test]
fn bytes_of_a_word() {
    assert_eq!(msb(0x1234), 0x12);
    assert_eq!(lsb(0x1234), 0x34);
    assert_eq!(msb(0x00FF), 0x00);
    assert_eq!(lsb(0xFF00), 0x00);
    assert_eq!(msb(0xFFFF), 0xFF);
    assert_eq!(join_bytes(0x12, 0x34), 0x1234);
    assert_eq!(join_bytes(0x00, 0x00), 0x0000);
    assert_eq!(join_bytes(0xFF, 0xFF), 0xFFFF);
    assert_eq!(join_bytes(0x01, 0x00), 0x0100);
}

#[test]
fn frame_constants() {
    assert_eq!(PKG_START_BYTE, 0x7B);
    assert_eq!(PKG_END_BYTE, 0x7D);
    assert_eq!(BROADCAST_ID, 0xFF);
    assert_eq!(MAX_BODY_LEN, 65535);
    assert_eq!(FRAME_OVERHEAD, 8);
}

#[test]
fn new_packet_has_zero_length_and_checksum() {
    let packet = PacketInfo::new(0x11, 0x22, vec![1, 2, 3]);
    assert_eq!(packet.sender_id, 0x11);
    assert_eq!(packet.receiver_id, 0x22);
    assert_eq!(packet.body, vec![1, 2, 3]);
    assert_eq!(packet.body_len, 0);
    assert_eq!(packet.checksum, 0);
}

#[test]
fn assemble_lays_out_fields_with_zero_checksum() {
    let packet = PacketInfo {
        sender_id: 0xAA,
        receiver_id: 0x10,
        body: vec![0x01, 0x07, 0x15],
        body_len: 3,
        checksum: 0xBEEF,
    };
    assert_eq!(
        assemble_packet(&packet),
        vec![0x7B, 0xAA, 0x10, 0x00, 0x03, 0x01, 0x07, 0x15, 0x00, 0x00, 0x7D]
    );
}

#[test]
fn assemble_takes_length_from_the_packet() {
    let packet = PacketInfo {
        sender_id: 1,
        receiver_id: 2,
        body: vec![9],
        body_len: 0x0102,
        checksum: 0,
    };
    assert_eq!(assemble_packet(&packet), vec![0x7B, 1, 2, 0x01, 0x02, 9, 0, 0, 0x7D]);
}

#[test]
fn encode_digital_write_frame() {
    let frame = encode(0xAA, 0xFF, &vec![0x02, 0x05, 0x00, 0x01, 0x00]);
    assert_eq!(
        frame,
        vec![0x7B, 0xAA, 0xFF, 0x00, 0x05, 0x02, 0x05, 0x00, 0x01, 0x00, 0x1C, 0x91, 0x7D]
    );
}

#[test]
fn encode_empty_body() {
    assert_eq!(encode(1, 2, &vec![]), vec![0x7B, 0x01, 0x02, 0x00, 0x00, 0x08, 0x16, 0x7D]);
}

#[test]
fn encode_does_not_escape_delimiters() {
    let frame = encode(3, 4, &vec![0x7B, 0x7D, 0x7B, 0x00, 0xFF]);
    assert_eq!(
        frame,
        vec![0x7B, 0x03, 0x04, 0x00, 0x05, 0x7B, 0x7D, 0x7B, 0x00, 0xFF, 0x0E, 0x5F, 0x7D]
    );
}

#[test]
fn encode_length_is_big_endian() {
    let body: Vec<u8> = (0..300usize).map(|i| (i % 251) as u8).collect();
    let frame = encode(9, 8, &body);
    assert_eq!(frame.len(), 308);
    assert_eq!(frame[3], 0x01);
    assert_eq!(frame[4], 0x2C);
    assert_eq!(&frame[5..305], &body[..]);
    assert_eq!(frame[305], 0x1C);
    assert_eq!(frame[306], 0x2F);
    assert_eq!(frame[307], 0x7D);
}

#[test]
fn encode_longest_body() {
    let body: Vec<u8> = (0..65535usize).map(|i| ((i * 7) % 256) as u8).collect();
    let frame = encode(9, 8, &body);
    assert_eq!(frame.len(), 65543);
    assert_eq!(frame[3], 0xFF);
    assert_eq!(frame[4], 0xFF);
    assert_eq!(frame[65540], 0x0C);
    assert_eq!(frame[65541], 0xCE);
    assert_eq!(frame[65542], 0x7D);
}

#[test]
fn checksum_is_crc_of_frame_with_zeroed_checksum() {
    let frame = encode(0x42, 0x24, &vec![5, 6, 7, 8]);
    let mut zeroed = frame.clone();
    let n: usize = zeroed.len();
    zeroed[n - 3] = 0;
    zeroed[n - 2] = 0;
    let crc: u16 = sdsp_crc16(&zeroed);
    assert_eq!(frame[n - 3], (crc >> 8) as u8);
    assert_eq!(frame[n - 2], (crc & 0xFF) as u8);
}
