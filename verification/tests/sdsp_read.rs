use sdsp_gpio::sdsp::{encode, read_packet, Decoder, ReadError, ReadState};

#[test]
fn read_packet_gives_back_what_was_encoded() {
    let body: Vec<u8> = vec![0x01, 0x07, 0x15];
    let packet = read_packet(&encode(0xAA, 0x10, &body), 0x10).unwrap();
    assert_eq!(packet.sender_id, 0xAA);
    assert_eq!(packet.receiver_id, 0x10);
    assert_eq!(packet.body, body);
    assert_eq!(packet.body_len, 3);
    assert_eq!(packet.checksum, 0x1BE8);
}

#[test]
fn read_packet_round_trip_over_all_ids() {
    for sender_id in [0x00u8, 0x01, 0x7B, 0x7D, 0xAA, 0xFF] {
        for receiver_id in [0x00u8, 0x01, 0x7B, 0x7D, 0xAA, 0xFF] {
            let body: Vec<u8> = vec![sender_id, receiver_id, 0x7B, 0x7D];
            let packet = read_packet(&encode(sender_id, receiver_id, &body), receiver_id).unwrap();
            assert_eq!(packet.sender_id, sender_id);
            assert_eq!(packet.receiver_id, receiver_id);
            assert_eq!(packet.body, body);
        }
    }
}

#[test]
fn read_packet_times_out_on_an_incomplete_frame() {
    let frame = encode(1, 2, &vec![1, 2, 3]);
    for cut in 0..frame.len() {
        assert_eq!(read_packet(&frame[..cut], 2).unwrap_err(), ReadError::Timeout);
    }
}

#[test]
fn read_packet_times_out_without_a_start_byte() {
    assert_eq!(read_packet(&[], 2).unwrap_err(), ReadError::Timeout);
    assert_eq!(read_packet(&[0x00; 100], 2).unwrap_err(), ReadError::Timeout);
    assert_eq!(read_packet(&[0x7D; 20], 2).unwrap_err(), ReadError::Timeout);
}

#[test]
fn read_packet_errors() {
    let frame = encode(1, 2, &vec![1, 2, 3]);
    assert_eq!(read_packet(&frame, 3).unwrap_err(), ReadError::RecipientMismatch);
    let mut damaged = frame.clone();
    damaged[6] ^= 0x40;
    assert_eq!(read_packet(&damaged, 2).unwrap_err(), ReadError::ChecksumMismatch);
    let mut damaged = frame.clone();
    damaged[10] = 0x7B;
    assert_eq!(read_packet(&damaged, 2).unwrap_err(), ReadError::InvalidPacket);
}

#[test]
fn flipped_start_byte_hides_the_frame() {
    let mut frame = encode(1, 2, &vec![]);
    frame[0] ^= 0x01;
    assert_eq!(read_packet(&frame, 2).unwrap_err(), ReadError::Timeout);
}

#[test]
fn longer_length_field_leaves_the_frame_incomplete() {
    let mut frame = encode(1, 2, &vec![1, 2, 3]);
    frame[4] ^= 0x04;
    assert_eq!(read_packet(&frame, 2).unwrap_err(), ReadError::Timeout);
}

#[test]
fn shorter_length_field_moves_the_end_of_the_frame() {
    let mut frame = encode(1, 2, &vec![1, 2, 3]);
    frame[4] ^= 0x02;
    assert_eq!(read_packet(&frame, 2).unwrap_err(), ReadError::InvalidPacket);
}

#[test]
fn states_follow_the_fields_of_a_frame() {
    let frame = encode(1, 2, &vec![0x7B, 0x7D]);
    let expected = [
        ReadState::SenderId,
        ReadState::ReceiverId,
        ReadState::LenHi,
        ReadState::LenLo,
        ReadState::Body,
        ReadState::Body,
        ReadState::ChecksumHi,
        ReadState::ChecksumLo,
        ReadState::AwaitEnd,
        ReadState::AwaitStart,
    ];
    let mut decoder = Decoder::new(2);
    assert_eq!(decoder.state(), ReadState::AwaitStart);
    decoder.push(0x00);
    assert_eq!(decoder.state(), ReadState::AwaitStart);
    for (byte, state) in frame.iter().zip(expected.iter()) {
        decoder.push(*byte);
        assert_eq!(decoder.state(), *state);
    }
}

#[test]
fn empty_body_skips_the_body_state() {
    let mut decoder = Decoder::new(2);
    for byte in [0x7Bu8, 0x01, 0x02, 0x00] {
        assert!(decoder.push(byte).is_none());
    }
    assert_eq!(decoder.state(), ReadState::LenLo);
    assert!(decoder.push(0x00).is_none());
    assert_eq!(decoder.state(), ReadState::ChecksumHi);
}

#[test]
fn start_byte_inside_a_frame_does_not_restart_it() {
    let mut decoder = Decoder::new(0x7B);
    for byte in [0x7Bu8, 0x7B, 0x7B, 0x00, 0x01, 0x7B] {
        assert!(decoder.push(byte).is_none());
    }
    assert_eq!(decoder.state(), ReadState::ChecksumHi);
}

#[test]
fn no_bit_flip_yields_the_sent_packet() {
    let bodies: Vec<Vec<u8>> = vec![vec![], vec![0x7B], vec![1, 2, 3, 0x7B, 0x7D, 0x00, 0xFF]];
    for body in bodies {
        let frame = encode(0x7B, 2, &body);
        for index in 0..frame.len() {
            for bit in 0..8u8 {
                let mut damaged = frame.clone();
                damaged[index] ^= 1u8 << bit;
                if let Ok(packet) = read_packet(&damaged, 2) {
                    assert_ne!(packet.body.len(), body.len(), "byte {} bit {}", index, bit);
                }
            }
        }
    }
}

#[test]
fn flipped_start_byte_may_uncover_a_frame_in_the_body() {
    let inner = encode(3, 2, &vec![9]);
    let mut outer = encode(1, 2, &inner);
    outer[0] ^= 0x01;
    let packet = read_packet(&outer, 2).unwrap();
    assert_eq!(packet.sender_id, 3);
    assert_eq!(packet.body, vec![9]);
}
