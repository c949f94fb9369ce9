//! What encoder and decoder guarantee to each other.

use vstd::prelude::*;
use crate::sdsp::crc::{crc16, flip_bit, lemma_crc16_detects_bit_flip};
use crate::sdsp::decoder::{
    completes_frame, declared_len, decode_spec, first_frame, frame_outcome,
    lemma_start_index_bounds, read_spec, start_index, ReadError,
};
use crate::sdsp::{
    be_u16, encode_spec, frame_bytes, high_byte, low_byte, PacketView, BROADCAST_ID,
    FRAME_OVERHEAD, MAX_BODY_LEN, PKG_END_BYTE, PKG_START_BYTE,
};

verus! {

/// Splitting a 16-bit value into its bytes and joining them again gives the
/// value back.
pub proof fn lemma_be_u16_of_bytes(x: u16)
    ensures
        be_u16(high_byte(x), low_byte(x)) == x,
{
}

/// If the bytes of `chunk` complete a frame for the first time after `k` of
/// them, the decoder reports the outcome of that frame.
pub proof fn lemma_decode_at_first_completion(
    own_id: u8,
    history: Seq<u8>,
    chunk: Seq<u8>,
    k: int,
)
    requires
        1 <= k <= chunk.len(),
        completes_frame(history + chunk.take(k)),
        forall|j: int| 1 <= j < k ==> !completes_frame(history + #[trigger] chunk.take(j)),
    ensures
        decode_spec(own_id, history, chunk) == Some(
            frame_outcome(own_id, first_frame(history + chunk.take(k))),
        ),
    decreases k,
{
    let seen = history.push(chunk[0]);
    assert(seen == history + chunk.take(1));
    if k > 1 {
        let rest = chunk.skip(1);
        assert forall|j: int| 1 <= j < k - 1 implies !completes_frame(
            seen + #[trigger] rest.take(j),
        ) by {
            assert(seen + rest.take(j) == history + chunk.take(j + 1));
        }
        assert(seen + rest.take(k - 1) == history + chunk.take(k));
        lemma_decode_at_first_completion(own_id, seen, rest, k - 1);
    }
}

/// If the bytes of `chunk` complete no frame, the decoder reports nothing.
pub proof fn lemma_decode_without_completion(own_id: u8, history: Seq<u8>, chunk: Seq<u8>)
    requires
        forall|j: int|
            1 <= j <= chunk.len() ==> !completes_frame(history + #[trigger] chunk.take(j)),
    ensures
        decode_spec(own_id, history, chunk) is None,
    decreases chunk.len(),
{
    if chunk.len() > 0 {
        let seen = history.push(chunk[0]);
        assert(seen == history + chunk.take(1));
        let rest = chunk.skip(1);
        assert forall|j: int| 1 <= j <= rest.len() implies !completes_frame(
            seen + #[trigger] rest.take(j),
        ) by {
            assert(seen + rest.take(j) == history + chunk.take(j + 1));
        }
        lemma_decode_without_completion(own_id, seen, rest);
    }
}

/// Whatever the decoder reports is the outcome of a frame that the bytes of
/// `chunk` complete, and of the first such frame. The result is the number of
/// bytes after which that frame is complete.
pub proof fn lemma_decode_reports_first_completion(
    own_id: u8,
    history: Seq<u8>,
    chunk: Seq<u8>,
) -> (k: int)
    requires
        decode_spec(own_id, history, chunk) is Some,
    ensures
        1 <= k <= chunk.len(),
        completes_frame(history + chunk.take(k)),
        forall|j: int| 1 <= j < k ==> !completes_frame(history + #[trigger] chunk.take(j)),
        decode_spec(own_id, history, chunk) == Some(
            frame_outcome(own_id, first_frame(history + chunk.take(k))),
        ),
    decreases chunk.len(),
{
    let seen = history.push(chunk[0]);
    assert(seen == history + chunk.take(1));
    if completes_frame(seen) {
        1
    } else {
        let rest = chunk.skip(1);
        let k = lemma_decode_reports_first_completion(own_id, seen, rest);
        assert(seen + rest.take(k) == history + chunk.take(k + 1));
        assert forall|j: int| 1 <= j < k + 1 implies !completes_frame(
            history + #[trigger] chunk.take(j),
        ) by {
            if j > 1 {
                assert(seen + rest.take(j - 1) == history + chunk.take(j));
            }
        }
        k + 1
    }
}

/// How a decoder is fed makes no difference: two chunks one after the other
/// come to what the two come to as one chunk. Once the first has completed a
/// frame, the second is not looked at.
pub proof fn theorem_chunking_is_transparent(
    own_id: u8,
    history: Seq<u8>,
    first: Seq<u8>,
    second: Seq<u8>,
)
    ensures
        decode_spec(own_id, history, first + second) == match decode_spec(
            own_id,
            history,
            first,
        ) {
            Some(outcome) => Some(outcome),
            None => decode_spec(own_id, history + first, second),
        },
    decreases first.len(),
{
    if first.len() > 0 {
        let seen = history.push(first[0]);
        assert((first + second).skip(1) == first.skip(1) + second);
        assert(seen + first.skip(1) == history + first);
        if !completes_frame(seen) {
            theorem_chunking_is_transparent(own_id, seen, first.skip(1), second);
        }
    }
}

/// Bytes before the first START byte leave no trace: the first START byte of
/// what follows them is found where it would be found without them.
pub proof fn lemma_start_index_after_noise(noise: Seq<u8>, rest: Seq<u8>)
    requires
        forall|i: int| 0 <= i < noise.len() ==> noise[i] != PKG_START_BYTE,
    ensures
        start_index(noise + rest) == noise.len() + start_index(rest),
    decreases noise.len(),
{
    if noise.len() > 0 {
        assert((noise + rest).skip(1) == noise.skip(1) + rest);
        lemma_start_index_after_noise(noise.skip(1), rest);
    }
}

/// A decoder that has so far consumed nothing but bytes other than the START
/// byte reports what a fresh decoder reports.
pub proof fn theorem_noise_is_skipped(own_id: u8, noise: Seq<u8>, chunk: Seq<u8>)
    requires
        forall|i: int| 0 <= i < noise.len() ==> noise[i] != PKG_START_BYTE,
    ensures
        decode_spec(own_id, noise, chunk) == decode_spec(own_id, Seq::<u8>::empty(), chunk),
{
    lemma_decode_after_noise(own_id, noise, Seq::<u8>::empty(), chunk);
}

proof fn lemma_decode_after_noise(own_id: u8, noise: Seq<u8>, history: Seq<u8>, chunk: Seq<u8>)
    requires
        forall|i: int| 0 <= i < noise.len() ==> noise[i] != PKG_START_BYTE,
    ensures
        decode_spec(own_id, noise + history, chunk) == decode_spec(own_id, history, chunk),
    decreases chunk.len(),
{
    if chunk.len() > 0 {
        let seen = history.push(chunk[0]);
        let noisy = (noise + history).push(chunk[0]);
        lemma_start_index_after_noise(noise, seen);
        lemma_start_index_bounds(seen);
        assert(first_frame(noisy) == first_frame(seen));
        lemma_decode_after_noise(own_id, noise, seen, chunk.skip(1));
    }
}

/// A fresh decoder that is fed exactly one well-delimited frame reports the
/// outcome of that frame, and not before its last byte.
pub proof fn lemma_decode_single_frame(own_id: u8, frame: Seq<u8>)
    requires
        frame.len() >= FRAME_OVERHEAD,
        frame[0] == PKG_START_BYTE,
        frame.len() == FRAME_OVERHEAD + declared_len(frame, 0),
    ensures
        forall|j: int| 1 <= j < frame.len() ==> !completes_frame(#[trigger] frame.take(j)),
        completes_frame(frame),
        first_frame(frame) == frame,
        decode_spec(own_id, Seq::<u8>::empty(), frame) == Some(frame_outcome(own_id, frame)),
{
    let empty = Seq::<u8>::empty();
    assert forall|j: int| 1 <= j < frame.len() implies !completes_frame(
        empty + #[trigger] frame.take(j),
    ) by {
        assert(empty + frame.take(j) == frame.take(j));
    }
    assert(empty + frame.take(frame.len() as int) == frame);
    lemma_decode_at_first_completion(own_id, empty, frame, frame.len() as int);
}

/// Decoding what was encoded gives the packet back: a receiver that the frame
/// is addressed to, by its own id or by the broadcast id, gets sender,
/// receiver and body exactly as they were encoded, together with the length
/// and the checksum that stood on the wire.
pub proof fn theorem_round_trip(own_id: u8, sender_id: u8, receiver_id: u8, body: Seq<u8>)
    requires
        body.len() <= MAX_BODY_LEN,
        receiver_id == own_id || receiver_id == BROADCAST_ID,
    ensures
        read_spec(own_id, encode_spec(sender_id, receiver_id, body)) == Ok::<
            PacketView,
            ReadError,
        >(
            PacketView {
                sender_id,
                receiver_id,
                body,
                body_len: body.len() as u16,
                checksum: crc16(frame_bytes(sender_id, receiver_id, body.len() as u16, body, 0)),
            },
        ),
{
    theorem_recipient_filter(own_id, sender_id, receiver_id, body);
}

/// A receiver accepts an encoded frame exactly if the frame carries the
/// receiver's own id or the broadcast id; any other frame it refuses as
/// addressed to someone else.
pub proof fn theorem_recipient_filter(own_id: u8, sender_id: u8, receiver_id: u8, body: Seq<u8>)
    requires
        body.len() <= MAX_BODY_LEN,
    ensures
        read_spec(own_id, encode_spec(sender_id, receiver_id, body)) == if receiver_id == own_id
            || receiver_id == BROADCAST_ID {
            Ok::<PacketView, ReadError>(
                PacketView {
                    sender_id,
                    receiver_id,
                    body,
                    body_len: body.len() as u16,
                    checksum: crc16(
                        frame_bytes(sender_id, receiver_id, body.len() as u16, body, 0),
                    ),
                },
            )
        } else {
            Err::<PacketView, ReadError>(ReadError::RecipientMismatch)
        },
        decode_spec(own_id, Seq::<u8>::empty(), encode_spec(sender_id, receiver_id, body))
            is Some,
{
    let n = body.len() as int;
    let body_len = body.len() as u16;
    let zeroed = frame_bytes(sender_id, receiver_id, body_len, body, 0);
    let checksum = crc16(zeroed);
    let frame = encode_spec(sender_id, receiver_id, body);
    lemma_decode_single_frame(own_id, frame);
    assert(frame.update(5 + n, 0u8).update(6 + n, 0u8) == zeroed);
    assert(frame.subrange(5, 5 + n) == body);
}

/// A single inverted bit in the sender id, the receiver id, the body or the
/// checksum of an encoded frame is always noticed: whoever receives the frame
/// refuses it for its checksum.
pub proof fn theorem_bit_flip_detected(
    own_id: u8,
    sender_id: u8,
    receiver_id: u8,
    body: Seq<u8>,
    index: int,
    bit: u8,
)
    requires
        body.len() <= MAX_BODY_LEN,
        bit < 8,
        index == 1 || index == 2 || 5 <= index < 7 + body.len(),
    ensures
        ({
            let frame = encode_spec(sender_id, receiver_id, body);
            let damaged = frame.update(index, flip_bit(frame[index], bit));
            &&& read_spec(own_id, damaged) == Err::<PacketView, ReadError>(
                ReadError::ChecksumMismatch,
            )
            &&& decode_spec(own_id, Seq::<u8>::empty(), damaged) is Some
        }),
{
    let n = body.len() as int;
    let body_len = body.len() as u16;
    let zeroed = frame_bytes(sender_id, receiver_id, body_len, body, 0);
    let checksum = crc16(zeroed);
    let frame = encode_spec(sender_id, receiver_id, body);
    let flipped = flip_bit(frame[index], bit);
    let damaged = frame.update(index, flipped);
    lemma_decode_single_frame(own_id, damaged);
    if index < 5 + n {
        assert(damaged.update(5 + n, 0u8).update(6 + n, 0u8) == zeroed.update(
            index,
            flip_bit(zeroed[index], bit),
        ));
        lemma_crc16_detects_bit_flip(zeroed, index, bit);
    } else {
        let intact = frame[index];
        assert(flip_bit(intact, bit) != intact) by (bit_vector)
            requires
                bit < 8,
        ;
        assert(damaged.update(5 + n, 0u8).update(6 + n, 0u8) == zeroed);
    }
}

/// A frame whose checksum field holds anything but the CRC16 of the frame is
/// refused for its checksum, whoever receives it.
pub proof fn theorem_wrong_checksum_detected(
    own_id: u8,
    sender_id: u8,
    receiver_id: u8,
    body: Seq<u8>,
    checksum: u16,
)
    requires
        body.len() <= MAX_BODY_LEN,
        checksum != crc16(frame_bytes(sender_id, receiver_id, body.len() as u16, body, 0)),
    ensures
        ({
            let frame = frame_bytes(sender_id, receiver_id, body.len() as u16, body, checksum);
            &&& read_spec(own_id, frame) == Err::<PacketView, ReadError>(
                ReadError::ChecksumMismatch,
            )
            &&& decode_spec(own_id, Seq::<u8>::empty(), frame) is Some
        }),
{
    let n = body.len() as int;
    let body_len = body.len() as u16;
    let zeroed = frame_bytes(sender_id, receiver_id, body_len, body, 0);
    let frame = frame_bytes(sender_id, receiver_id, body_len, body, checksum);
    lemma_decode_single_frame(own_id, frame);
    assert(frame.update(5 + n, 0u8).update(6 + n, 0u8) == zeroed);
}

/// An encoded frame whose END byte was replaced by any other byte is refused
/// as malformed, whoever receives it.
pub proof fn theorem_damaged_end_is_malformed(
    own_id: u8,
    sender_id: u8,
    receiver_id: u8,
    body: Seq<u8>,
    end: u8,
)
    requires
        body.len() <= MAX_BODY_LEN,
        end != PKG_END_BYTE,
    ensures
        ({
            let frame = encode_spec(sender_id, receiver_id, body);
            let damaged = frame.update(frame.len() - 1, end);
            &&& read_spec(own_id, damaged) == Err::<PacketView, ReadError>(
                ReadError::InvalidPacket,
            )
            &&& decode_spec(own_id, Seq::<u8>::empty(), damaged) is Some
        }),
{
    let frame = encode_spec(sender_id, receiver_id, body);
    lemma_decode_single_frame(own_id, frame.update(frame.len() - 1, end));
}

/// The decoder accepts nothing but what the encoder produces: a frame that it
/// takes for a packet is, byte for byte, the encoding of that packet. The
/// packet then has a body of the announced length, carries the checksum of
/// its frame, and is addressed to the receiver or to all.
pub proof fn theorem_accepted_frame_is_encoding(own_id: u8, s: Seq<u8>)
    requires
        completes_frame(s),
        frame_outcome(own_id, first_frame(s)) is Ok,
    ensures
        ({
            let packet = frame_outcome(own_id, first_frame(s))->Ok_0;
            &&& first_frame(s) == encode_spec(packet.sender_id, packet.receiver_id, packet.body)
            &&& packet.body.len() == packet.body_len
            &&& packet.checksum == crc16(
                frame_bytes(
                    packet.sender_id,
                    packet.receiver_id,
                    packet.body_len,
                    packet.body,
                    0,
                ),
            )
            &&& packet.receiver_id == own_id || packet.receiver_id == BROADCAST_ID
        }),
{
    lemma_start_index_bounds(s);
    let frame = first_frame(s);
    let n = frame.len() - FRAME_OVERHEAD;
    let packet = frame_outcome(own_id, frame)->Ok_0;
    let zeroed = frame_bytes(
        packet.sender_id,
        packet.receiver_id,
        packet.body_len,
        packet.body,
        0,
    );
    assert(frame.update(5 + n, 0u8).update(6 + n, 0u8) == zeroed);
}

/// No single inverted bit, wherever it falls in an encoded frame, lets a
/// receiver take the frame for the packet that was sent: if the read yields a
/// packet at all, that packet has another body.
pub proof fn theorem_bit_flip_never_yields_sent_packet(
    own_id: u8,
    sender_id: u8,
    receiver_id: u8,
    body: Seq<u8>,
    index: int,
    bit: u8,
)
    requires
        body.len() <= MAX_BODY_LEN,
        bit < 8,
        0 <= index < FRAME_OVERHEAD + body.len(),
    ensures
        ({
            let frame = encode_spec(sender_id, receiver_id, body);
            let damaged = frame.update(index, flip_bit(frame[index], bit));
            read_spec(own_id, damaged) matches Ok(packet) ==> packet.body.len() != body.len()
        }),
{
    let n = body.len() as int;
    let frame = encode_spec(sender_id, receiver_id, body);
    let intact = frame[index];
    let damaged = frame.update(index, flip_bit(intact, bit));
    let empty = Seq::<u8>::empty();
    assert(flip_bit(intact, bit) != intact) by (bit_vector)
        requires
            bit < 8,
    ;
    if index == 1 || index == 2 || 5 <= index < 7 + n {
        theorem_bit_flip_detected(own_id, sender_id, receiver_id, body, index, bit);
    } else if index == 7 + n {
        theorem_damaged_end_is_malformed(
            own_id,
            sender_id,
            receiver_id,
            body,
            flip_bit(intact, bit),
        );
    } else if read_spec(own_id, damaged) is Ok {
        let k = lemma_decode_reports_first_completion(own_id, empty, damaged);
        let seen = damaged.take(k);
        assert(empty + seen == seen);
        lemma_start_index_bounds(seen);
        let start = start_index(seen);
        if index == 0 {
            assert(seen[0] != PKG_START_BYTE);
            assert(start >= 1);
        } else {
            assert(seen[0] == PKG_START_BYTE);
            assert(start == 0);
            assert(declared_len(seen, 0) != n);
        }
    }
}

} // verus!
