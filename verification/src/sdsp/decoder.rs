//! The streaming decoder: a byte-driven state machine that finds the first
//! frame in what it is fed, checks it, and hands out the packet.

use vstd::prelude::*;
use crate::sdsp::crc::{crc16, sdsp_crc16};
use crate::sdsp::{
    assemble_packet, be_u16, PacketInfo, PacketView, BROADCAST_ID, FRAME_OVERHEAD, PKG_END_BYTE,
    PKG_START_BYTE,
};

verus! {

/// Why no packet came out of a read.
#[derive(PartialEq, Eq, Structural, Debug, Clone, Copy)]
pub enum ReadError {
    /// The checksum on the wire is not the CRC16 of the frame.
    ChecksumMismatch,
    /// The frame is addressed to another receiver.
    RecipientMismatch,
    /// The byte where the frame should end is not the END byte.
    InvalidPacket,
    /// No complete frame arrived in time.
    Timeout,
}

/// Most bytes that a reader takes from the line in one go.
pub const MAX_CHUNK: usize = 64;

/// The states of the decoder: each names what the next byte is taken for.
#[derive(PartialEq, Eq, Structural, Debug, Clone, Copy)]
pub enum ReadState {
    /// Any byte but the START byte is skipped.
    AwaitStart,
    SenderId,
    ReceiverId,
    LenHi,
    LenLo,
    /// The next byte belongs to the body, whatever its value.
    Body,
    ChecksumHi,
    ChecksumLo,
    /// The next byte ends the frame, well or badly.
    AwaitEnd,
}

/// Index of the first START byte of `s`; `s.len()` if there is none.
pub open spec fn start_index(s: Seq<u8>) -> int
    decreases s.len(),
{
    if s.len() == 0 {
        0
    } else if s[0] == PKG_START_BYTE {
        0
    } else {
        1 + start_index(s.skip(1))
    }
}

/// The body length announced by the header of the frame that starts at `start`.
pub open spec fn declared_len(s: Seq<u8>, start: int) -> int {
    be_u16(s[start + 3], s[start + 4]) as int
}

/// Whether `s` ends exactly on the last byte of the first frame in it: the
/// bytes before the first START byte are skipped, and the length field of the
/// header says how far the frame reaches.
pub open spec fn completes_frame(s: Seq<u8>) -> bool {
    let start = start_index(s);
    &&& s.len() >= start + FRAME_OVERHEAD
    &&& s.len() == start + FRAME_OVERHEAD + declared_len(s, start)
}

/// What is left of `s` from its first START byte on.
pub open spec fn first_frame(s: Seq<u8>) -> Seq<u8> {
    s.skip(start_index(s))
}

/// The state of a decoder that has consumed `s` without completing a frame:
/// it waits for a START byte until it has seen one, and from there on the
/// number of bytes taken in, together with the announced length, says which
/// field is next.
pub open spec fn state_after(s: Seq<u8>) -> ReadState {
    let start = start_index(s);
    let taken = s.len() - start;
    let n = declared_len(s, start);
    if taken <= 0 {
        ReadState::AwaitStart
    } else if taken == 1 {
        ReadState::SenderId
    } else if taken == 2 {
        ReadState::ReceiverId
    } else if taken == 3 {
        ReadState::LenHi
    } else if taken == 4 {
        ReadState::LenLo
    } else if taken < 5 + n {
        ReadState::Body
    } else if taken == 5 + n {
        ReadState::ChecksumHi
    } else if taken == 6 + n {
        ReadState::ChecksumLo
    } else {
        ReadState::AwaitEnd
    }
}

/// What a receiver with the id `own_id` makes of the complete frame `frame`.
///
/// The END byte is looked at first, then the checksum, then the receiver id.
pub open spec fn frame_outcome(own_id: u8, frame: Seq<u8>) -> Result<PacketView, ReadError> {
    let n = frame.len() - FRAME_OVERHEAD;
    let checksum = be_u16(frame[5 + n], frame[6 + n]);
    if frame[7 + n] != PKG_END_BYTE {
        Err(ReadError::InvalidPacket)
    } else if crc16(frame.update(5 + n, 0u8).update(6 + n, 0u8)) != checksum {
        Err(ReadError::ChecksumMismatch)
    } else if frame[2] != own_id && frame[2] != BROADCAST_ID {
        Err(ReadError::RecipientMismatch)
    } else {
        Ok(
            PacketView {
                sender_id: frame[1],
                receiver_id: frame[2],
                body: frame.subrange(5, 5 + n),
                body_len: be_u16(frame[3], frame[4]),
                checksum,
            },
        )
    }
}

/// What a decoder that has consumed `history` since its last frame reports
/// when it is fed `chunk`: the outcome of the first frame that completes, or
/// `None` if none does. Bytes of `chunk` behind that frame are not looked at.
pub open spec fn decode_spec(own_id: u8, history: Seq<u8>, chunk: Seq<u8>) -> Option<
    Result<PacketView, ReadError>,
>
    decreases chunk.len(),
{
    if chunk.len() == 0 {
        None
    } else {
        let seen = history.push(chunk[0]);
        if completes_frame(seen) {
            Some(frame_outcome(own_id, first_frame(seen)))
        } else {
            decode_spec(own_id, seen, chunk.skip(1))
        }
    }
}

/// The mathematical content of what a read hands out.
pub open spec fn outcome_view(outcome: Option<Result<PacketInfo, ReadError>>) -> Option<
    Result<PacketView, ReadError>,
> {
    match outcome {
        None => None,
        Some(Ok(packet)) => Some(Ok(packet@)),
        Some(Err(error)) => Some(Err(error)),
    }
}

/// What one round of a read reports: the outcome of the first frame that the
/// bytes of `chunk` complete; failing that, a timeout once `elapsed` has gone
/// beyond `timeout`; otherwise nothing yet.
pub open spec fn poll_spec(
    own_id: u8,
    history: Seq<u8>,
    chunk: Seq<u8>,
    elapsed: u128,
    timeout: u128,
) -> Option<Result<PacketView, ReadError>> {
    match decode_spec(own_id, history, chunk) {
        Some(outcome) => Some(outcome),
        None => if elapsed > timeout {
            Some(Err(ReadError::Timeout))
        } else {
            None
        },
    }
}

/// The first START byte of a sequence lies inside it or right behind it, and
/// nothing before it is a START byte.
pub proof fn lemma_start_index_bounds(s: Seq<u8>)
    ensures
        0 <= start_index(s) <= s.len(),
        start_index(s) < s.len() ==> s[start_index(s)] == PKG_START_BYTE,
        forall|i: int| 0 <= i < start_index(s) ==> s[i] != PKG_START_BYTE,
    decreases s.len(),
{
    if s.len() != 0 && s[0] != PKG_START_BYTE {
        let rest = s.skip(1);
        lemma_start_index_bounds(rest);
        assert forall|i: int| 0 <= i < start_index(s) implies s[i] != PKG_START_BYTE by {
            if i > 0 {
                assert(s[i] == rest[i - 1]);
            }
        }
    }
}

/// How one more byte moves the first START byte: it stays where it is once
/// found; otherwise the new byte is it, or there is still none.
pub proof fn lemma_start_index_push(s: Seq<u8>, byte: u8)
    ensures
        start_index(s) < s.len() ==> start_index(s.push(byte)) == start_index(s),
        start_index(s) >= s.len() && byte == PKG_START_BYTE ==> start_index(s.push(byte))
            == s.len(),
        start_index(s) >= s.len() && byte != PKG_START_BYTE ==> start_index(s.push(byte))
            == s.len() + 1,
    decreases s.len(),
{
    let t = s.push(byte);
    if s.len() == 0 {
        assert(start_index(t.skip(1)) == 0);
    } else if s[0] != PKG_START_BYTE {
        lemma_start_index_push(s.skip(1), byte);
        assert(t.skip(1) == s.skip(1).push(byte));
    }
}

/// A streaming SDSP decoder.
///
/// Its view is the sequence of bytes consumed since it was created or since it
/// last reported a frame, whichever came later.
pub struct Decoder {
    own_id: u8,
    state: ReadState,
    sender_id: u8,
    receiver_id: u8,
    body_len: u16,
    body: Vec<u8>,
    checksum: u16,
    seen: Ghost<Seq<u8>>,
}

impl View for Decoder {
    type V = Seq<u8>;

    closed spec fn view(&self) -> Seq<u8> {
        self.seen@
    }
}

impl Decoder {
    /// The id of the receiver on whose behalf the decoder reads.
    pub closed spec fn own_id(&self) -> u8 {
        self.own_id
    }

    /// The fields gathered so far are those of the bytes consumed so far.
    pub closed spec fn wf(&self) -> bool {
        let h = self.seen@;
        let start = start_index(h);
        let pos = h.len() - start;
        let n = declared_len(h, start);
        let header = self.sender_id == h[start + 1] && self.receiver_id == h[start + 2]
            && self.body_len == n;
        match self.state {
            ReadState::AwaitStart => pos == 0 && self.body@.len() == 0,
            ReadState::SenderId => pos == 1 && self.body@.len() == 0,
            ReadState::ReceiverId => pos == 2 && self.body@.len() == 0 && self.sender_id
                == h[start + 1],
            ReadState::LenHi => pos == 3 && self.body@.len() == 0 && self.sender_id
                == h[start + 1] && self.receiver_id == h[start + 2],
            ReadState::LenLo => pos == 4 && self.body@.len() == 0 && self.sender_id
                == h[start + 1] && self.receiver_id == h[start + 2] && self.body_len
                == h[start + 3] * 256,
            ReadState::Body => 5 <= pos < 5 + n && header && self.body@ == h.subrange(
                start + 5,
                h.len() as int,
            ),
            ReadState::ChecksumHi => pos == 5 + n && header && self.body@ == h.subrange(
                start + 5,
                start + 5 + n,
            ),
            ReadState::ChecksumLo => pos == 6 + n && header && self.body@ == h.subrange(
                start + 5,
                start + 5 + n,
            ) && self.checksum == h[start + 5 + n] * 256,
            ReadState::AwaitEnd => pos == 7 + n && header && self.body@ == h.subrange(
                start + 5,
                start + 5 + n,
            ) && self.checksum == be_u16(h[start + 5 + n], h[start + 6 + n]),
        }
    }

    /// The state that the decoder is in.
    pub fn state(&self) -> (state: ReadState)
        requires
            self.wf(),
        ensures
            state == state_after(self@),
    {
        self.state
    }

    /// A decoder for the receiver `own_id` that has consumed nothing.
    pub fn new(own_id: u8) -> (decoder: Decoder)
        ensures
            decoder.wf(),
            decoder.own_id() == own_id,
            decoder@ == Seq::<u8>::empty(),
    {
        Decoder {
            own_id,
            state: ReadState::AwaitStart,
            sender_id: 0,
            receiver_id: 0,
            body_len: 0,
            body: Vec::new(),
            checksum: 0,
            seen: Ghost(Seq::empty()),
        }
    }

    /// Forgets everything consumed so far.
    pub fn reset(&mut self)
        ensures
            final(self).wf(),
            final(self).own_id() == old(self).own_id(),
            final(self)@ == Seq::<u8>::empty(),
    {
        self.state = ReadState::AwaitStart;
        self.sender_id = 0;
        self.receiver_id = 0;
        self.body_len = 0;
        self.body = Vec::new();
        self.checksum = 0;
        self.seen = Ghost(Seq::empty());
    }

    /// Consumes one byte.
    ///
    /// Reports the outcome of the frame that this byte completes, if it
    /// completes one, and then starts over; otherwise reports nothing.
    pub fn push(&mut self, byte: u8) -> (outcome: Option<Result<PacketInfo, ReadError>>)
        requires
            old(self).wf(),
        ensures
            final(self).wf(),
            final(self).own_id() == old(self).own_id(),
            completes_frame(old(self)@.push(byte)) ==> {
                &&& outcome_view(outcome) == Some(
                    frame_outcome(old(self).own_id(), first_frame(old(self)@.push(byte))),
                )
                &&& final(self)@ == Seq::<u8>::empty()
            },
            !completes_frame(old(self)@.push(byte)) ==> {
                &&& outcome is None
                &&& final(self)@ == old(self)@.push(byte)
            },
    {
        let ghost h = self.seen@;
        let ghost start = start_index(h);
        let ghost h1 = h.push(byte);
        proof {
            lemma_start_index_bounds(h);
            lemma_start_index_push(h, byte);
        }
        match self.state {
            ReadState::AwaitStart => {
                if byte == PKG_START_BYTE {
                    self.state = ReadState::SenderId;
                }
                self.seen = Ghost(h1);
                None
            },
            ReadState::SenderId => {
                self.sender_id = byte;
                self.state = ReadState::ReceiverId;
                self.seen = Ghost(h1);
                None
            },
            ReadState::ReceiverId => {
                self.receiver_id = byte;
                self.state = ReadState::LenHi;
                self.seen = Ghost(h1);
                None
            },
            ReadState::LenHi => {
                assert(((byte as u16) << 8) == (byte as u16) * 256) by (bit_vector);
                self.body_len = (byte as u16) << 8;
                self.state = ReadState::LenLo;
                self.seen = Ghost(h1);
                None
            },
            ReadState::LenLo => {
                let high: u16 = self.body_len;
                assert((high | (byte as u16)) == high + (byte as u16)) by (bit_vector)
                    requires
                        high % 256 == 0,
                ;
                self.body_len = high | (byte as u16);
                if self.body_len == 0 {
                    self.state = ReadState::ChecksumHi;
                } else {
                    self.state = ReadState::Body;
                }
                self.seen = Ghost(h1);
                proof {
                    assert(self.body@ == h1.subrange(start + 5, h1.len() as int));
                }
                None
            },
            ReadState::Body => {
                self.body.push(byte);
                if self.body.len() == self.body_len as usize {
                    self.state = ReadState::ChecksumHi;
                }
                self.seen = Ghost(h1);
                proof {
                    assert(h1.subrange(start + 5, h1.len() as int) == h.subrange(
                        start + 5,
                        h.len() as int,
                    ).push(byte));
                }
                None
            },
            ReadState::ChecksumHi => {
                assert(((byte as u16) << 8) == (byte as u16) * 256) by (bit_vector);
                self.checksum = (byte as u16) << 8;
                self.state = ReadState::ChecksumLo;
                self.seen = Ghost(h1);
                proof {
                    let n = declared_len(h, start);
                    assert(h1.subrange(start + 5, start + 5 + n) == h.subrange(
                        start + 5,
                        start + 5 + n,
                    ));
                }
                None
            },
            ReadState::ChecksumLo => {
                let high: u16 = self.checksum;
                assert((high | (byte as u16)) == high + (byte as u16)) by (bit_vector)
                    requires
                        high % 256 == 0,
                ;
                self.checksum = high | (byte as u16);
                self.state = ReadState::AwaitEnd;
                self.seen = Ghost(h1);
                proof {
                    let n = declared_len(h, start);
                    assert(h1.subrange(start + 5, start + 5 + n) == h.subrange(
                        start + 5,
                        start + 5 + n,
                    ));
                }
                None
            },
            ReadState::AwaitEnd => {
                let mut body: Vec<u8> = Vec::new();
                std::mem::swap(&mut body, &mut self.body);
                let pkg = PacketInfo {
                    sender_id: self.sender_id,
                    receiver_id: self.receiver_id,
                    body,
                    body_len: self.body_len,
                    checksum: self.checksum,
                };
                let own_id = self.own_id;
                self.reset();
                let ghost frame = first_frame(h1);
                let ghost n = declared_len(h, start);
                proof {
                    assert(frame.subrange(5, 5 + n) == pkg.body@);
                }
                if byte == PKG_END_BYTE {
                    let zeroed = assemble_packet(&pkg);
                    proof {
                        assert(zeroed@ == frame.update(5 + n, 0u8).update(6 + n, 0u8));
                    }
                    if sdsp_crc16(&zeroed) == pkg.checksum {
                        if pkg.receiver_id == own_id || pkg.receiver_id == BROADCAST_ID {
                            Some(Ok(pkg))
                        } else {
                            Some(Err(ReadError::RecipientMismatch))
                        }
                    } else {
                        Some(Err(ReadError::ChecksumMismatch))
                    }
                } else {
                    Some(Err(ReadError::InvalidPacket))
                }
            },
        }
    }

    /// Consumes the bytes of `bytes` up to the end of the first frame that
    /// they complete, and reports the outcome of that frame; consumes them all
    /// and reports nothing if they complete none.
    pub fn feed(&mut self, bytes: &[u8]) -> (outcome: Option<Result<PacketInfo, ReadError>>)
        requires
            old(self).wf(),
        ensures
            final(self).wf(),
            final(self).own_id() == old(self).own_id(),
            outcome_view(outcome) == decode_spec(old(self).own_id(), old(self)@, bytes@),
            outcome is Some ==> final(self)@ == Seq::<u8>::empty(),
            outcome is None ==> final(self)@ == old(self)@ + bytes@,
    {
        let ghost own_id = self.own_id;
        let ghost h0 = self.seen@;
        let mut i: usize = 0;
        proof {
            assert(bytes@.skip(0) == bytes@);
        }
        while i < bytes.len()
            invariant
                i <= bytes.len(),
                self.wf(),
                own_id == old(self).own_id(),
                h0 == old(self)@,
                self.own_id() == own_id,
                self@ == h0 + bytes@.take(i as int),
                decode_spec(own_id, h0, bytes@) == decode_spec(
                    own_id,
                    self@,
                    bytes@.skip(i as int),
                ),
            decreases bytes.len() - i,
        {
            let outcome = self.push(bytes[i]);
            proof {
                assert(bytes@.skip(i as int).skip(1) == bytes@.skip(i + 1));
            }
            if outcome.is_some() {
                return outcome;
            }
            i = i + 1;
        }
        None
    }

    /// One round of a read: takes in what the line delivered, then looks at
    /// the clock.
    ///
    /// `elapsed` is the time since the read began and `timeout` the time that
    /// it may take, in the same unit. A frame that `bytes` completes is
    /// reported whatever the clock says. Without one, the read has failed if
    /// `elapsed` is beyond `timeout`, and the decoder then forgets what it had
    /// gathered.
    pub fn poll(&mut self, bytes: &[u8], elapsed: u128, timeout: u128) -> (outcome: Option<
        Result<PacketInfo, ReadError>,
    >)
        requires
            old(self).wf(),
        ensures
            final(self).wf(),
            final(self).own_id() == old(self).own_id(),
            outcome_view(outcome) == poll_spec(
                old(self).own_id(),
                old(self)@,
                bytes@,
                elapsed,
                timeout,
            ),
            outcome is Some ==> final(self)@ == Seq::<u8>::empty(),
            outcome is None ==> final(self)@ == old(self)@ + bytes@,
    {
        let decoded = self.feed(bytes);
        if decoded.is_some() {
            decoded
        } else if elapsed > timeout {
            self.reset();
            Some(Err(ReadError::Timeout))
        } else {
            None
        }
    }

    /// How many bytes to take from the line when it holds `available` of
    /// them: all, but no more than [`MAX_CHUNK`].
    pub fn chunk_size(available: u32) -> (size: usize)
        ensures
            size == if available <= MAX_CHUNK {
                available as int
            } else {
                MAX_CHUNK as int
            },
    {
        if available as usize <= MAX_CHUNK {
            available as usize
        } else {
            MAX_CHUNK
        }
    }
}

/// What a receiver with the id `own_id` reads out of a line that delivers
/// `bytes` and then nothing more: the outcome of the first frame that is
/// complete, or a timeout if there is none.
pub open spec fn read_spec(own_id: u8, bytes: Seq<u8>) -> Result<PacketView, ReadError> {
    match decode_spec(own_id, Seq::<u8>::empty(), bytes) {
        Some(outcome) => outcome,
        None => Err(ReadError::Timeout),
    }
}

/// The mathematical content of the result of a read.
pub open spec fn result_view(result: Result<PacketInfo, ReadError>) -> Result<
    PacketView,
    ReadError,
> {
    match result {
        Ok(packet) => Ok(packet@),
        Err(error) => Err(error),
    }
}

/// Reads the first packet out of `bytes` on behalf of the receiver `own_id`.
///
/// The bytes are all that will ever arrive: if they end before a frame is
/// complete, the read has timed out.
pub fn read_packet(bytes: &[u8], own_id: u8) -> (result: Result<PacketInfo, ReadError>)
    ensures
        result_view(result) == read_spec(own_id, bytes@),
{
    let mut decoder = Decoder::new(own_id);
    match decoder.feed(bytes) {
        Some(outcome) => outcome,
        None => Err(ReadError::Timeout),
    }
}

} // verus!
