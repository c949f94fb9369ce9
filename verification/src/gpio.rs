//! GPIO and I2C commands over SDSP: the typed requests and responses, the
//! errors, and the retry policy of the host controller.
//!
//! Every packet body starts with a type byte. Its low seven bits name the
//! operation; the top bit is clear in a request and set in the response to it.

pub mod command;
pub mod error;
pub mod iic;
pub mod read;
pub mod toggle;
pub mod write;

pub mod proofs;

use vstd::prelude::*;
use crate::gpio::error::{error_response_spec, ErrorRequest};
use crate::sdsp::decoder::{Decoder, ReadError};
use crate::sdsp::{encode, encode_spec, PacketInfo, MAX_BODY_LEN};

verus! {

/// The bit of the type byte that marks a response.
pub const RESPONSE_FLAG: u8 = 0x80;

/// The bits of the type byte that name the operation.
pub const TYPE_MASK: u8 = 0x7F;

/// The type byte of a request for the operation `operation`.
pub open spec fn request_type(operation: u8) -> u8 {
    (operation % 128) as u8
}

/// The type byte of a response for the operation `operation`.
pub open spec fn response_type(operation: u8) -> u8 {
    (operation % 128 + 128) as u8
}

/// The type byte of a request for the operation `operation`.
pub fn as_request_type(operation: u8) -> (type_byte: u8)
    ensures
        type_byte == request_type(operation),
{
    assert(operation & 0x7F == operation % 128) by (bit_vector);
    operation & TYPE_MASK
}

/// The type byte of a response for the operation `operation`.
pub fn as_response_type(operation: u8) -> (type_byte: u8)
    ensures
        type_byte == response_type(operation),
{
    assert(operation | 0x80 == operation % 128 + 128) by (bit_vector);
    operation | RESPONSE_FLAG
}

/// Sets the flag `mask` in `flags`. Flags are set in ascending order, so
/// `flags` holds nothing but bits below `mask`.
pub(crate) fn with_flag(flags: u8, mask: u8) -> (result: u8)
    requires
        mask == 1 || mask == 2 || mask == 4 || mask == 8 || mask == 16,
        flags < mask,
    ensures
        result == flags + mask,
{
    assert(flags | mask == flags + mask) by (bit_vector)
        requires
            mask == 1 || mask == 2 || mask == 4 || mask == 8 || mask == 16,
            flags < mask,
    ;
    flags | mask
}

/// The value of a flag bit: `mask` if the flag is set, zero if not.
pub open spec fn flag(set: bool, mask: u8) -> int {
    if set {
        mask as int
    } else {
        0
    }
}

/// Why a request got no valid response.
#[derive(PartialEq, Eq, Structural, Debug, Clone, Copy)]
pub enum Error {
    /// The packet layer failed: no frame in time, or a damaged or misdirected
    /// one.
    SDSPError { kind: ReadError },
    /// The remote controller reported an error.
    RemoteError { code: u8 },
    /// The host controller itself failed.
    HostError { code: u8 },
    /// The remote controller knows no such pin for the requested operation.
    InvalidPin,
    /// The response is not one to the request that was sent.
    ResponseMismatch,
}

/// A request to the remote controller, with the response that answers it.
pub trait Request<ResponseType> {
    /// The body of the packet that carries this request.
    spec fn body_spec(&self) -> Seq<u8>;

    /// What a packet body means as a response to this request.
    spec fn response_spec(&self, packet_body: Seq<u8>) -> Result<ResponseType, Error>;

    /// Builds the body of the packet that carries this request.
    fn get_packet_body(&self) -> (body: Vec<u8>)
        ensures
            body@ == self.body_spec(),
    ;

    /// Reads a packet body as a response to this request.
    fn parse_response(&self, packet_body: &Vec<u8>) -> (response: Result<ResponseType, Error>)
        ensures
            response == self.response_spec(packet_body@),
    ;
}

/// What a response that failed to parse comes to, given the packet body: the
/// error that the body reports if it is an error response, the parse failure
/// itself if it is not. A response that parsed stands.
pub open spec fn settle<ResponseType>(
    parsed: Result<ResponseType, Error>,
    packet_body: Seq<u8>,
) -> Result<ResponseType, Error> {
    match parsed {
        Ok(response) => Ok(response),
        Err(mismatch) => match error_response_spec(packet_body) {
            Ok(reported) => Err(reported),
            Err(_) => Err(mismatch),
        },
    }
}

/// What a packet body means to the sender of `request`.
pub open spec fn decode_response_spec<ResponseType, R: Request<ResponseType>>(
    request: &R,
    packet_body: Seq<u8>,
) -> Result<ResponseType, Error> {
    settle(request.response_spec(packet_body), packet_body)
}

/// Reads a packet body as the response to `request`; if it is none, reads it
/// as an error response and hands out the error that it reports.
pub fn decode_response<ResponseType, R: Request<ResponseType>>(
    request: &R,
    packet_body: &Vec<u8>,
) -> (response: Result<ResponseType, Error>)
    ensures
        response == decode_response_spec(request, packet_body@),
{
    let response = request.parse_response(packet_body);
    if response.is_err() {
        if let Ok(reported) = ErrorRequest::new().parse_response(packet_body) {
            return Err(reported);
        }
    }
    response
}

/// Read timeout of a host controller that was given none, in milliseconds.
pub const DEFAULT_READ_TIMEOUT_MS: u64 = 100;

/// Retries of a host controller that was given no number.
pub const DEFAULT_MAX_RETRIES: i32 = 2;

/// Pause before a retry, in milliseconds.
pub const RETRY_BACKOFF_MS: u64 = 100;

/// Code of the remote error that stands for a request that could not be
/// written.
pub const ERR_WRITE_FAILED: u8 = 0xFF;

/// Code of the host error for a request whose body does not fit a frame.
pub const ERR_BODY_TOO_LONG: u8 = 0x01;

/// What the line did with one request.
#[derive(Debug)]
pub enum Exchange {
    /// The request could not be written.
    WriteFailed,
    /// The request was written, and no packet was read in answer.
    ReadFailed { kind: ReadError },
    /// The request was written, and a packet was read in answer.
    Answered { packet: PacketInfo },
}

/// What one attempt to send `request` comes to when the line did `exchange`.
pub open spec fn conclude_spec<ResponseType, R: Request<ResponseType>>(
    request: &R,
    exchange: Exchange,
) -> Result<ResponseType, Error> {
    match exchange {
        Exchange::WriteFailed => Err(Error::RemoteError { code: ERR_WRITE_FAILED }),
        Exchange::ReadFailed { kind } => Err(Error::SDSPError { kind }),
        Exchange::Answered { packet } => decode_response_spec(request, packet.body@),
    }
}

/// Works out what one attempt to send `request` came to.
pub fn conclude<ResponseType, R: Request<ResponseType>>(
    request: &R,
    exchange: Exchange,
) -> (outcome: Result<ResponseType, Error>)
    ensures
        outcome == conclude_spec(request, exchange),
{
    match exchange {
        Exchange::WriteFailed => Err(Error::RemoteError { code: ERR_WRITE_FAILED }),
        Exchange::ReadFailed { kind } => Err(Error::SDSPError { kind }),
        Exchange::Answered { packet } => decode_response(request, &packet.body),
    }
}

/// Whether an outcome ends a send whatever the number of retries left: a
/// response does, and so does the refusal of the pin, which no retry mends.
pub open spec fn is_terminal<ResponseType>(outcome: Result<ResponseType, Error>) -> bool {
    match outcome {
        Ok(_) => true,
        Err(Error::InvalidPin) => true,
        Err(_) => false,
    }
}

/// Whether the attempt that follows `tries` earlier ones and comes to
/// `outcome` is the last of its send.
pub open spec fn is_final_attempt<ResponseType>(
    max_retries: int,
    tries: int,
    outcome: Result<ResponseType, Error>,
) -> bool {
    is_terminal(outcome) || tries + 1 > max_retries
}

/// The number of attempts of a send that has made `tries` of them already,
/// where `outcomes(i)` is what the attempt after `i` earlier ones comes to.
pub open spec fn attempts_from<ResponseType>(
    max_retries: int,
    outcomes: spec_fn(nat) -> Result<ResponseType, Error>,
    tries: nat,
) -> nat
    decreases max_retries - tries,
{
    if is_final_attempt(max_retries, tries as int, outcomes(tries)) {
        tries + 1
    } else {
        attempts_from(max_retries, outcomes, tries + 1)
    }
}

/// The number of attempts that a send makes.
pub open spec fn attempts<ResponseType>(
    max_retries: int,
    outcomes: spec_fn(nat) -> Result<ResponseType, Error>,
) -> nat {
    attempts_from(max_retries, outcomes, 0)
}

/// What a send returns: the outcome of its last attempt.
pub open spec fn send_spec<ResponseType>(
    max_retries: int,
    outcomes: spec_fn(nat) -> Result<ResponseType, Error>,
) -> Result<ResponseType, Error> {
    outcomes((attempts(max_retries, outcomes) - 1) as nat)
}

/// What to do after an attempt.
#[derive(Debug)]
pub enum Step<ResponseType> {
    /// Return `result` to the caller.
    Done { result: Result<ResponseType, Error> },
    /// Wait `backoff_ms` milliseconds and try again; `tries` attempts have
    /// been made.
    Retry { tries: i32, backoff_ms: u64 },
}

/// The host side of the protocol: it knows its own id, how long to wait for
/// a response and how often to try again, and decides what each attempt to
/// send a request comes to. Moving the bytes is left to the caller.
#[derive(Debug)]
pub struct HostController {
    id: u8,
    read_timeout_ms: u64,
    max_retries: i32,
}

impl HostController {
    pub closed spec fn spec_id(&self) -> u8 {
        self.id
    }

    pub closed spec fn spec_read_timeout_ms(&self) -> u64 {
        self.read_timeout_ms
    }

    pub closed spec fn spec_max_retries(&self) -> i32 {
        self.max_retries
    }

    /// A host controller with the id `id`. Without a read timeout it waits
    /// [`DEFAULT_READ_TIMEOUT_MS`]; without a number of retries it retries
    /// [`DEFAULT_MAX_RETRIES`] times.
    pub fn new(
        id: u8,
        read_timeout_ms: Option<u64>,
        max_retries: Option<i32>,
    ) -> (controller: HostController)
        ensures
            controller.id() == id,
            controller.read_timeout_ms() == match read_timeout_ms {
                Some(timeout) => timeout,
                None => DEFAULT_READ_TIMEOUT_MS,
            },
            controller.max_retries() == match max_retries {
                Some(retries) => retries,
                None => DEFAULT_MAX_RETRIES,
            },
    {
        HostController {
            id,
            read_timeout_ms: match read_timeout_ms {
                Some(timeout) => timeout,
                None => DEFAULT_READ_TIMEOUT_MS,
            },
            max_retries: match max_retries {
                Some(retries) => retries,
                None => DEFAULT_MAX_RETRIES,
            },
        }
    }

    /// The id under which the controller sends and receives.
    #[verifier::when_used_as_spec(spec_id)]
    pub fn id(&self) -> (id: u8)
        ensures
            id == self.spec_id(),
    {
        self.id
    }

    /// How long the controller waits for a response, in milliseconds.
    #[verifier::when_used_as_spec(spec_read_timeout_ms)]
    pub fn read_timeout_ms(&self) -> (timeout: u64)
        ensures
            timeout == self.spec_read_timeout_ms(),
    {
        self.read_timeout_ms
    }

    /// How many times the controller tries again after a failed attempt.
    #[verifier::when_used_as_spec(spec_max_retries)]
    pub fn max_retries(&self) -> (retries: i32)
        ensures
            retries == self.spec_max_retries(),
    {
        self.max_retries
    }

    /// The frame that carries `request` to `recipient_id`.
    ///
    /// A request whose body is longer than a frame can announce is refused
    /// with a host error of the code [`ERR_BODY_TOO_LONG`].
    pub fn request_frame<ResponseType, R: Request<ResponseType>>(
        &self,
        request: &R,
        recipient_id: u8,
    ) -> (frame: Result<Vec<u8>, Error>)
        ensures
            request.body_spec().len() <= MAX_BODY_LEN ==> frame is Ok && frame->Ok_0@
                == encode_spec(self.id(), recipient_id, request.body_spec()),
            request.body_spec().len() > MAX_BODY_LEN ==> frame == Err::<Vec<u8>, Error>(
                Error::HostError { code: ERR_BODY_TOO_LONG },
            ),
    {
        let body = request.get_packet_body();
        if body.len() > MAX_BODY_LEN {
            Err(Error::HostError { code: ERR_BODY_TOO_LONG })
        } else {
            Ok(encode(self.id, recipient_id, &body))
        }
    }

    /// A fresh decoder for the response to a request of this controller.
    pub fn decoder(&self) -> (decoder: Decoder)
        ensures
            decoder.wf(),
            decoder.own_id() == self.id(),
            decoder@ == Seq::<u8>::empty(),
    {
        Decoder::new(self.id)
    }

    /// Decides what follows the attempt that came after `tries` earlier ones
    /// and came to `outcome`.
    ///
    /// A response and the refusal of the pin are returned at once. Any other
    /// error is returned only when the retries are used up; until then the
    /// request is tried again after [`RETRY_BACKOFF_MS`].
    pub fn next_step<ResponseType>(
        &self,
        tries: i32,
        outcome: Result<ResponseType, Error>,
    ) -> (step: Step<ResponseType>)
        ensures
            step == if is_final_attempt(self.max_retries() as int, tries as int, outcome) {
                Step::Done { result: outcome }
            } else {
                Step::Retry { tries: (tries + 1) as i32, backoff_ms: RETRY_BACKOFF_MS }
            },
    {
        let terminal = match &outcome {
            Ok(_) => true,
            Err(Error::InvalidPin) => true,
            Err(_) => false,
        };
        if terminal || tries >= self.max_retries {
            Step::Done { result: outcome }
        } else {
            Step::Retry { tries: tries + 1, backoff_ms: RETRY_BACKOFF_MS }
        }
    }
}

} // verus!
