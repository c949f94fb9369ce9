//! Reading a pin, digital or analog.

use vstd::prelude::*;
use crate::gpio::{
    as_request_type, as_response_type, flag, request_type, response_type, with_flag, Error,
    Request,
};
use crate::sdsp::{be_u16, join_bytes};

verus! {

/// Operation code of a read.
pub const TYPE_READ: u8 = 0x01;

pub const FLAG_READ_PULLUP: u8 = 0x01;

pub const FLAG_READ_PULLDOWN: u8 = 0x02;

pub const FLAG_READ_ANALOG: u8 = 0x04;

pub const FLAG_READ_INVERT: u8 = 0x08;

pub const FLAG_READ_DIRECT: u8 = 0x10;

/// A request to read the pin `pin`.
#[derive(Debug)]
pub struct ReadRequest {
    pub pin: u8,
    /// Enable the pull-up resistor.
    pub pullup: bool,
    /// Enable the pull-down resistor.
    pub pulldown: bool,
    /// Read an analog value.
    pub analog: bool,
    /// Invert the value.
    pub invert: bool,
    /// Read what the pin currently puts out, without configuring it first.
    pub direct: bool,
}

/// The value that was read: the full 16 bits for an analog read, the low 8
/// bits for a digital one.
#[derive(Debug)]
pub struct ReadResponse {
    pub value: u16,
}

impl ReadRequest {
    pub fn new(
        pin: u8,
        pullup: bool,
        pulldown: bool,
        analog: bool,
        invert: bool,
        direct: bool,
    ) -> (request: ReadRequest)
        ensures
            request == (ReadRequest { pin, pullup, pulldown, analog, invert, direct }),
    {
        ReadRequest { pin, pullup, pulldown, analog, invert, direct }
    }

    /// The flags byte of the request: one bit for each option that is set.
    pub open spec fn flags_spec(&self) -> u8 {
        (flag(self.pullup, FLAG_READ_PULLUP) + flag(self.pulldown, FLAG_READ_PULLDOWN) + flag(
            self.analog,
            FLAG_READ_ANALOG,
        ) + flag(self.invert, FLAG_READ_INVERT) + flag(self.direct, FLAG_READ_DIRECT)) as u8
    }
}

impl Request<ReadResponse> for ReadRequest {
    /// Type, pin, flags.
    open spec fn body_spec(&self) -> Seq<u8> {
        seq![request_type(TYPE_READ), self.pin, self.flags_spec()]
    }

    /// A read response is the type byte followed by the value, most
    /// significant byte first.
    open spec fn response_spec(&self, packet_body: Seq<u8>) -> Result<ReadResponse, Error> {
        if packet_body.len() == 3 && packet_body[0] == response_type(TYPE_READ) {
            Ok(ReadResponse { value: be_u16(packet_body[1], packet_body[2]) })
        } else {
            Err(Error::ResponseMismatch)
        }
    }

    fn get_packet_body(&self) -> (body: Vec<u8>) {
        let mut flags: u8 = 0;
        if self.pullup {
            flags = with_flag(flags, FLAG_READ_PULLUP);
        }
        if self.pulldown {
            flags = with_flag(flags, FLAG_READ_PULLDOWN);
        }
        if self.analog {
            flags = with_flag(flags, FLAG_READ_ANALOG);
        }
        if self.invert {
            flags = with_flag(flags, FLAG_READ_INVERT);
        }
        if self.direct {
            flags = with_flag(flags, FLAG_READ_DIRECT);
        }
        let mut body: Vec<u8> = Vec::new();
        body.push(as_request_type(TYPE_READ));
        body.push(self.pin);
        body.push(flags);
        body
    }

    fn parse_response(&self, packet_body: &Vec<u8>) -> (response: Result<ReadResponse, Error>) {
        if packet_body.len() != 3 {
            return Err(Error::ResponseMismatch);
        }
        if packet_body[0] != as_response_type(TYPE_READ) {
            return Err(Error::ResponseMismatch);
        }
        let value = join_bytes(packet_body[1], packet_body[2]);
        Ok(ReadResponse { value })
    }
}

} // verus!
