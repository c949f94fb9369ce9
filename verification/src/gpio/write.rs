//! Writing a pin, digital or analog.

use vstd::prelude::*;
use crate::gpio::{
    as_request_type, as_response_type, flag, request_type, response_type, with_flag, Error,
    Request,
};
use crate::sdsp::{high_byte, low_byte, lsb, msb};

verus! {

/// Operation code of a write.
pub const TYPE_WRITE: u8 = 0x02;

pub const FLAG_WRITE_ANALOG: u8 = 0x01;

pub const FLAG_WRITE_INVERT: u8 = 0x02;

/// A request to write `value` to the pin `pin`.
#[derive(Debug)]
pub struct WriteRequest {
    pub pin: u8,
    /// The value to write: its low 8 bits count for a digital write, all 16
    /// for an analog one.
    pub value: u16,
    /// Write an analog value.
    pub analog: bool,
    /// Invert the value.
    pub invert: bool,
}

/// The acknowledgement of a write. It carries nothing.
#[derive(Debug)]
pub struct WriteResponse {}

impl WriteRequest {
    pub fn new(pin: u8, value: u16, analog: bool, invert: bool) -> (request: WriteRequest)
        ensures
            request == (WriteRequest { pin, value, analog, invert }),
    {
        WriteRequest { pin, value, analog, invert }
    }

    /// The flags byte of the request: one bit for each option that is set.
    pub open spec fn flags_spec(&self) -> u8 {
        (flag(self.analog, FLAG_WRITE_ANALOG) + flag(self.invert, FLAG_WRITE_INVERT)) as u8
    }
}

impl Request<WriteResponse> for WriteRequest {
    /// Type, pin, value with its most significant byte first, flags.
    open spec fn body_spec(&self) -> Seq<u8> {
        seq![
            request_type(TYPE_WRITE),
            self.pin,
            high_byte(self.value),
            low_byte(self.value),
            self.flags_spec(),
        ]
    }

    /// A write response is the type byte alone.
    open spec fn response_spec(&self, packet_body: Seq<u8>) -> Result<WriteResponse, Error> {
        if packet_body.len() == 1 && packet_body[0] == response_type(TYPE_WRITE) {
            Ok(WriteResponse {  })
        } else {
            Err(Error::ResponseMismatch)
        }
    }

    fn get_packet_body(&self) -> (body: Vec<u8>) {
        let mut flags: u8 = 0;
        if self.analog {
            flags = with_flag(flags, FLAG_WRITE_ANALOG);
        }
        if self.invert {
            flags = with_flag(flags, FLAG_WRITE_INVERT);
        }
        let mut body: Vec<u8> = Vec::new();
        body.push(as_request_type(TYPE_WRITE));
        body.push(self.pin);
        body.push(msb(self.value));
        body.push(lsb(self.value));
        body.push(flags);
        body
    }

    fn parse_response(&self, packet_body: &Vec<u8>) -> (response: Result<WriteResponse, Error>) {
        if packet_body.len() != 1 {
            return Err(Error::ResponseMismatch);
        }
        if packet_body[0] == as_response_type(TYPE_WRITE) {
            Ok(WriteResponse {  })
        } else {
            Err(Error::ResponseMismatch)
        }
    }
}

} // verus!
