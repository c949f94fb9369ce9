//! Toggling a digital pin.

use vstd::prelude::*;
use crate::gpio::{as_request_type, as_response_type, request_type, response_type, Error, Request};

verus! {

/// Operation code of a toggle.
pub const TYPE_TOGGLE: u8 = 0x03;

/// A request to invert the level of the pin `pin`.
#[derive(Debug)]
pub struct ToggleRequest {
    pub pin: u8,
}

/// The level of the pin after the toggle.
#[derive(Debug)]
pub struct ToggleResponse {
    pub new_value: u8,
}

impl ToggleRequest {
    pub fn new(pin: u8) -> (request: ToggleRequest)
        ensures
            request == (ToggleRequest { pin }),
    {
        ToggleRequest { pin }
    }
}

impl Request<ToggleResponse> for ToggleRequest {
    /// Type, pin.
    open spec fn body_spec(&self) -> Seq<u8> {
        seq![request_type(TYPE_TOGGLE), self.pin]
    }

    /// A toggle response is the type byte followed by the new level.
    open spec fn response_spec(&self, packet_body: Seq<u8>) -> Result<ToggleResponse, Error> {
        if packet_body.len() == 2 && packet_body[0] == response_type(TYPE_TOGGLE) {
            Ok(ToggleResponse { new_value: packet_body[1] })
        } else {
            Err(Error::ResponseMismatch)
        }
    }

    fn get_packet_body(&self) -> (body: Vec<u8>) {
        let mut body: Vec<u8> = Vec::new();
        body.push(as_request_type(TYPE_TOGGLE));
        body.push(self.pin);
        body
    }

    fn parse_response(&self, packet_body: &Vec<u8>) -> (response: Result<ToggleResponse, Error>) {
        if packet_body.len() != 2 {
            return Err(Error::ResponseMismatch);
        }
        if packet_body[0] != as_response_type(TYPE_TOGGLE) {
            return Err(Error::ResponseMismatch);
        }
        Ok(ToggleResponse { new_value: packet_body[1] })
    }
}

} // verus!
