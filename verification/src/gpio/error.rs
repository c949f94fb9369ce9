//! The error response: what the remote controller sends in place of a
//! regular response when it refuses a request.

use vstd::prelude::*;
use crate::gpio::{as_response_type, response_type, Error};

verus! {

/// Operation code of the error response.
pub const TYPE_ERROR: u8 = 0x7F;

/// Error code for a pin that the requested operation cannot use.
pub const ERR_INVALID_PIN: u8 = 0x03;

/// The error that an error code stands for.
pub open spec fn error_of_code(error_code: u8) -> Error {
    if error_code == ERR_INVALID_PIN {
        Error::InvalidPin
    } else {
        Error::RemoteError { code: error_code }
    }
}

/// What a packet body means as an error response: `Ok` with the error that it
/// reports if it is one, a mismatch if it is not.
pub open spec fn error_response_spec(packet_body: Seq<u8>) -> Result<Error, Error> {
    if packet_body.len() == 2 && packet_body[0] == response_type(TYPE_ERROR) {
        Ok(error_of_code(packet_body[1]))
    } else {
        Err(Error::ResponseMismatch)
    }
}

/// Reads error responses. There is no request to go with it: an error
/// response is only ever received.
#[derive(Debug)]
pub struct ErrorRequest {}

impl ErrorRequest {
    pub fn new() -> (request: ErrorRequest)
        ensures
            request == (ErrorRequest {  }),
    {
        ErrorRequest {  }
    }

    /// Reads a packet body as an error response.
    pub fn parse_response(&self, packet_body: &Vec<u8>) -> (response: Result<Error, Error>)
        ensures
            response == error_response_spec(packet_body@),
    {
        if packet_body.len() != 2 {
            return Err(Error::ResponseMismatch);
        }
        if packet_body[0] != as_response_type(TYPE_ERROR) {
            return Err(Error::ResponseMismatch);
        }
        let error_code = packet_body[1];
        if error_code == ERR_INVALID_PIN {
            Ok(Error::InvalidPin)
        } else {
            Ok(Error::RemoteError { code: error_code })
        }
    }
}

} // verus!
