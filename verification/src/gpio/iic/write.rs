//! Writing bytes to a device on the I2C bus.

use vstd::prelude::*;
use crate::gpio::{
    as_request_type, as_response_type, flag, request_type, response_type, with_flag, Error,
    Request,
};

verus! {

/// Operation code of an I2C write.
pub const TYPE_IIC_WRITE: u8 = 0x04;

pub const FLAG_IIC_STOP: u8 = 0x01;

pub const RESULT_CODE_SUCCESS: u8 = 0x00;

pub const RESULT_CODE_DATA_TOO_LONG: u8 = 0x01;

pub const RESULT_CODE_NACK_ON_ADDRESS: u8 = 0x02;

pub const RESULT_CODE_NACK_ON_DATA: u8 = 0x03;

pub const RESULT_CODE_OTHER: u8 = 0x04;

pub const RESULT_CODE_TIMEOUT: u8 = 0x05;

/// A request to write `data` to the device at `address`.
#[derive(Debug)]
pub struct IICWriteRequest {
    pub address: u8,
    pub data: Vec<u8>,
    /// Send a stop condition after the data.
    pub stop: bool,
}

/// How the write ended on the bus.
#[derive(Debug)]
pub struct IICWriteResponse {
    pub result_code: IICResultCode,
}

/// How a transfer ended on the bus.
#[derive(PartialEq, Eq, Structural, Debug, Clone, Copy)]
pub enum IICResultCode {
    Success,
    /// The data did not fit the transmit buffer.
    DataTooLong,
    /// The device did not acknowledge its address.
    NACKOnAddress,
    /// The device did not acknowledge the data.
    NACKOnData,
    Other,
    Timeout,
    /// A code that has no meaning assigned.
    Unknown { result_code: u8 },
}

/// The meaning of a result code.
pub open spec fn result_code_spec(result_code: u8) -> IICResultCode {
    if result_code == RESULT_CODE_SUCCESS {
        IICResultCode::Success
    } else if result_code == RESULT_CODE_DATA_TOO_LONG {
        IICResultCode::DataTooLong
    } else if result_code == RESULT_CODE_NACK_ON_ADDRESS {
        IICResultCode::NACKOnAddress
    } else if result_code == RESULT_CODE_NACK_ON_DATA {
        IICResultCode::NACKOnData
    } else if result_code == RESULT_CODE_OTHER {
        IICResultCode::Other
    } else if result_code == RESULT_CODE_TIMEOUT {
        IICResultCode::Timeout
    } else {
        IICResultCode::Unknown { result_code }
    }
}

/// Reads a result code.
pub fn parse_result_code(result_code: u8) -> (meaning: IICResultCode)
    ensures
        meaning == result_code_spec(result_code),
{
    match result_code {
        RESULT_CODE_SUCCESS => IICResultCode::Success,
        RESULT_CODE_DATA_TOO_LONG => IICResultCode::DataTooLong,
        RESULT_CODE_NACK_ON_ADDRESS => IICResultCode::NACKOnAddress,
        RESULT_CODE_NACK_ON_DATA => IICResultCode::NACKOnData,
        RESULT_CODE_OTHER => IICResultCode::Other,
        RESULT_CODE_TIMEOUT => IICResultCode::Timeout,
        _ => IICResultCode::Unknown { result_code },
    }
}

impl IICWriteRequest {
    pub fn new(address: u8, data: Vec<u8>, stop: bool) -> (request: IICWriteRequest)
        ensures
            request.address == address,
            request.data@ == data@,
            request.stop == stop,
    {
        IICWriteRequest { address, data, stop }
    }

    /// The flags byte of the request.
    pub open spec fn flags_spec(&self) -> u8 {
        flag(self.stop, FLAG_IIC_STOP) as u8
    }
}

impl Request<IICWriteResponse> for IICWriteRequest {
    /// Type, address, flags, then the data as it is.
    open spec fn body_spec(&self) -> Seq<u8> {
        seq![request_type(TYPE_IIC_WRITE), self.address, self.flags_spec()] + self.data@
    }

    /// An I2C write response is the type byte followed by the result code.
    open spec fn response_spec(&self, packet_body: Seq<u8>) -> Result<IICWriteResponse, Error> {
        if packet_body.len() == 2 && packet_body[0] == response_type(TYPE_IIC_WRITE) {
            Ok(IICWriteResponse { result_code: result_code_spec(packet_body[1]) })
        } else {
            Err(Error::ResponseMismatch)
        }
    }

    fn get_packet_body(&self) -> (body: Vec<u8>) {
        let mut flags: u8 = 0;
        if self.stop {
            flags = with_flag(flags, FLAG_IIC_STOP);
        }
        let mut body: Vec<u8> = Vec::new();
        body.push(as_request_type(TYPE_IIC_WRITE));
        body.push(self.address);
        body.push(flags);
        body.extend_from_slice(self.data.as_slice());
        body
    }

    fn parse_response(&self, packet_body: &Vec<u8>) -> (response: Result<
        IICWriteResponse,
        Error,
    >) {
        if packet_body.len() != 2 {
            return Err(Error::ResponseMismatch);
        }
        if packet_body[0] != as_response_type(TYPE_IIC_WRITE) {
            return Err(Error::ResponseMismatch);
        }
        let result_code = parse_result_code(packet_body[1]);
        Ok(IICWriteResponse { result_code })
    }
}

} // verus!
