//! The commands as one closed type: any of the requests, answered by the
//! response of its own kind.

use vstd::prelude::*;
use crate::gpio::iic::write::{IICWriteRequest, IICWriteResponse};
use crate::gpio::read::{ReadRequest, ReadResponse};
use crate::gpio::toggle::{ToggleRequest, ToggleResponse};
use crate::gpio::write::{WriteRequest, WriteResponse};
use crate::gpio::{Error, Request};

verus! {

/// Any one of the requests that the remote controller understands.
#[derive(Debug)]
pub enum Command {
    Read(ReadRequest),
    Write(WriteRequest),
    Toggle(ToggleRequest),
    I2CWrite(IICWriteRequest),
}

/// The response to a [`Command`], of the kind of the command.
#[derive(Debug)]
pub enum Response {
    Read(ReadResponse),
    Write(WriteResponse),
    Toggle(ToggleResponse),
    I2CWrite(IICWriteResponse),
}

impl Request<Response> for Command {
    /// The body of the request that the command holds.
    open spec fn body_spec(&self) -> Seq<u8> {
        match self {
            Command::Read(request) => request.body_spec(),
            Command::Write(request) => request.body_spec(),
            Command::Toggle(request) => request.body_spec(),
            Command::I2CWrite(request) => request.body_spec(),
        }
    }

    /// What the request that the command holds makes of the body, as a
    /// response of the same kind.
    open spec fn response_spec(&self, packet_body: Seq<u8>) -> Result<Response, Error> {
        match self {
            Command::Read(request) => match request.response_spec(packet_body) {
                Ok(response) => Ok(Response::Read(response)),
                Err(error) => Err(error),
            },
            Command::Write(request) => match request.response_spec(packet_body) {
                Ok(response) => Ok(Response::Write(response)),
                Err(error) => Err(error),
            },
            Command::Toggle(request) => match request.response_spec(packet_body) {
                Ok(response) => Ok(Response::Toggle(response)),
                Err(error) => Err(error),
            },
            Command::I2CWrite(request) => match request.response_spec(packet_body) {
                Ok(response) => Ok(Response::I2CWrite(response)),
                Err(error) => Err(error),
            },
        }
    }

    fn get_packet_body(&self) -> (body: Vec<u8>) {
        match self {
            Command::Read(request) => request.get_packet_body(),
            Command::Write(request) => request.get_packet_body(),
            Command::Toggle(request) => request.get_packet_body(),
            Command::I2CWrite(request) => request.get_packet_body(),
        }
    }

    fn parse_response(&self, packet_body: &Vec<u8>) -> (response: Result<Response, Error>) {
        match self {
            Command::Read(request) => match request.parse_response(packet_body) {
                Ok(response) => Ok(Response::Read(response)),
                Err(error) => Err(error),
            },
            Command::Write(request) => match request.parse_response(packet_body) {
                Ok(response) => Ok(Response::Write(response)),
                Err(error) => Err(error),
            },
            Command::Toggle(request) => match request.parse_response(packet_body) {
                Ok(response) => Ok(Response::Toggle(response)),
                Err(error) => Err(error),
            },
            Command::I2CWrite(request) => match request.parse_response(packet_body) {
                Ok(response) => Ok(Response::I2CWrite(response)),
                Err(error) => Err(error),
            },
        }
    }
}

} // verus!
