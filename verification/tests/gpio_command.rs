use sdsp_gpio::gpio::command::{Command, Response};
use sdsp_gpio::gpio::iic::write::{IICResultCode, IICWriteRequest};
use sdsp_gpio::gpio::read::ReadRequest;
use sdsp_gpio::gpio::toggle::ToggleRequest;
use sdsp_gpio::gpio::write::WriteRequest;
use sdsp_gpio::gpio::{conclude, decode_response, Error, Exchange, HostController, Request, Step};
use sdsp_gpio::sdsp::PacketInfo;

#[test]
fn command_bodies_are_those_of_the_requests() {
    let read = Command::Read(ReadRequest::new(7, true, false, true, false, true));
    assert_eq!(read.get_packet_body(), vec![0x01, 7, 0x15]);
    let write = Command::Write(WriteRequest::new(5, 1, false, false));
    assert_eq!(write.get_packet_body(), vec![0x02, 5, 0x00, 0x01, 0x00]);
    let toggle = Command::Toggle(ToggleRequest::new(13));
    assert_eq!(toggle.get_packet_body(), vec![0x03, 13]);
    let iic = Command::I2CWrite(IICWriteRequest::new(0x50, vec![0x01, 0x02], true));
    assert_eq!(iic.get_packet_body(), vec![0x04, 0x50, 0x01, 0x01, 0x02]);
}

#[test]
fn command_responses_are_of_the_kind_of_the_command() {
    let read = Command::Read(ReadRequest::new(7, false, false, false, false, false));
    match read.parse_response(&vec![0x81, 0x01, 0x02]) {
        Ok(Response::Read(response)) => assert_eq!(response.value, 0x0102),
        other => panic!("unexpected {:?}", other),
    }
    let write = Command::Write(WriteRequest::new(5, 1, false, false));
    assert!(matches!(write.parse_response(&vec![0x82]), Ok(Response::Write(_))));
    let toggle = Command::Toggle(ToggleRequest::new(13));
    match toggle.parse_response(&vec![0x83, 0x01]) {
        Ok(Response::Toggle(response)) => assert_eq!(response.new_value, 1),
        other => panic!("unexpected {:?}", other),
    }
    let iic = Command::I2CWrite(IICWriteRequest::new(0x50, vec![0x01, 0x02], true));
    match iic.parse_response(&vec![0x84, 0x02]) {
        Ok(Response::I2CWrite(response)) => {
            assert_eq!(response.result_code, IICResultCode::NACKOnAddress)
        }
        other => panic!("unexpected {:?}", other),
    }
}

#[test]
fn command_refuses_the_response_of_another_kind() {
    let bodies: Vec<Vec<u8>> =
        vec![vec![0x81, 0x01, 0x02], vec![0x82], vec![0x83, 0x01], vec![0x84, 0x02]];
    let commands = vec![
        Command::Read(ReadRequest::new(7, false, false, false, false, false)),
        Command::Write(WriteRequest::new(5, 1, false, false)),
        Command::Toggle(ToggleRequest::new(13)),
        Command::I2CWrite(IICWriteRequest::new(0x50, vec![], true)),
    ];
    for (i, command) in commands.iter().enumerate() {
        for (j, body) in bodies.iter().enumerate() {
            let response = command.parse_response(body);
            if i == j {
                assert!(response.is_ok());
            } else {
                assert!(matches!(response, Err(Error::ResponseMismatch)));
            }
        }
    }
}

#[test]
fn command_surfaces_a_reported_error() {
    let commands = vec![
        Command::Read(ReadRequest::new(7, false, false, false, false, false)),
        Command::Write(WriteRequest::new(5, 1, false, false)),
        Command::Toggle(ToggleRequest::new(13)),
        Command::I2CWrite(IICWriteRequest::new(0x50, vec![], true)),
    ];
    for command in &commands {
        assert!(matches!(decode_response(command, &vec![0xFF, 0x03]), Err(Error::InvalidPin)));
        assert!(matches!(
            decode_response(command, &vec![0xFF, 0x02]),
            Err(Error::RemoteError { code: 0x02 })
        ));
        assert!(matches!(decode_response(command, &vec![0xFF]), Err(Error::ResponseMismatch)));
    }
}

#[test]
fn command_goes_through_the_controller() {
    let controller = HostController::new(0xAA, None, Some(1));
    let command = Command::Toggle(ToggleRequest::new(13));
    assert_eq!(
        controller.request_frame(&command, 0x10).unwrap(),
        sdsp_gpio::sdsp::encode(0xAA, 0x10, &vec![0x03, 13])
    );
    let packet = PacketInfo::new(0x10, 0xAA, vec![0xFF, 0x03]);
    let outcome = conclude(&command, Exchange::Answered { packet });
    assert!(matches!(
        controller.next_step(0, outcome),
        Step::Done { result: Err(Error::InvalidPin) }
    ));
}
