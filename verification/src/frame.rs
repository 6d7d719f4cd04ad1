//! Frames on the wire: commands going out, responses coming in.
//!
//! ```text
//! command:  [0xA0][length][address][opcode][data ...][checksum]
//! response: [0xA0][length][address][opcode][status?][payload ...][checksum]
//! ```
//!
//! The length byte counts every byte after itself, the checksum included. The
//! checksum covers every byte before itself.

use vstd::prelude::*;
use vstd::slice::slice_subrange;
use vstd::slice::slice_to_vec;
use crate::checksum::calculate_checksum;
use crate::checksum::checksum;
use crate::codes::CommandType;
use crate::codes::ResponseCode;
use crate::error::Error;
use crate::error::ProgramError;

verus! {

/// First byte of every frame.
pub const START_BYTE: u8 = 0xA0;

/// Length byte of the response that reports a failed real-time inventory.
pub const FAILED_INVENTORY_LENGTH: usize = 4;

/// Size of the shortest frame: start, length, address, opcode, checksum.
pub const SHORTEST_FRAME: usize = 5;

/// A command for the reader.
#[derive(Clone, Debug, PartialEq, Eq)]
pub struct Command {
    pub address: u8,
    pub command: CommandType,
    pub data: Vec<u8>,
}

/// A command as a mathematical value.
pub struct CommandView {
    pub address: u8,
    pub command: CommandType,
    pub data: Seq<u8>,
}

impl View for Command {
    type V = CommandView;

    open spec fn view(&self) -> CommandView {
        CommandView { address: self.address, command: self.command, data: self.data@ }
    }
}

/// A response of the reader. `status` is present only where the reader sends
/// a status byte; `command` is the operation code as it came.
#[derive(Clone, Debug, PartialEq, Eq)]
pub struct Response {
    pub address: u8,
    pub command: u8,
    pub status: Option<ResponseCode>,
    pub data: Vec<u8>,
}

/// A response as a mathematical value.
pub struct ResponseView {
    pub address: u8,
    pub command: u8,
    pub status: Option<ResponseCode>,
    pub data: Seq<u8>,
}

impl View for Response {
    type V = ResponseView;

    open spec fn view(&self) -> ResponseView {
        ResponseView {
            address: self.address,
            command: self.command,
            status: self.status,
            data: self.data@,
        }
    }
}

/// Whether a response to `command` whose length byte is `length` carries a
/// status byte. Six queries never do. A real-time inventory does only in the
/// short response that reports its failure. Every other command does.
pub open spec fn has_response_code(command: CommandType, length: int) -> bool {
    match command {
        CommandType::GetFirmwareVersion => false,
        CommandType::GetOutputPower => false,
        CommandType::GetReaderTemperature => false,
        CommandType::GetRFPortReturnLoss => false,
        CommandType::GetWorkAntenna => false,
        CommandType::GetAntConnectionDetector => false,
        CommandType::RealTimeInventory => length == FAILED_INVENTORY_LENGTH,
        _ => true,
    }
}

/// The length byte of a command with `data_len` bytes of data: address,
/// opcode and checksum are counted with the data. Only the low eight bits go
/// on the wire.
pub open spec fn length_byte(data_len: nat) -> u8 {
    ((data_len + 3) % 256) as u8
}

/// The frame without its checksum.
pub open spec fn frame_body(command: CommandView) -> Seq<u8> {
    seq![
        START_BYTE,
        length_byte(command.data.len()),
        command.address,
        command.command.spec_to_byte(),
    ] + command.data
}

/// The bytes that a command goes out as.
pub open spec fn serialize(command: CommandView) -> Seq<u8> {
    frame_body(command).push(checksum(frame_body(command)))
}

/// Whether a frame has the size of a frame, begins with the start byte and
/// is as long as its length byte says.
pub open spec fn well_framed(frame: Seq<u8>) -> bool {
    &&& frame.len() >= SHORTEST_FRAME
    &&& frame[0] == START_BYTE
    &&& frame[1] + 2 == frame.len()
}

/// What a frame parses to. The checks come in this order: framing, checksum,
/// operation code, presence of the status byte, status code.
pub open spec fn parse(frame: Seq<u8>) -> Result<ResponseView, Error> {
    if !well_framed(frame) {
        Err(Error::Program(ProgramError::Framing))
    } else if frame.last() != checksum(frame.drop_last()) {
        Err(
            Error::Program(
                ProgramError::BadChecksum {
                    got: frame.last(),
                    expecting: checksum(frame.drop_last()),
                },
            ),
        )
    } else {
        match CommandType::spec_from_byte(frame[3]) {
            None => Err(Error::Program(ProgramError::UnknownCommand(frame[3]))),
            Some(command) => if !has_response_code(command, frame[1] as int) {
                Ok(
                    ResponseView {
                        address: frame[2],
                        command: frame[3],
                        status: None,
                        data: frame.subrange(4, frame.len() - 1),
                    },
                )
            } else if frame.len() == SHORTEST_FRAME {
                Err(Error::Program(ProgramError::MissingStatus))
            } else {
                match ResponseCode::spec_from_byte(frame[4]) {
                    None => Err(Error::Program(ProgramError::UnknownStatus(frame[4]))),
                    Some(code) => Ok(
                        ResponseView {
                            address: frame[2],
                            command: frame[3],
                            status: Some(code),
                            data: frame.subrange(5, frame.len() - 1),
                        },
                    ),
                }
            },
        }
    }
}

/// What is left of a response once its status has been looked at: the
/// response itself where there is no status or the status is success, else
/// a protocol error that carries the status.
pub open spec fn raise(response: ResponseView) -> Result<ResponseView, Error> {
    match response.status {
        None => Ok(response),
        Some(ResponseCode::Success) => Ok(response),
        Some(status) => Err(Error::Protocol(status)),
    }
}

/// The view of a parsing result.
pub open spec fn response_result_view(result: Result<Response, Error>) -> Result<
    ResponseView,
    Error,
> {
    match result {
        Ok(response) => Ok(response@),
        Err(error) => Err(error),
    }
}

/// Decides whether a response carries a status byte, from its command and
/// its length byte.
pub fn command_has_response_code(command: CommandType, length: usize) -> (present: bool)
    ensures
        present == has_response_code(command, length as int),
{
    match command {
        CommandType::GetFirmwareVersion => false,
        CommandType::GetOutputPower => false,
        CommandType::GetReaderTemperature => false,
        CommandType::GetRFPortReturnLoss => false,
        CommandType::GetWorkAntenna => false,
        CommandType::GetAntConnectionDetector => false,
        CommandType::RealTimeInventory => length == FAILED_INVENTORY_LENGTH,
        _ => true,
    }
}

impl Command {
    /// Builds the frame of this command.
    pub fn to_bytes(&self) -> (frame: Vec<u8>)
        ensures
            frame@ == serialize(self@),
    {
        let low: u8 = (self.data.len() % 256) as u8;
        let length: u8 = low.wrapping_add(3);
        let mut frame: Vec<u8> = Vec::new();
        frame.push(START_BYTE);
        frame.push(length);
        frame.push(self.address);
        frame.push(self.command.to_byte());
        let mut data: Vec<u8> = slice_to_vec(self.data.as_slice());
        frame.append(&mut data);
        assert(frame@ == frame_body(self@));
        let sum: u8 = calculate_checksum(frame.as_slice());
        frame.push(sum);
        frame
    }
}

impl Response {
    /// Parses one frame. The status, where the frame has one, is decoded and
    /// kept, whatever it reports.
    pub fn from_bytes(data: Vec<u8>) -> (result: Result<Response, Error>)
        ensures
            response_result_view(result) == parse(data@),
    {
        let len: usize = data.len();
        if len < SHORTEST_FRAME || data[0] != START_BYTE || data[1] as usize + 2 != len {
            return Err(Error::Program(ProgramError::Framing));
        }
        let expecting: u8 = calculate_checksum(slice_subrange(data.as_slice(), 0, len - 1));
        let got: u8 = data[len - 1];
        if got != expecting {
            return Err(Error::Program(ProgramError::BadChecksum { got, expecting }));
        }
        let command_type = match CommandType::from_byte(data[3]) {
            Some(command) => command,
            None => {
                return Err(Error::Program(ProgramError::UnknownCommand(data[3])));
            },
        };
        if !command_has_response_code(command_type, data[1] as usize) {
            let payload: Vec<u8> = slice_to_vec(slice_subrange(data.as_slice(), 4, len - 1));
            return Ok(Response { address: data[2], command: data[3], status: None, data: payload });
        }
        if len == SHORTEST_FRAME {
            return Err(Error::Program(ProgramError::MissingStatus));
        }
        match ResponseCode::from_byte(data[4]) {
            None => Err(Error::Program(ProgramError::UnknownStatus(data[4]))),
            Some(code) => {
                let payload: Vec<u8> = slice_to_vec(slice_subrange(data.as_slice(), 5, len - 1));
                Ok(Response { address: data[2], command: data[3], status: Some(code), data: payload })
            },
        }
    }

    /// Turns a status other than success into a protocol error.
    pub fn raise_error(self) -> (result: Result<Response, Error>)
        ensures
            response_result_view(result) == raise(self@),
            result matches Ok(response) ==> response == self,
    {
        match self.status {
            None => Ok(self),
            Some(ResponseCode::Success) => Ok(self),
            Some(status) => Err(Error::Protocol(status)),
        }
    }
}

/// Largest number of data bytes whose count, with address, opcode and
/// checksum, still fits the length byte.
pub const MAX_COMMAND_DATA: usize = 252;

/// The frame of a command whose data fits the length byte is well framed and
/// passes the checksum check.
pub proof fn lemma_serialize_well_formed(command: CommandView)
    requires
        command.data.len() <= MAX_COMMAND_DATA,
    ensures
        well_framed(serialize(command)),
        serialize(command).len() == command.data.len() + 5,
        serialize(command).last() == checksum(serialize(command).drop_last()),
{
    assert(serialize(command).drop_last() == frame_body(command));
}

/// A frame that parses stops parsing when its last byte is changed: the
/// parser answers with a checksum error that names the byte it got and the
/// byte it expected.
pub proof fn lemma_corrupted_checksum(frame: Seq<u8>, last: u8)
    requires
        parse(frame) is Ok,
        last != frame.last(),
    ensures
        parse(frame.drop_last().push(last)) == Err::<ResponseView, Error>(
            Error::Program(ProgramError::BadChecksum { got: last, expecting: frame.last() }),
        ),
{
    let corrupted = frame.drop_last().push(last);
    assert(corrupted.drop_last() == frame.drop_last());
}

/// A response that parsed comes from a frame that is well framed and passes
/// the checksum check, and its payload is as long as the length byte leaves
/// room for: the length less address, opcode and checksum, and less the
/// status byte where there is one.
pub proof fn lemma_parsed_is_consistent(frame: Seq<u8>)
    requires
        parse(frame) is Ok,
    ensures
        well_framed(frame),
        frame.last() == checksum(frame.drop_last()),
        parse(frame)->Ok_0.address == frame[2],
        parse(frame)->Ok_0.command == frame[3],
        CommandType::spec_from_byte(frame[3]) is Some,
        parse(frame)->Ok_0.data.len() == frame[1] - 3 - if parse(frame)->Ok_0.status is Some {
            1int
        } else {
            0int
        },
{
}

/// A command that goes out parses as it would if it came in: where the
/// reader sends no status byte with that command, and the data fit the length
/// byte, parsing the frame of the command gives back its address, its
/// operation code and its data.
pub proof fn lemma_parse_inverts_serialize(command: CommandView)
    requires
        command.data.len() <= MAX_COMMAND_DATA,
        !has_response_code(command.command, command.data.len() as int + 3),
    ensures
        parse(serialize(command)) == Ok::<ResponseView, Error>(
            ResponseView {
                address: command.address,
                command: command.command.spec_to_byte(),
                status: None,
                data: command.data,
            },
        ),
{
    let frame = serialize(command);
    lemma_serialize_well_formed(command);
    CommandType::lemma_byte_bijection(command.command, frame[3]);
    assert(frame.subrange(4, frame.len() - 1) == command.data);
}

} // verus!
