//! The commands behind the operations of a reader.

use vstd::prelude::*;
use vstd::slice::slice_to_vec;
use crate::codes::CommandType;
use crate::codes::MemoryBank;
use crate::error::Error;
use crate::frame::Command;
use crate::frame::CommandView;
use crate::units::convert_from_frequency;
use crate::units::frequency_channel;

verus! {

/// Match mode that sets the identifier to match.
pub const MATCH_SET: u8 = 0x00;

/// Match mode that clears the match.
pub const MATCH_CLEAR: u8 = 0x01;

/// Data of the command that sets or clears the identifier match: the mode,
/// the low eight bits of the identifier's length, the identifier.
pub open spec fn epc_match_data(epc: Seq<u8>) -> Seq<u8> {
    seq![
        if epc.len() == 0 {
            MATCH_CLEAR
        } else {
            MATCH_SET
        },
        (epc.len() % 256) as u8,
    ] + epc
}

/// Data of the command that reads tag memory: bank, first word, number of
/// words, access password.
pub open spec fn read_data(bank: MemoryBank, password: Seq<u8>, start: u8, length: u8) -> Seq<u8> {
    seq![bank.spec_to_byte(), start, length] + password
}

/// What asking for a return loss measurement yields: the command with the
/// channel of the frequency, or the refusal of a frequency outside the bands.
pub open spec fn return_loss_request(address: u8, frequency: u32) -> Result<CommandView, Error> {
    match frequency_channel(frequency) {
        Ok(channel) => Ok(
            CommandView {
                address,
                command: CommandType::GetRFPortReturnLoss,
                data: seq![channel],
            },
        ),
        Err(error) => Err(error),
    }
}

/// The view of a command or of the refusal to build it.
pub open spec fn command_result_view(result: Result<Command, Error>) -> Result<CommandView, Error> {
    match result {
        Ok(command) => Ok(command@),
        Err(error) => Err(error),
    }
}

/// A command without data.
pub fn simple(address: u8, command: CommandType) -> (request: Command)
    ensures
        request@ == (CommandView { address, command, data: Seq::empty() }),
{
    Command { address, command, data: Vec::new() }
}

/// Restarts the reader.
pub fn reset(address: u8) -> (request: Command)
    ensures
        request@ == (CommandView { address, command: CommandType::Reset, data: Seq::empty() }),
{
    simple(address, CommandType::Reset)
}

/// Asks for the firmware version.
pub fn get_version(address: u8) -> (request: Command)
    ensures
        request@ == (CommandView {
            address,
            command: CommandType::GetFirmwareVersion,
            data: Seq::empty(),
        }),
{
    simple(address, CommandType::GetFirmwareVersion)
}

/// Selects the antenna that later commands work on.
pub fn set_work_antenna(address: u8, antenna_id: u8) -> (request: Command)
    ensures
        request@ == (CommandView {
            address,
            command: CommandType::SetWorkAntenna,
            data: seq![antenna_id],
        }),
{
    let mut data: Vec<u8> = Vec::new();
    data.push(antenna_id);
    assert(data@ == seq![antenna_id]);
    Command { address, command: CommandType::SetWorkAntenna, data }
}

/// Asks for the selected antenna.
pub fn get_work_antenna(address: u8) -> (request: Command)
    ensures
        request@ == (CommandView {
            address,
            command: CommandType::GetWorkAntenna,
            data: Seq::empty(),
        }),
{
    simple(address, CommandType::GetWorkAntenna)
}

/// Asks for the threshold of the antenna connection detector.
pub fn get_antenna_connection_detector(address: u8) -> (request: Command)
    ensures
        request@ == (CommandView {
            address,
            command: CommandType::GetAntConnectionDetector,
            data: Seq::empty(),
        }),
{
    simple(address, CommandType::GetAntConnectionDetector)
}

/// Sets the output power of every antenna, one byte of dBm each, and has the
/// reader keep it.
pub fn set_output_power(address: u8, antenna_count: usize, power: &[u8]) -> (request: Command)
    requires
        power@.len() == antenna_count,
    ensures
        request@ == (CommandView {
            address,
            command: CommandType::SetOutputPower,
            data: power@,
        }),
{
    Command { address, command: CommandType::SetOutputPower, data: slice_to_vec(power) }
}

/// Asks for the output power of the antennas.
pub fn get_output_power(address: u8) -> (request: Command)
    ensures
        request@ == (CommandView {
            address,
            command: CommandType::GetOutputPower,
            data: Seq::empty(),
        }),
{
    simple(address, CommandType::GetOutputPower)
}

/// Asks for the temperature of the reader.
pub fn get_temperature(address: u8) -> (request: Command)
    ensures
        request@ == (CommandView {
            address,
            command: CommandType::GetReaderTemperature,
            data: Seq::empty(),
        }),
{
    simple(address, CommandType::GetReaderTemperature)
}

/// Asks for the return loss of the selected antenna at `frequency`, given in
/// hertz.
pub fn measure_return_loss(address: u8, frequency: u32) -> (result: Result<Command, Error>)
    ensures
        command_result_view(result) == return_loss_request(address, frequency),
{
    match convert_from_frequency(frequency) {
        Ok(channel) => {
            let mut data: Vec<u8> = Vec::new();
            data.push(channel);
            assert(data@ == seq![channel]);
            Ok(Command { address, command: CommandType::GetRFPortReturnLoss, data })
        },
        Err(error) => Err(error),
    }
}

/// Starts an inventory on the selected antenna whose tags come in one by one.
/// `repeat` is the number of rounds; 255 leaves it to the reader.
pub fn real_time_inventory(address: u8, repeat: u8) -> (request: Command)
    ensures
        request@ == (CommandView {
            address,
            command: CommandType::RealTimeInventory,
            data: seq![repeat],
        }),
{
    let mut data: Vec<u8> = Vec::new();
    data.push(repeat);
    assert(data@ == seq![repeat]);
    Command { address, command: CommandType::RealTimeInventory, data }
}

/// Reads `length` words from word `start` of a memory bank of every tag in
/// range.
pub fn read(address: u8, bank: MemoryBank, password: &[u8], start: u8, length: u8) -> (request:
    Command)
    ensures
        request@ == (CommandView {
            address,
            command: CommandType::Read,
            data: read_data(bank, password@, start, length),
        }),
{
    let mut data: Vec<u8> = Vec::new();
    data.push(bank.to_byte());
    data.push(start);
    data.push(length);
    let mut rest: Vec<u8> = slice_to_vec(password);
    data.append(&mut rest);
    assert(data@ == read_data(bank, password@, start, length));
    Command { address, command: CommandType::Read, data }
}

/// Restricts tag access to the tag with identifier `epc`; an empty identifier
/// lifts the restriction.
pub fn set_epc_match(address: u8, epc: &[u8]) -> (request: Command)
    ensures
        request@ == (CommandView {
            address,
            command: CommandType::SetAccessEPCMatch,
            data: epc_match_data(epc@),
        }),
{
    let mode: u8 = if epc.len() == 0 {
        MATCH_CLEAR
    } else {
        MATCH_SET
    };
    let mut data: Vec<u8> = Vec::new();
    data.push(mode);
    data.push((epc.len() % 256) as u8);
    let mut rest: Vec<u8> = slice_to_vec(epc);
    data.append(&mut rest);
    assert(data@ == epc_match_data(epc@));
    Command { address, command: CommandType::SetAccessEPCMatch, data }
}

} // verus!
