//! What the payloads of the reader's replies mean.

use vstd::prelude::*;
use crate::error::Error;
use crate::error::ProgramError;

verus! {

/// The byte `raw` read as a signed byte.
pub open spec fn signed(raw: u8) -> int {
    if raw < 128 {
        raw as int
    } else {
        raw - 256
    }
}

/// The negative of the byte `raw` read as a signed byte. The one value whose
/// negative leaves the range, -128, stays as it is.
pub open spec fn negated(raw: u8) -> int {
    if raw <= 128 {
        -(raw as int)
    } else {
        256 - raw
    }
}

/// Firmware version, major then minor, of a payload of at least two bytes.
pub open spec fn version_of(data: Seq<u8>) -> Result<(u8, u8), Error> {
    if data.len() < 2 {
        Err(Error::Program(ProgramError::Bitfield))
    } else {
        Ok((data[0], data[1]))
    }
}

/// First byte of a payload that has one.
pub open spec fn first_byte_of(data: Seq<u8>) -> Result<u8, Error> {
    if data.len() < 1 {
        Err(Error::Program(ProgramError::Bitfield))
    } else {
        Ok(data[0])
    }
}

/// A number of dB that the reader sends without its minus sign.
pub open spec fn loss_of(data: Seq<u8>) -> Result<i8, Error> {
    if data.len() < 1 {
        Err(Error::Program(ProgramError::Bitfield))
    } else {
        Ok(negated(data[0]) as i8)
    }
}

/// Temperature in degrees Celsius: the second byte, made negative where the
/// first byte is zero.
pub open spec fn temperature_of(data: Seq<u8>) -> Result<i8, Error> {
    if data.len() < 2 {
        Err(Error::Program(ProgramError::Bitfield))
    } else if data[0] == 0 {
        Ok(negated(data[1]) as i8)
    } else {
        Ok(signed(data[1]) as i8)
    }
}

/// Output power of each antenna. The reader sends a single byte where all
/// antennas are set alike; it stands for each of them.
pub open spec fn output_power_of(data: Seq<u8>, antenna_count: usize) -> Seq<u8> {
    if data.len() == 1 {
        Seq::new(antenna_count as nat, |i: int| data[0])
    } else {
        data
    }
}

fn negate(raw: u8) -> (result: i8)
    ensures
        result == negated(raw),
{
    if raw <= 128 {
        (0i16 - raw as i16) as i8
    } else {
        (256i16 - raw as i16) as i8
    }
}

/// Decodes the reply to a version query.
pub fn version(data: &[u8]) -> (result: Result<(u8, u8), Error>)
    ensures
        result == version_of(data@),
{
    if data.len() < 2 {
        return Err(Error::Program(ProgramError::Bitfield));
    }
    Ok((data[0], data[1]))
}

/// Decodes the reply to the query for the selected antenna.
pub fn work_antenna(data: &[u8]) -> (result: Result<u8, Error>)
    ensures
        result == first_byte_of(data@),
{
    if data.len() < 1 {
        return Err(Error::Program(ProgramError::Bitfield));
    }
    Ok(data[0])
}

/// Decodes the threshold of the antenna connection detector, in dB; zero
/// where the detector is off.
pub fn antenna_connection_detector(data: &[u8]) -> (result: Result<i8, Error>)
    ensures
        result == loss_of(data@),
{
    if data.len() < 1 {
        return Err(Error::Program(ProgramError::Bitfield));
    }
    Ok(negate(data[0]))
}

/// Decodes a measured return loss, in dB.
pub fn return_loss(data: &[u8]) -> (result: Result<i8, Error>)
    ensures
        result == loss_of(data@),
{
    if data.len() < 1 {
        return Err(Error::Program(ProgramError::Bitfield));
    }
    Ok(negate(data[0]))
}

/// Decodes the temperature of the reader.
pub fn temperature(data: &[u8]) -> (result: Result<i8, Error>)
    ensures
        result == temperature_of(data@),
{
    if data.len() < 2 {
        return Err(Error::Program(ProgramError::Bitfield));
    }
    if data[0] == 0x00 {
        Ok(negate(data[1]))
    } else if data[1] < 128 {
        Ok(data[1] as i8)
    } else {
        Ok((data[1] as i16 - 256) as i8)
    }
}

/// Decodes the output power of the antennas, one byte of dBm for each.
pub fn output_power(data: Vec<u8>, antenna_count: usize) -> (power: Vec<u8>)
    ensures
        power@ == output_power_of(data@, antenna_count),
{
    if data.len() != 1 {
        return data;
    }
    let level: u8 = data[0];
    let mut power: Vec<u8> = Vec::new();
    let mut i: usize = 0;
    while i < antenna_count
        invariant
            i <= antenna_count,
            power@.len() == i,
            forall|k: int| 0 <= k < i ==> power@[k] == level,
        decreases antenna_count - i,
    {
        power.push(level);
        i += 1;
    }
    assert(power@ == Seq::new(antenna_count as nat, |k: int| level));
    power
}

} // verus!
