//! Conversions between the reader's raw encodings and physical units.
//!
//! Frequencies are whole numbers of hertz. Every channel of the reader lies on
//! a grid of half a megahertz, so nothing is lost.

use vstd::prelude::*;
use crate::error::Error;
use crate::error::ProgramError;

verus! {

/// Distance between two neighbouring channels, in hertz.
pub const CHANNEL_STEP: u32 = 500_000;

/// First channel of the lower band, in hertz.
pub const LOW_BAND_START: u32 = 865_000_000;

/// Last channel of the lower band, in hertz.
pub const LOW_BAND_END: u32 = 868_000_000;

/// First channel of the upper band, in hertz.
pub const HIGH_BAND_START: u32 = 902_000_000;

/// Last channel of the upper band, in hertz.
pub const HIGH_BAND_END: u32 = 928_000_000;

/// Number of channels in the lower band; the upper band starts at this index.
pub const LOW_BAND_CHANNELS: u8 = 7;

/// Frequency of channel `raw` in hertz. The two bands are separate lines: the
/// map is not a single affine one.
pub open spec fn channel_frequency(raw: u8) -> int {
    if raw < LOW_BAND_CHANNELS {
        LOW_BAND_START + CHANNEL_STEP * raw
    } else {
        HIGH_BAND_START + CHANNEL_STEP * (raw - LOW_BAND_CHANNELS)
    }
}

/// Whether `hertz` lies in one of the two bands, ends included.
pub open spec fn in_band(hertz: u32) -> bool {
    LOW_BAND_START <= hertz <= LOW_BAND_END || HIGH_BAND_START <= hertz <= HIGH_BAND_END
}

/// Channel at or just below `hertz`, for a frequency inside a band.
pub open spec fn channel_index(hertz: u32) -> int {
    if hertz <= LOW_BAND_END {
        (hertz - LOW_BAND_START) / (CHANNEL_STEP as int)
    } else {
        (hertz - HIGH_BAND_START) / (CHANNEL_STEP as int) + LOW_BAND_CHANNELS
    }
}

/// What encoding `hertz` yields: the channel at or just below it inside a
/// band, and a refusal outside both bands.
pub open spec fn frequency_channel(hertz: u32) -> Result<u8, Error> {
    if in_band(hertz) {
        Ok(channel_index(hertz) as u8)
    } else {
        Err(Error::Program(ProgramError::InvalidFrequency(hertz)))
    }
}

/// Signal strength in dBm that the raw byte `raw` stands for. The offset
/// changes by one above 89. Below 2 the value would leave the range of a
/// signed byte and wraps around to its upper end.
pub open spec fn signal_strength(raw: u8) -> int {
    if raw > 89 {
        raw - 129
    } else if raw >= 2 {
        raw - 130
    } else {
        raw + 126
    }
}

/// Converts a channel index to its frequency in hertz.
pub fn convert_to_frequency(freq: u8) -> (hertz: u32)
    ensures
        hertz == channel_frequency(freq),
{
    if freq < LOW_BAND_CHANNELS {
        LOW_BAND_START + CHANNEL_STEP * (freq as u32)
    } else {
        HIGH_BAND_START + CHANNEL_STEP * ((freq - LOW_BAND_CHANNELS) as u32)
    }
}

/// Converts a frequency in hertz to the index of its channel. A frequency
/// between two channels yields the lower one. A frequency outside both bands
/// is refused.
pub fn convert_from_frequency(frequency: u32) -> (result: Result<u8, Error>)
    ensures
        result == frequency_channel(frequency),
{
    if frequency >= LOW_BAND_START && frequency <= LOW_BAND_END {
        let steps: u32 = (frequency - LOW_BAND_START) / CHANNEL_STEP;
        Ok(steps as u8)
    } else if frequency >= HIGH_BAND_START && frequency <= HIGH_BAND_END {
        let steps: u32 = (frequency - HIGH_BAND_START) / CHANNEL_STEP;
        Ok(steps as u8 + LOW_BAND_CHANNELS)
    } else {
        Err(Error::Program(ProgramError::InvalidFrequency(frequency)))
    }
}

/// Converts a raw signal strength byte to dBm.
pub fn convert_rssi(rssi: u8) -> (dbm: i8)
    ensures
        dbm == signal_strength(rssi),
{
    if rssi > 89 {
        (rssi as i16 - 129) as i8
    } else if rssi >= 2 {
        (rssi as i16 - 130) as i8
    } else {
        (rssi as i16 + 126) as i8
    }
}

/// Encoding a frequency inside a band and decoding the index again lands on
/// the channel at or just below the frequency: less than one step away, and
/// on the frequency itself when that lies on the grid.
pub proof fn lemma_frequency_round_trip(hertz: u32)
    requires
        in_band(hertz),
    ensures
        frequency_channel(hertz) is Ok,
        frequency_channel(hertz)->Ok_0 <= 59,
        channel_frequency(frequency_channel(hertz)->Ok_0) <= hertz,
        hertz < channel_frequency(frequency_channel(hertz)->Ok_0) + CHANNEL_STEP,
        hertz % CHANNEL_STEP == 0 ==> channel_frequency(frequency_channel(hertz)->Ok_0) == hertz,
{
}

/// Every channel of the two bands encodes back to its own index.
pub proof fn lemma_channel_round_trip(raw: u8)
    requires
        raw <= 59,
    ensures
        in_band(channel_frequency(raw) as u32),
        frequency_channel(channel_frequency(raw) as u32) == Ok::<u8, Error>(raw),
{
}

} // verus!
