//! Records of a real-time inventory: one record per tag seen, and the summary
//! that closes the inventory.

use vstd::prelude::*;
use vstd::slice::slice_subrange;
use vstd::slice::slice_to_vec;
use crate::bits::bits_of;
use crate::bits::bytes_value;
use crate::bits::lemma_byte_value;
use crate::bits::lemma_bytes_read;
use crate::bits::reader_new;
use crate::bits::reader_read_u16;
use crate::bits::reader_read_u32;
use crate::bits::reader_read_u8;
use crate::error::Error;
use crate::error::ProgramError;
use crate::units::channel_frequency;
use crate::units::convert_rssi;
use crate::units::convert_to_frequency;
use crate::units::signal_strength;

verus! {

/// Size of the shortest tag record: the packed byte, the two bytes of the
/// protocol control word, an empty identifier, and the signal strength.
pub const SHORTEST_TAG_RECORD: usize = 4;

/// Size of the summary: antenna, read rate, total count.
pub const SUMMARY_SIZE: usize = 7;

/// One tag seen during an inventory.
#[derive(Clone, Debug, PartialEq, Eq)]
pub struct InventoryItem {
    /// Frequency the tag was read on, in hertz.
    pub frequency: u32,
    /// Antenna the tag was read on.
    pub antenna: u8,
    /// Protocol control word of the tag.
    pub pc: Vec<u8>,
    /// Identifier of the tag.
    pub epc: Vec<u8>,
    /// Signal strength in dBm.
    pub rssi: i8,
}

/// A tag record as a mathematical value.
pub struct InventoryItemView {
    pub frequency: u32,
    pub antenna: u8,
    pub pc: Seq<u8>,
    pub epc: Seq<u8>,
    pub rssi: i8,
}

impl View for InventoryItem {
    type V = InventoryItemView;

    open spec fn view(&self) -> InventoryItemView {
        InventoryItemView {
            frequency: self.frequency,
            antenna: self.antenna,
            pc: self.pc@,
            epc: self.epc@,
            rssi: self.rssi,
        }
    }
}

/// The outcome of an inventory.
#[derive(Clone, Debug, PartialEq, Eq)]
pub struct InventoryResult {
    /// The tags seen, in the order in which the reader reported them.
    pub items: Vec<InventoryItem>,
    /// Antenna the inventory ran on.
    pub antenna: u8,
    /// Tags read per second.
    pub read_rate: u16,
    /// Number of tag reads in all.
    pub total_read: u32,
}

/// The outcome of an inventory as a mathematical value.
pub struct InventoryResultView {
    pub items: Seq<InventoryItemView>,
    pub antenna: u8,
    pub read_rate: u16,
    pub total_read: u32,
}

/// The views of `items`, in the same order.
pub open spec fn item_views(items: Seq<InventoryItem>) -> Seq<InventoryItemView> {
    Seq::new(items.len(), |i: int| items[i]@)
}

impl View for InventoryResult {
    type V = InventoryResultView;

    open spec fn view(&self) -> InventoryResultView {
        InventoryResultView {
            items: item_views(self.items@),
            antenna: self.antenna,
            read_rate: self.read_rate,
            total_read: self.total_read,
        }
    }
}

/// What a tag record decodes to. The upper six bits of the first byte are the
/// channel, its lower two bits the antenna; two bytes of protocol control
/// follow; the last byte is the signal strength; what lies between is the
/// identifier.
///
/// Descriptions of the protocol disagree by one byte on where the identifier
/// ends. Here it ends just before the last byte of the record, so that a
/// record of four bytes has an empty identifier.
pub open spec fn tag_record(data: Seq<u8>) -> Result<InventoryItemView, Error> {
    if data.len() < SHORTEST_TAG_RECORD {
        Err(Error::Program(ProgramError::Bitfield))
    } else {
        Ok(
            InventoryItemView {
                frequency: channel_frequency(data[0] / 4) as u32,
                antenna: data[0] % 4,
                pc: data.subrange(1, 3),
                epc: data.subrange(3, data.len() - 1),
                rssi: signal_strength(data.last()) as i8,
            },
        )
    }
}

/// What a summary decodes to, together with the tags seen before it: one
/// byte of antenna, two of read rate, four of total count, the most
/// significant byte first. Bytes after the seventh are not looked at.
pub open spec fn inventory_summary(data: Seq<u8>, items: Seq<InventoryItemView>) -> Result<
    InventoryResultView,
    Error,
> {
    if data.len() < SUMMARY_SIZE {
        Err(Error::Program(ProgramError::Bitfield))
    } else {
        Ok(
            InventoryResultView {
                items,
                antenna: data[0],
                read_rate: bytes_value(data.subrange(1, 3)) as u16,
                total_read: bytes_value(data.subrange(3, 7)) as u32,
            },
        )
    }
}

/// The view of a decoded tag record or of the refusal to decode it.
pub open spec fn item_result_view(result: Result<InventoryItem, Error>) -> Result<
    InventoryItemView,
    Error,
> {
    match result {
        Ok(item) => Ok(item@),
        Err(error) => Err(error),
    }
}

/// The view of a decoded summary or of the refusal to decode it.
pub open spec fn summary_result_view(result: Result<InventoryResult, Error>) -> Result<
    InventoryResultView,
    Error,
> {
    match result {
        Ok(summary) => Ok(summary@),
        Err(error) => Err(error),
    }
}

/// The read rate and the total count of a summary, written out byte by byte.
pub proof fn lemma_summary_fields(data: Seq<u8>)
    requires
        data.len() >= SUMMARY_SIZE,
    ensures
        bytes_value(data.subrange(1, 3)) == data[1] * 256 + data[2],
        bytes_value(data.subrange(3, 7)) == data[3] * 0x100_0000 + data[4] * 0x1_0000 + data[5]
            * 0x100 + data[6],
{
    let rate = data.subrange(1, 3);
    assert(rate.drop_last().drop_last().len() == 0);
    assert(bytes_value(rate.drop_last().drop_last()) == 0);
    assert(bytes_value(rate.drop_last()) == data[1]);
    let total = data.subrange(3, 7);
    let three = total.drop_last();
    let two = three.drop_last();
    let one = two.drop_last();
    assert(one.drop_last().len() == 0);
    assert(bytes_value(one.drop_last()) == 0);
    assert(bytes_value(one) == data[3]);
    assert(bytes_value(two) == 256 * data[3] + data[4]);
    assert(bytes_value(three) == 256 * (256 * data[3] + data[4]) + data[5]);
}

impl InventoryItem {
    /// Decodes one tag record.
    pub fn from_bytes(data: &[u8]) -> (result: Result<InventoryItem, Error>)
        ensures
            item_result_view(result) == tag_record(data@),
    {
        let len: usize = data.len();
        if len < SHORTEST_TAG_RECORD {
            return Err(Error::Program(ProgramError::Bitfield));
        }
        let first_byte = slice_subrange(data, 0, 1);
        let mut reader = reader_new(first_byte);
        proof {
            lemma_byte_value(bits_of(first_byte@), data@[0]);
        }
        let channel: u8 = match reader_read_u8(&mut reader, 6) {
            Ok(value) => value,
            Err(_) => {
                return Err(Error::Program(ProgramError::Bitfield));
            },
        };
        let antenna: u8 = match reader_read_u8(&mut reader, 2) {
            Ok(value) => value,
            Err(_) => {
                return Err(Error::Program(ProgramError::Bitfield));
            },
        };
        Ok(
            InventoryItem {
                frequency: convert_to_frequency(channel),
                antenna,
                pc: slice_to_vec(slice_subrange(data, 1, 3)),
                epc: slice_to_vec(slice_subrange(data, 3, len - 1)),
                rssi: convert_rssi(data[len - 1]),
            },
        )
    }
}

impl InventoryResult {
    /// Decodes the summary that closes an inventory and joins it with the
    /// tags seen before it.
    pub fn from_bytes(data: &[u8], items: Vec<InventoryItem>) -> (result: Result<
        InventoryResult,
        Error,
    >)
        ensures
            summary_result_view(result) == inventory_summary(data@, item_views(items@)),
            result matches Ok(summary) ==> summary.items == items,
    {
        let len: usize = data.len();
        let fields = slice_subrange(
            data,
            0,
            if len < SUMMARY_SIZE {
                len
            } else {
                SUMMARY_SIZE
            },
        );
        let mut reader = reader_new(fields);
        let ghost bits = bits_of(fields@);
        proof {
            if len >= SUMMARY_SIZE {
                lemma_bytes_read(fields@, 0, 1);
                lemma_bytes_read(fields@, 1, 2);
                lemma_bytes_read(fields@, 3, 4);
                lemma_summary_fields(data@);
                assert(bits.skip(0) == bits);
                assert(bits.skip(8).skip(16) == bits.skip(24));
                assert(fields@.subrange(0, 1).drop_last().len() == 0);
                assert(bytes_value(fields@.subrange(0, 1).drop_last()) == 0);
                assert(fields@.subrange(1, 3) == data@.subrange(1, 3));
                assert(fields@.subrange(3, 7) == data@.subrange(3, 7));
            }
        }
        let antenna: u8 = match reader_read_u8(&mut reader, 8) {
            Ok(value) => value,
            Err(_) => {
                return Err(Error::Program(ProgramError::Bitfield));
            },
        };
        let read_rate: u16 = match reader_read_u16(&mut reader, 16) {
            Ok(value) => value,
            Err(_) => {
                return Err(Error::Program(ProgramError::Bitfield));
            },
        };
        let total_read: u32 = match reader_read_u32(&mut reader, 32) {
            Ok(value) => value,
            Err(_) => {
                return Err(Error::Program(ProgramError::Bitfield));
            },
        };
        Ok(InventoryResult { items, antenna, read_rate, total_read })
    }
}

} // verus!
