//! Replies to a read of tag memory.

use vstd::prelude::*;
use vstd::slice::slice_subrange;
use vstd::slice::slice_to_vec;
use crate::error::Error;
use crate::error::ProgramError;

verus! {

/// What one tag answered to a read of its memory: the reply as the reader
/// sent it, without the count in front of it.
#[derive(Clone, Debug, PartialEq, Eq)]
pub struct ReadResult {
    pub data: Vec<u8>,
}

/// A read reply as a mathematical value.
pub struct ReadResultView {
    pub data: Seq<u8>,
}

impl View for ReadResult {
    type V = ReadResultView;

    open spec fn view(&self) -> ReadResultView {
        ReadResultView { data: self.data@ }
    }
}

/// The views of `results`, in the same order.
pub open spec fn result_views(results: Seq<ReadResult>) -> Seq<ReadResultView> {
    Seq::new(results.len(), |i: int| results[i]@)
}

/// What the payload of a read reply decodes to: its first byte is the number
/// of tags that answer, the rest is this tag's answer. A payload without a
/// first byte is refused.
pub open spec fn read_record(data: Seq<u8>) -> Result<(usize, ReadResultView), Error> {
    if data.len() == 0 {
        Err(Error::Program(ProgramError::Bitfield))
    } else {
        Ok((data[0] as usize, ReadResultView { data: data.subrange(1, data.len() as int) }))
    }
}

/// The view of a decoded read reply or of the refusal to decode it.
pub open spec fn read_result_view(result: Result<(usize, ReadResult), Error>) -> Result<
    (usize, ReadResultView),
    Error,
> {
    match result {
        Ok((count, record)) => Ok((count, record@)),
        Err(error) => Err(error),
    }
}

impl ReadResult {
    /// Decodes the payload of one read reply into the number of tags that
    /// answer and the answer of this tag.
    pub fn from_bytes(data: &[u8]) -> (result: Result<(usize, ReadResult), Error>)
        ensures
            read_result_view(result) == read_record(data@),
    {
        let len: usize = data.len();
        if len == 0 {
            return Err(Error::Program(ProgramError::Bitfield));
        }
        let record = ReadResult { data: slice_to_vec(slice_subrange(data, 1, len)) };
        Ok((data[0] as usize, record))
    }
}

} // verus!
