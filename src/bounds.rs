//! Byte ranges of linear memory: the bounds check that every access makes,
//! and the spec functions that describe reads and writes.
use vstd::prelude::*;

verus! {

/// A half-open range `start..end` of byte offsets.
#[derive(Clone, Copy, Debug, PartialEq, Eq, Structural)]
pub struct ByteRange {
    pub start: usize,
    pub end: usize,
}

/// Whether `len` bytes from `offset` lie within an extent of `max` bytes:
/// the end does not overflow a `usize` and does not pass `max`.
pub open spec fn fits(offset: int, len: int, max: int) -> bool {
    &&& offset + len <= usize::MAX
    &&& offset + len <= max
}

/// The `len` bytes of `mem` that start at `offset`.
pub open spec fn span(mem: Seq<u8>, offset: int, len: int) -> Seq<u8> {
    mem.subrange(offset, offset + len)
}

/// `mem` with the bytes from `offset` on replaced by `data`.
pub open spec fn splice(mem: Seq<u8>, offset: int, data: Seq<u8>) -> Seq<u8> {
    mem.subrange(0, offset) + data + mem.subrange(offset + data.len(), mem.len() as int)
}

/// The range of `len` bytes from `offset`, when it lies within `max` bytes.
pub fn checked_range(offset: usize, len: usize, max: usize) -> (r: Option<ByteRange>)
    ensures
        r is Some <==> fits(offset as int, len as int, max as int),
        r matches Some(range) ==> range.start == offset && range.end == offset + len,
{
    match offset.checked_add(len) {
        Some(end) => {
            if end <= max {
                Some(ByteRange { start: offset, end })
            } else {
                None
            }
        },
        None => None,
    }
}

/// Writing `data` at `offset` into a memory that holds it, and then reading
/// as many bytes from `offset`, gives `data` back: the write is accepted, the
/// read is accepted on the memory it leaves, and the read returns `data`.
pub proof fn lemma_write_then_read(mem: Seq<u8>, offset: u32, data: Seq<u8>)
    requires
        mem.len() <= usize::MAX,
        offset + data.len() <= mem.len(),
    ensures
        fits(offset as int, data.len() as int, mem.len() as int),
        fits(offset as int, data.len() as int, splice(mem, offset as int, data).len() as int),
        span(splice(mem, offset as int, data), offset as int, data.len() as int) == data,
{
    assert(splice(mem, offset as int, data).len() == mem.len());
    assert(span(splice(mem, offset as int, data), offset as int, data.len() as int) =~= data);
}

} // verus!
