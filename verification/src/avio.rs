//! The decisions behind FFmpeg's custom I/O callbacks: how a `whence` flag
//! word becomes a seek request, what a read callback reports, and how the
//! read and write handles track their cursor and size.
use vstd::prelude::*;

use crate::averror::AVERROR_EOF;

verus! {

/// Size of the buffer handed to `avio_alloc_context`.
pub const BUFFER_SIZE: i32 = 65536;

/// `SEEK_CUR` of the C library: the offset is relative to the cursor.
pub const SEEK_CUR: i32 = 1;

/// `SEEK_END` of the C library: the offset is relative to the end.
pub const SEEK_END: i32 = 2;

/// FFmpeg's `AVSEEK_SIZE` flag: the caller asks for the stream size.
pub const AVSEEK_SIZE: i32 = 0x10000;

/// Where a seek moves the cursor to, in the three ways the C library knows.
#[derive(Clone, Copy, Debug, PartialEq, Eq, Structural)]
pub enum SeekFrom {
    /// An absolute byte position.
    Start(u64),
    /// An offset from the end of the stream.
    End(i64),
    /// An offset from the current position.
    Current(i64),
}

/// What FFmpeg's seek callback is asked to do.
#[derive(Clone, Copy, Debug, PartialEq, Eq, Structural)]
pub enum SeekRequest {
    /// Report the stream size; the cursor does not move.
    Size,
    /// Move the cursor.
    Seek(SeekFrom),
}

/// The request that a seek callback receives, as a spec.
pub open spec fn spec_decode_seek(offset: i64, whence: i32) -> SeekRequest {
    if whence & AVSEEK_SIZE > 0 {
        SeekRequest::Size
    } else if whence & SEEK_CUR > 0 {
        SeekRequest::Seek(SeekFrom::Current(offset))
    } else if whence & SEEK_END > 0 {
        SeekRequest::Seek(SeekFrom::End(offset))
    } else {
        SeekRequest::Seek(SeekFrom::Start(offset as u64))
    }
}

/// Decodes the `(offset, whence)` pair of FFmpeg's seek callback: the
/// `AVSEEK_SIZE` bit asks for the size, then `SEEK_CUR` and `SEEK_END` pick the
/// origin, and anything else is `SEEK_SET`.
pub fn decode_seek(offset: i64, whence: i32) -> (r: SeekRequest)
    ensures
        r == spec_decode_seek(offset, whence),
{
    if whence & AVSEEK_SIZE > 0 {
        SeekRequest::Size
    } else if whence & SEEK_CUR > 0 {
        SeekRequest::Seek(SeekFrom::Current(offset))
    } else if whence & SEEK_END > 0 {
        SeekRequest::Seek(SeekFrom::End(offset))
    } else {
        SeekRequest::Seek(SeekFrom::Start(offset as u64))
    }
}

/// What each `whence` asks for, read bit by bit: the size bit (`0x10000`)
/// asks for the size whatever else is set; without it, bit 1 (`SEEK_CUR`)
/// seeks relative to the cursor, then bit 2 (`SEEK_END`) relative to the end,
/// both by the whole offset; with none of the three bits set the request is
/// a seek to the absolute position that the whole 64-bit offset denotes read
/// as unsigned (a negative offset wraps around 2^64).
pub proof fn lemma_decode_seek_bits(offset: i64, whence: i32)
    ensures
        whence & 0x10000 != 0 ==> spec_decode_seek(offset, whence) == SeekRequest::Size,
        whence & 0x10000 == 0 && whence & 1 != 0 ==> spec_decode_seek(offset, whence)
            == SeekRequest::Seek(SeekFrom::Current(offset)),
        whence & 0x10000 == 0 && whence & 1 == 0 && whence & 2 != 0 ==> spec_decode_seek(
            offset,
            whence,
        ) == SeekRequest::Seek(SeekFrom::End(offset)),
        whence & 0x10000 == 0 && whence & 1 == 0 && whence & 2 == 0 ==> (spec_decode_seek(
            offset,
            whence,
        ) matches SeekRequest::Seek(SeekFrom::Start(p)) && p == (if offset >= 0 {
            offset as int
        } else {
            offset + 0x1_0000_0000_0000_0000
        })),
{
    assert(whence & 0x10000 >= 0) by (bit_vector);
    assert(whence & 1 >= 0) by (bit_vector);
    assert(whence & 2 >= 0) by (bit_vector);
    lemma_i64_as_u64(offset);
}

/// A signed 64-bit number read as unsigned: itself where it is not
/// negative, else itself plus 2^64.
proof fn lemma_i64_as_u64(x: i64)
    ensures
        (x as u64) as int == if x >= 0 {
            x as int
        } else {
            x + 0x1_0000_0000_0000_0000
        },
{
    if x < 0 {
        let n: i64 = (-(x + 1)) as i64;
        assert(x < 0 ==> x as u64 == 0xFFFF_FFFF_FFFF_FFFFu64 - (n as u64)) by (bit_vector)
            requires
                n == -(x + 1),
        ;
    }
}

/// An unsigned 64-bit number read as signed: itself where it fits, else
/// itself minus 2^64.
proof fn lemma_u64_as_i64(x: u64)
    ensures
        (x as i64) as int == if x <= i64::MAX {
            x as int
        } else {
            x - 0x1_0000_0000_0000_0000
        },
{
    if x > i64::MAX {
        let n: u64 = (0xFFFF_FFFF_FFFF_FFFFu64 - x) as u64;
        assert(x > 0x7FFF_FFFF_FFFF_FFFFu64 ==> x as i64 == -(n as i64) - 1i64) by (bit_vector)
            requires
                n == 0xFFFF_FFFF_FFFF_FFFFu64 - x,
        ;
    }
}

/// What the read callback hands back to FFmpeg for a handler that read
/// `count_read` bytes: a read of nothing is the end of the stream.
pub fn read_callback_result(count_read: i32) -> (r: i32)
    ensures
        count_read == 0 ==> r == AVERROR_EOF,
        count_read != 0 ==> r == count_read,
{
    if count_read == 0 {
        AVERROR_EOF
    } else {
        count_read
    }
}

/// The flags that `avio_alloc_context` is called with for a handler: a
/// read-only handler gets a read callback and no write flag, any other a write
/// callback and the write flag. Both get the seek callback.
#[derive(Clone, Copy, Debug, PartialEq, Eq, Structural)]
pub struct IoMode {
    pub write_flag: i32,
    pub read_callback: bool,
    pub write_callback: bool,
}

/// The callbacks that an I/O context is set up with.
pub fn io_mode(readonly: bool) -> (m: IoMode)
    ensures
        readonly ==> m == (IoMode { write_flag: 0, read_callback: true, write_callback: false }),
        !readonly ==> m == (IoMode { write_flag: 1, read_callback: false, write_callback: true }),
{
    if readonly {
        IoMode { write_flag: 0, read_callback: true, write_callback: false }
    } else {
        IoMode { write_flag: 1, read_callback: false, write_callback: true }
    }
}

/// The cursor that a seek lands on, from the current cursor and the size.
/// `None` where the sum leaves the range of `i64`.
pub open spec fn seek_target(cursor: i64, size: u64, offset: SeekFrom) -> Option<i64> {
    match offset {
        SeekFrom::Start(i) => Some(i as i64),
        SeekFrom::End(i) => {
            let t: int = (size as i64) + i;
            if i64::MIN <= t <= i64::MAX { Some(t as i64) } else { None }
        },
        SeekFrom::Current(i) => {
            let t: int = cursor + i;
            if i64::MIN <= t <= i64::MAX { Some(t as i64) } else { None }
        },
    }
}

/// The cursor of a handle that reads a file of a known size.
#[derive(Clone, Copy, Debug, PartialEq, Eq, Structural)]
pub struct ReadCursor {
    pub cursor: i64,
    pub size: u64,
}

impl ReadCursor {
    /// A cursor at the start of a file of `size` bytes.
    pub fn new(size: u64) -> (r: ReadCursor)
        ensures
            r.cursor == 0,
            r.size == size,
    {
        ReadCursor { cursor: 0, size }
    }

    /// Moves past the `count` bytes that a read returned.
    pub fn advance(&mut self, count: i32)
        requires
            i64::MIN <= old(self).cursor + count <= i64::MAX,
        ensures
            final(self).cursor == old(self).cursor + count,
            final(self).size == old(self).size,
    {
        self.cursor = self.cursor + count as i64;
    }

    /// Moves the cursor and returns where it now stands.
    pub fn seek(&mut self, offset: SeekFrom) -> (pos: i64)
        requires
            seek_target(old(self).cursor, old(self).size, offset) is Some,
        ensures
            Some(pos) == seek_target(old(self).cursor, old(self).size, offset),
            final(self).cursor == pos,
            final(self).size == old(self).size,
    {
        match offset {
            SeekFrom::Start(i) => self.cursor = i as i64,
            SeekFrom::End(i) => self.cursor = self.size as i64 + i,
            SeekFrom::Current(i) => self.cursor = self.cursor + i,
        }
        self.cursor
    }

    /// The size of the file.
    pub fn size(&self) -> (s: u64)
        ensures
            s == self.size,
    {
        self.size
    }
}

/// The size that a write handle records after its cursor moved to
/// `cursor`: it grows to the cursor (read as unsigned) when that lies beyond.
pub open spec fn grown_size(size: u64, cursor: i64) -> u64 {
    if (cursor as u64) > size { cursor as u64 } else { size }
}

/// The cursor and size of a handle that writes an output file selected by a
/// tag; the size is the furthest position written so far.
#[derive(Clone, Copy, Debug, PartialEq, Eq, Structural)]
pub struct WriteCursor {
    pub cursor: i64,
    pub size: u64,
    pub tag: i32,
}

impl WriteCursor {
    /// The audio output, tag 0.
    pub fn for_audio() -> (w: WriteCursor)
        ensures
            w == (WriteCursor { cursor: 0, size: 0, tag: 0 }),
    {
        WriteCursor::new(0)
    }

    /// The video output, tag 1.
    pub fn for_video() -> (w: WriteCursor)
        ensures
            w == (WriteCursor { cursor: 0, size: 0, tag: 1 }),
    {
        WriteCursor::new(1)
    }

    /// An empty output with the given tag.
    pub fn new(tag: i32) -> (w: WriteCursor)
        ensures
            w == (WriteCursor { cursor: 0, size: 0, tag }),
    {
        WriteCursor { cursor: 0, size: 0, tag }
    }

    /// Records that `buf_size` bytes were written at the cursor.
    pub fn record_write(&mut self, buf_size: i32)
        requires
            i64::MIN <= old(self).cursor + buf_size <= i64::MAX,
        ensures
            final(self).cursor == old(self).cursor + buf_size,
            final(self).size == grown_size(old(self).size, final(self).cursor),
            final(self).tag == old(self).tag,
    {
        self.cursor = self.cursor + buf_size as i64;
        let end: u64 = self.cursor as u64;
        if self.cursor as u64 > self.size {
            self.size = end;
        }
    }

    /// Moves the cursor and returns where it now stands; the size is kept.
    pub fn seek(&mut self, offset: SeekFrom) -> (pos: i64)
        requires
            seek_target(old(self).cursor, old(self).size, offset) is Some,
        ensures
            Some(pos) == seek_target(old(self).cursor, old(self).size, offset),
            final(self).cursor == pos,
            final(self).size == old(self).size,
            final(self).tag == old(self).tag,
    {
        match offset {
            SeekFrom::Start(i) => self.cursor = i as i64,
            SeekFrom::End(i) => self.cursor = self.size as i64 + i,
            SeekFrom::Current(i) => self.cursor = self.cursor + i,
        }
        self.cursor
    }

    /// The furthest position written so far.
    pub fn size(&self) -> (s: u64)
        ensures
            s == self.size,
    {
        self.size
    }
}

/// The source of tags for temporary outputs: each call hands out the next one.
#[derive(Clone, Copy, Debug, PartialEq, Eq, Structural)]
pub struct TmpTags {
    pub next: i32,
}

/// One hand-out of a temporary output: the tags move on by one, and the
/// output is a fresh cursor under the tag that was next.
pub open spec fn spec_new_tmp(t: TmpTags) -> (TmpTags, WriteCursor) {
    (TmpTags { next: (t.next + 1) as i32 }, WriteCursor { cursor: 0, size: 0, tag: t.next })
}

/// The tags after `k` hand-outs from fresh tags.
pub open spec fn tmp_tags_after(k: nat) -> TmpTags
    decreases k,
{
    if k == 0 {
        TmpTags { next: 0 }
    } else {
        spec_new_tmp(tmp_tags_after((k - 1) as nat)).0
    }
}

/// The output handed out by hand-out number `k` (counted from 0) from fresh tags.
pub open spec fn tmp_output_of_call(k: nat) -> WriteCursor {
    spec_new_tmp(tmp_tags_after(k)).1
}

impl TmpTags {
    /// Tags start at 0.
    pub fn new() -> (t: TmpTags)
        ensures
            t == tmp_tags_after(0),
            t.next == 0,
    {
        TmpTags { next: 0 }
    }

    /// The cursor of a fresh temporary output, with the next tag.
    pub fn new_tmp(&mut self) -> (w: WriteCursor)
        requires
            old(self).next < i32::MAX,
        ensures
            w == (WriteCursor { cursor: 0, size: 0, tag: old(self).next }),
            final(self).next == old(self).next + 1,
            (*final(self), w) == spec_new_tmp(*old(self)),
    {
        let w = WriteCursor::new(self.next);
        self.next = self.next + 1;
        w
    }
}

/// Temporary outputs count up from tag 0: hand-out number `k` from fresh tags
/// is an empty output with tag `k`, the next hand-out has the tag one
/// higher, and no two hand-outs share a tag.
pub proof fn lemma_tmp_tags_count_up(j: nat, k: nat)
    requires
        j < k,
        k < i32::MAX,
    ensures
        tmp_tags_after(k).next == k,
        tmp_output_of_call(k) == (WriteCursor { cursor: 0, size: 0, tag: k as i32 }),
        tmp_output_of_call(j).tag + 1 == tmp_output_of_call((j + 1) as nat).tag,
        tmp_output_of_call(j).tag != tmp_output_of_call(k).tag,
{
    lemma_tmp_tags_after(k);
    lemma_tmp_tags_after(j);
    lemma_tmp_tags_after((j + 1) as nat);
}

/// After `k` hand-outs from fresh tags the next tag is `k`.
proof fn lemma_tmp_tags_after(k: nat)
    requires
        k < i32::MAX,
    ensures
        tmp_tags_after(k).next == k,
    decreases k,
{
    if k > 0 {
        lemma_tmp_tags_after((k - 1) as nat);
    }
}

/// Asking where the cursor stands (`Current(0)`) does not move it.
pub proof fn lemma_tell_keeps_cursor(cursor: i64, size: u64)
    ensures
        seek_target(cursor, size, SeekFrom::Current(0)) == Some(cursor),
{
}

/// Seeking to an absolute position then asking where the cursor stands gives
/// that position back.
pub proof fn lemma_seek_start_then_tell(cursor: i64, size: u64, pos: u64)
    requires
        pos <= i64::MAX,
    ensures
        seek_target(cursor, size, SeekFrom::Start(pos)) == Some(pos as i64),
        seek_target(pos as i64, size, SeekFrom::Current(0)) == Some(pos as i64),
        pos as i64 == pos,
{
}

/// Two relative seeks land where one seek by their sum lands.
pub proof fn lemma_relative_seeks_compose(cursor: i64, size: u64, a: i64, b: i64)
    requires
        seek_target(cursor, size, SeekFrom::Current(a)) is Some,
        i64::MIN <= a + b <= i64::MAX,
    ensures
        seek_target(seek_target(cursor, size, SeekFrom::Current(a)).unwrap(), size, SeekFrom::Current(b))
            == seek_target(cursor, size, SeekFrom::Current((a + b) as i64)),
{
}

/// Seeking to the end with offset 0 lands on the size, where it fits `i64`.
pub proof fn lemma_seek_end_is_size(cursor: i64, size: u64)
    requires
        size <= i64::MAX,
    ensures
        seek_target(cursor, size, SeekFrom::End(0)) == Some(size as i64),
        size as i64 == size,
{
}

/// Where each seek lands, in whole numbers: an absolute position is taken
/// as a signed cursor (a position past `i64::MAX` wraps around 2^64); a seek
/// from the end adds the offset to the size, taken as signed the same way; a
/// seek from the cursor adds the offset to the cursor. A sum outside the
/// range of `i64` lands nowhere.
pub proof fn lemma_seek_target_lands(cursor: i64, size: u64, offset: SeekFrom)
    ensures
        offset matches SeekFrom::Start(p) ==> (seek_target(cursor, size, offset) matches Some(t) && t
            == (if p <= i64::MAX {
            p as int
        } else {
            p - 0x1_0000_0000_0000_0000
        })),
        offset matches SeekFrom::End(i) ==> ({
            let t: int = (if size <= i64::MAX {
                size as int
            } else {
                size - 0x1_0000_0000_0000_0000
            }) + i;
            if i64::MIN <= t <= i64::MAX {
                seek_target(cursor, size, offset) == Some(t as i64)
            } else {
                seek_target(cursor, size, offset) is None
            }
        }),
        offset matches SeekFrom::Current(i) ==> (if i64::MIN <= cursor + i <= i64::MAX {
            seek_target(cursor, size, offset) == Some((cursor + i) as i64)
        } else {
            seek_target(cursor, size, offset) is None
        }),
{
    lemma_u64_as_i64(size);
    if let SeekFrom::Start(p) = offset {
        lemma_u64_as_i64(p);
    }
}

/// The size that a write handle records is the larger of the size before
/// and the cursor read as unsigned.
pub proof fn lemma_grown_size_is_max(size: u64, cursor: i64)
    ensures
        ({
            let u: int = if cursor >= 0 {
                cursor as int
            } else {
                cursor + 0x1_0000_0000_0000_0000
            };
            &&& grown_size(size, cursor) >= size
            &&& grown_size(size, cursor) >= u
            &&& (grown_size(size, cursor) == size || grown_size(size, cursor) == u)
        }),
{
    lemma_i64_as_u64(cursor);
}

/// The recorded size of a write handle never shrinks, and after a write at a
/// non-negative cursor it covers the cursor.
pub proof fn lemma_write_size_grows(size: u64, cursor: i64)
    ensures
        grown_size(size, cursor) >= size,
        cursor >= 0 ==> grown_size(size, cursor) >= cursor,
{
}

} // verus!
