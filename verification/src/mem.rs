//! An in-memory stream kind: the crate's own implementation of the bridge's
//! capability traits, and the reference model for what a stream behind the
//! bridge does. It can be built forward-only, for exercising handles whose
//! seek probe fails.

use vstd::prelude::*;
use vstd::pervasive::VecAdditionalExecFns;
use crate::io::{AVRead, AVSeek, AVWrite, SeekFrom, avail_from, mem_read, mem_write};

verus! {

/// The bridge buffer size an in-memory stream prefers.
pub const DEFAULT_BUFFER_SIZE: usize = 4096;

/// A seekable stream over owned bytes. Reads and writes share one cursor;
/// a write past the end zero-fills the gap, as a sparse file would.
pub struct MemoryStream {
    data: Vec<u8>,
    pos: u64,
    seek_enabled: bool,
    size_enabled: bool,
}

impl MemoryStream {
    /// An empty stream that answers seeks and size reports.
    pub fn new() -> (r: MemoryStream)
        ensures
            r.data() == Seq::<u8>::empty(),
            r.stream_pos() == 0,
            r.seek_supported(),
            r.size_supported(),
    {
        MemoryStream { data: Vec::new(), pos: 0, seek_enabled: true, size_enabled: true }
    }

    /// A stream over `data`, positioned at the start, answering seeks and
    /// size reports.
    pub fn from_data(data: Vec<u8>) -> (r: MemoryStream)
        ensures
            r.data() == data@,
            r.stream_pos() == 0,
            r.seek_supported(),
            r.size_supported(),
    {
        MemoryStream { data, pos: 0, seek_enabled: true, size_enabled: true }
    }

    /// A stream over `data` that refuses seeks and size reports, as a
    /// forward-only source or sink would.
    pub fn forward_only(data: Vec<u8>) -> (r: MemoryStream)
        ensures
            r.data() == data@,
            r.stream_pos() == 0,
            !r.seek_supported(),
            !r.size_supported(),
    {
        MemoryStream { data, pos: 0, seek_enabled: false, size_enabled: false }
    }

    /// Take the stream's bytes back out.
    pub fn into_data(self) -> (r: Vec<u8>)
        ensures
            r@ == self.data(),
    {
        let MemoryStream { data, .. } = self;
        data
    }

    /// The cursor's absolute position.
    pub fn position(&self) -> (r: u64)
        ensures
            r as nat == self.stream_pos(),
    {
        self.pos
    }
}

impl AVSeek for MemoryStream {
    closed spec fn data(&self) -> Seq<u8> {
        self.data@
    }

    closed spec fn stream_pos(&self) -> nat {
        self.pos as nat
    }

    closed spec fn seek_supported(&self) -> bool {
        self.seek_enabled
    }

    closed spec fn size_supported(&self) -> bool {
        self.size_enabled
    }

    fn seek(&mut self, pos: SeekFrom) -> (r: Option<u64>) {
        if !self.seek_enabled {
            return None;
        }
        let target: i128 = match pos {
            SeekFrom::Start(o) => o as i128,
            SeekFrom::Current(d) => self.pos as i128 + d as i128,
            SeekFrom::End(d) => self.data.len() as i128 + d as i128,
        };
        if 0 <= target && target <= u64::MAX as i128 {
            self.pos = target as u64;
            Some(self.pos)
        } else {
            None
        }
    }

    fn size(&self) -> (r: Option<u64>) {
        if self.size_enabled {
            Some(self.data.len() as u64)
        } else {
            None
        }
    }
}

impl AVRead for MemoryStream {
    open spec fn spec_buffer_size() -> usize {
        DEFAULT_BUFFER_SIZE
    }

    fn read_packet(&mut self, buf: &mut Vec<u8>) -> (r: Option<usize>) {
        let len_u64 = self.data.len() as u64;
        let avail: u64 = if self.pos <= len_u64 {
            len_u64 - self.pos
        } else {
            0
        };
        let want = buf.len();
        let n: usize = if (want as u64) <= avail {
            want
        } else {
            avail as usize
        };
        if n == 0 {
            proof {
                assert(buf@.subrange(0, 0int)
                    =~= mem_read(old(self).data(), old(self).stream_pos(), 0nat));
                assert(buf@.skip(0int) =~= old(buf)@.skip(0int));
            }
            return Some(0);
        }
        proof {
            assert(self.pos < self.data@.len());
            assert(self.data@.len() <= usize::MAX);
        }
        let start = self.pos as usize;
        let mut i: usize = 0;
        while i < n
            invariant
                i <= n,
                1 <= n <= avail_from(self.data@, self.pos as nat),
                n <= buf.len(),
                start + n <= usize::MAX,
                self.data@.len() <= usize::MAX,
                start == self.pos as nat,
                self.pos as nat + n <= self.data@.len(),
                buf.len() == old(buf).len(),
                self.data@ == old(self).data(),
                self.pos == old(self).pos,
                self.seek_enabled == old(self).seek_enabled,
                self.size_enabled == old(self).size_enabled,
                forall|j: int| 0 <= j < i ==> buf@[j] == self.data@[start + j],
                forall|j: int| i <= j < buf.len() ==> buf@[j] == old(buf)@[j],
            decreases n - i,
        {
            let b = self.data[start + i];
            buf.set(i, b);
            i = i + 1;
        }
        self.pos = self.pos + n as u64;
        proof {
            assert(buf@.subrange(0, n as int)
                =~= mem_read(old(self).data(), old(self).stream_pos(), n as nat));
            assert(buf@.skip(n as int) =~= old(buf)@.skip(n as int));
        }
        Some(n)
    }

    fn buffer_size() -> (r: usize) {
        DEFAULT_BUFFER_SIZE
    }
}

impl AVWrite for MemoryStream {
    open spec fn spec_buffer_size() -> usize {
        DEFAULT_BUFFER_SIZE
    }

    fn write_packet(&mut self, buf: &[u8]) -> (r: Option<usize>) {
        let n = buf.len();
        if n == 0 {
            return Some(0);
        }
        if self.pos > (usize::MAX - n) as u64 {
            return None;
        }
        let start = self.pos as usize;
        while self.data.len() < start
            invariant
                start == old(self).pos as nat,
                self.pos == old(self).pos,
                self.seek_enabled == old(self).seek_enabled,
                self.size_enabled == old(self).size_enabled,
                old(self).data@.len() <= self.data@.len() <= start
                    || self.data@ == old(self).data@,
                self.data@.len() >= old(self).data@.len(),
                forall|j: int| 0 <= j < old(self).data@.len() ==> self.data@[j] == old(self).data@[j],
                forall|j: int| old(self).data@.len() <= j < self.data@.len() ==> self.data@[j] == 0u8,
            decreases start - self.data.len(),
        {
            self.data.push(0u8);
        }
        let ghost padded = self.data@;
        let mut i: usize = 0;
        while i < n
            invariant
                i <= n,
                n == buf@.len(),
                start + n <= usize::MAX,
                start == old(self).pos as nat,
                self.pos == old(self).pos,
                self.seek_enabled == old(self).seek_enabled,
                self.size_enabled == old(self).size_enabled,
                padded.len() >= start,
                self.data@.len() == if padded.len() >= start + i { padded.len() as int } else { start + i },
                forall|j: int| 0 <= j < start ==> self.data@[j] == padded[j],
                forall|j: int| start <= j < start + i ==> self.data@[j] == buf@[j - start],
                forall|j: int| start + i <= j < self.data@.len() ==> self.data@[j] == padded[j],
            decreases n - i,
        {
            if start + i < self.data.len() {
                self.data.set(start + i, buf[i]);
            } else {
                self.data.push(buf[i]);
            }
            i = i + 1;
        }
        self.pos = self.pos + n as u64;
        proof {
            assert(buf@.subrange(0, n as int) =~= buf@);
            let target = mem_write(old(self).data(), old(self).stream_pos(), buf@);
            assert(self.data@.len() == target.len());
            assert forall|j: int| 0 <= j < self.data@.len() implies self.data@[j] == target[j] by {
                if start <= j && j < start + n {
                    assert(self.data@[j] == buf@[j - start]);
                } else if j < start {
                    assert(self.data@[j] == padded[j]);
                } else {
                    assert(self.data@[j] == padded[j]);
                }
            }
            assert(self.data@ =~= target);
        }
        Some(n)
    }

    fn buffer_size() -> (r: usize) {
        DEFAULT_BUFFER_SIZE
    }
}

} // verus!
