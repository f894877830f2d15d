//! The I/O bridge: a caller-supplied seekable reader or writer behind the
//! backend's callback protocol.
//!
//! The backend drives a stream through three callback slots — read, write,
//! seek — and learns of any failure or end-of-stream only through a single
//! reserved negative sentinel value. The seek slot is overloaded: one
//! distinguished request code asks for the total stream size instead of a
//! repositioning. This module states that protocol exactly and proves the
//! bridge against it.

use vstd::prelude::*;

verus! {

/// The reserved value reported through the read and write slots for a
/// failure or end-of-stream.
pub const SENTINEL: i32 = -1;

/// The reserved value reported through the seek slot for a failure.
pub const SENTINEL_SEEK: i64 = -1;

/// Repositioning request: absolute from the start.
pub const SEEK_SET: i32 = 0;

/// Repositioning request: relative to the current position.
pub const SEEK_CUR: i32 = 1;

/// Repositioning request: relative to the end.
pub const SEEK_END: i32 = 2;

/// The distinguished request multiplexed through the seek slot that asks
/// for the total stream size.
pub const AVSEEK_SIZE: i32 = 0x10000;

/// A repositioning target, as a stream sees it.
#[derive(Copy, Clone, PartialEq, Eq, Structural, Debug)]
pub enum SeekFrom {
    /// Absolute offset from the start.
    Start(u64),
    /// Signed offset from the current position.
    Current(i64),
    /// Signed offset from the end.
    End(i64),
}

/// The absolute position a repositioning request resolves to, or `None`
/// when the target falls before the start or past what a position can
/// represent.
pub open spec fn resolve_seek(len: int, pos: int, from: SeekFrom) -> Option<int> {
    let target = match from {
        SeekFrom::Start(o) => o as int,
        SeekFrom::Current(d) => pos + d as int,
        SeekFrom::End(d) => len + d as int,
    };
    if 0 <= target && target <= u64::MAX as int {
        Some(target)
    } else {
        None
    }
}

/// How many bytes remain readable at `pos` in a stream of `data`.
pub open spec fn avail_from(data: Seq<u8>, pos: nat) -> nat {
    if pos <= data.len() {
        (data.len() - pos) as nat
    } else {
        0
    }
}

/// The bytes a read of at most `n` bytes at `pos` yields: the stream's
/// bytes from `pos` up to its end, clipped to `n`.
pub open spec fn mem_read(data: Seq<u8>, pos: nat, n: nat) -> Seq<u8> {
    let start = if pos <= data.len() { pos } else { data.len() };
    let end = if pos + n <= data.len() { pos + n } else { data.len() };
    data.subrange(start as int, end as int)
}

/// The stream contents after writing `bytes` at `pos`: bytes before `pos`
/// are kept, a gap between the old end and `pos` is zero-filled, and the
/// stream grows if the write runs past its old end.
pub open spec fn mem_write(data: Seq<u8>, pos: nat, bytes: Seq<u8>) -> Seq<u8> {
    if bytes.len() == 0 {
        data
    } else {
        let new_len = if data.len() >= pos + bytes.len() { data.len() } else { pos + bytes.len() };
        Seq::new(new_len, |i: int|
            if pos <= i && i < pos + bytes.len() {
                bytes[i - pos]
            } else if i < data.len() {
                data[i]
            } else {
                0u8
            }
        )
    }
}

/// What a caller's stream object must support to sit behind the bridge:
/// repositioning, and optionally a size report. The four spec functions
/// are the stream's model: its bytes, its position, and whether the two
/// operations are answered at all.
///
/// The capability traits carry these specification members, so stream
/// kinds implementing them live inside this crate, beside `MemoryStream`;
/// an outside stream is adapted at the value level instead.
pub trait AVSeek: Sized + Send + 'static {
    /// The bytes the stream stands over.
    spec fn data(&self) -> Seq<u8>;

    /// The current absolute position.
    spec fn stream_pos(&self) -> nat;

    /// Whether repositioning requests are answered.
    spec fn seek_supported(&self) -> bool;

    /// Whether the size report is answered.
    spec fn size_supported(&self) -> bool;

    /// Reposition to `pos`. Returns the new absolute position, or `None`
    /// when the stream does not seek or the target is unrepresentable.
    fn seek(&mut self, pos: SeekFrom) -> (r: Option<u64>)
        ensures
            final(self).data() == old(self).data(),
            final(self).seek_supported() == old(self).seek_supported(),
            final(self).size_supported() == old(self).size_supported(),
            match resolve_seek(old(self).data().len() as int, old(self).stream_pos() as int, pos) {
                Some(t) => if old(self).seek_supported() {
                    r == Some(t as u64) && final(self).stream_pos() == t as nat
                } else {
                    r is None && final(self).stream_pos() == old(self).stream_pos()
                },
                None => r is None && final(self).stream_pos() == old(self).stream_pos(),
            },
    ;

    /// The total number of bytes, where the stream reports it.
    fn size(&self) -> (r: Option<u64>)
        ensures
            self.size_supported() ==> (r matches Some(n) && n as nat == self.data().len()),
            !self.size_supported() ==> r is None,
    ;
}

/// A stream object usable as a custom input source.
pub trait AVRead: AVSeek {
    /// Fill `buf` from the current position and return the number of bytes
    /// read. `None` or `Some(0)` indicates end-of-stream; a successful read
    /// may be shorter than `buf` but returns zero only at end-of-stream.
    fn read_packet(&mut self, buf: &mut Vec<u8>) -> (r: Option<usize>)
        ensures
            final(self).data() == old(self).data(),
            final(self).seek_supported() == old(self).seek_supported(),
            final(self).size_supported() == old(self).size_supported(),
            final(buf).len() == old(buf).len(),
            match r {
                Some(n) => {
                    &&& n <= old(buf).len()
                    &&& n <= avail_from(old(self).data(), old(self).stream_pos())
                    &&& final(self).stream_pos() == old(self).stream_pos() + n
                    &&& final(buf)@.subrange(0, n as int)
                        == mem_read(old(self).data(), old(self).stream_pos(), n as nat)
                    &&& final(buf)@.skip(n as int) == old(buf)@.skip(n as int)
                    &&& (n == 0 ==> old(buf).len() == 0
                        || avail_from(old(self).data(), old(self).stream_pos()) == 0)
                },
                None => {
                    &&& final(self).stream_pos() == old(self).stream_pos()
                    &&& final(buf)@ == old(buf)@
                },
            },
    ;

    /// The bridge buffer size this stream kind declares.
    spec fn spec_buffer_size() -> usize;

    /// The bridge buffer size this stream kind prefers. For protocols with
    /// a fixed block size it should equal that block size.
    fn buffer_size() -> (r: usize)
        ensures
            r == Self::spec_buffer_size(),
            1 <= r <= i32::MAX as usize,
    ;
}

/// A stream object usable as a custom output sink.
pub trait AVWrite: AVSeek {
    /// Write `buf` at the current position and return the number of bytes
    /// written. `None` or `Some(0)` indicates failure; a successful write
    /// may be shorter than `buf` but returns zero only for an empty `buf`.
    fn write_packet(&mut self, buf: &[u8]) -> (r: Option<usize>)
        ensures
            final(self).seek_supported() == old(self).seek_supported(),
            final(self).size_supported() == old(self).size_supported(),
            match r {
                Some(n) => {
                    &&& n <= buf@.len()
                    &&& final(self).data() == mem_write(
                        old(self).data(), old(self).stream_pos(), buf@.subrange(0, n as int))
                    &&& final(self).stream_pos() == old(self).stream_pos() + n
                    &&& (n == 0 ==> buf@.len() == 0)
                },
                None => {
                    &&& final(self).data() == old(self).data()
                    &&& final(self).stream_pos() == old(self).stream_pos()
                },
            },
    ;

    /// The bridge buffer size this stream kind declares.
    spec fn spec_buffer_size() -> usize;

    /// The bridge buffer size this stream kind prefers.
    fn buffer_size() -> (r: usize)
        ensures
            r == Self::spec_buffer_size(),
            1 <= r <= i32::MAX as usize,
    ;
}

/// A non-negative count, or `None` where the count does not fit the seek
/// slot's signed return value.
pub fn u64_into_i64(n: u64) -> (r: Option<i64>)
    ensures
        r == if n <= i64::MAX as u64 { Some(n as i64) } else { None::<i64> },
{
    if n <= i64::MAX as u64 {
        Some(n as i64)
    } else {
        None
    }
}

/// A non-negative offset taken out of the seek slot's signed argument, or
/// `None` for a negative one.
pub fn i64_into_u64(n: i64) -> (r: Option<u64>)
    ensures
        r == if n >= 0 { Some(n as u64) } else { None::<u64> },
{
    if n >= 0 {
        Some(n as u64)
    } else {
        None
    }
}

/// What one invocation of the seek slot asks for.
#[derive(Copy, Clone, PartialEq, Eq, Structural, Debug)]
pub enum SeekRequest {
    /// Reposition the stream.
    Position(SeekFrom),
    /// Report the total stream size.
    Size,
    /// A request the protocol does not know: a negative absolute offset or
    /// an unknown request code. Answered by the sentinel, the stream
    /// untouched.
    Unsupported,
}

/// How the seek slot's raw `(offset, whence)` pair decodes: the size
/// request code wins first, then the three repositioning kinds; an absolute
/// request with a negative offset, or an unknown code, is unsupported.
pub open spec fn spec_decode_seek_request(offset: i64, whence: i32) -> SeekRequest {
    if whence == AVSEEK_SIZE {
        SeekRequest::Size
    } else if whence == SEEK_SET {
        if offset >= 0 {
            SeekRequest::Position(SeekFrom::Start(offset as u64))
        } else {
            SeekRequest::Unsupported
        }
    } else if whence == SEEK_CUR {
        SeekRequest::Position(SeekFrom::Current(offset))
    } else if whence == SEEK_END {
        SeekRequest::Position(SeekFrom::End(offset))
    } else {
        SeekRequest::Unsupported
    }
}

/// Decode one invocation of the seek slot.
pub fn decode_seek_request(offset: i64, whence: i32) -> (r: SeekRequest)
    ensures
        r == spec_decode_seek_request(offset, whence),
{
    if whence == AVSEEK_SIZE {
        SeekRequest::Size
    } else if whence == SEEK_SET {
        match i64_into_u64(offset) {
            Some(o) => SeekRequest::Position(SeekFrom::Start(o)),
            None => SeekRequest::Unsupported,
        }
    } else if whence == SEEK_CUR {
        SeekRequest::Position(SeekFrom::Current(offset))
    } else if whence == SEEK_END {
        SeekRequest::Position(SeekFrom::End(offset))
    } else {
        SeekRequest::Unsupported
    }
}

/// What the seek slot reports, and where the stream stands afterwards, for
/// a stream modelled by `(data, pos, seek_ok, size_ok)`.
///
/// A size request reports the length where the stream answers it and the
/// length fits the slot's signed value; it never moves the stream. A
/// repositioning that the stream answers moves it and reports the new
/// position — or the sentinel when that position does not fit the slot,
/// though the stream has moved. Everything else reports the sentinel and
/// leaves the stream in place.
pub open spec fn spec_bridge_seek(
    data: Seq<u8>,
    pos: nat,
    seek_ok: bool,
    size_ok: bool,
    offset: i64,
    whence: i32,
) -> (i64, nat) {
    match spec_decode_seek_request(offset, whence) {
        SeekRequest::Size => {
            if size_ok && data.len() <= i64::MAX as nat {
                (data.len() as i64, pos)
            } else {
                (SENTINEL_SEEK, pos)
            }
        },
        SeekRequest::Position(from) => {
            match resolve_seek(data.len() as int, pos as int, from) {
                Some(t) => if seek_ok {
                    if t <= i64::MAX as int {
                        (t as i64, t as nat)
                    } else {
                        (SENTINEL_SEEK, t as nat)
                    }
                } else {
                    (SENTINEL_SEEK, pos)
                },
                None => (SENTINEL_SEEK, pos),
            }
        },
        SeekRequest::Unsupported => (SENTINEL_SEEK, pos),
    }
}

/// The seek callback's work: decode the request, forward it to the stream,
/// and report the outcome in the protocol's terms.
pub fn bridge_seek<S: AVSeek>(stream: &mut S, offset: i64, whence: i32) -> (r: i64)
    ensures
        final(stream).data() == old(stream).data(),
        final(stream).seek_supported() == old(stream).seek_supported(),
        final(stream).size_supported() == old(stream).size_supported(),
        ({
            let (reported, new_pos) = spec_bridge_seek(
                old(stream).data(), old(stream).stream_pos(),
                old(stream).seek_supported(), old(stream).size_supported(),
                offset, whence);
            r == reported && final(stream).stream_pos() == new_pos
        }),
{
    match decode_seek_request(offset, whence) {
        SeekRequest::Size => {
            match stream.size() {
                Some(n) => match u64_into_i64(n) {
                    Some(v) => v,
                    None => SENTINEL_SEEK,
                },
                None => SENTINEL_SEEK,
            }
        },
        SeekRequest::Position(from) => {
            match stream.seek(from) {
                Some(p) => match u64_into_i64(p) {
                    Some(v) => v,
                    None => SENTINEL_SEEK,
                },
                None => SENTINEL_SEEK,
            }
        },
        SeekRequest::Unsupported => SENTINEL_SEEK,
    }
}

/// The read callback's work: ask the stream to fill the backend's buffer
/// and report the byte count, or the sentinel for `None` or an empty read —
/// the protocol's end-of-stream.
pub fn bridge_read_packet<R: AVRead>(stream: &mut R, buf: &mut Vec<u8>) -> (r: i32)
    requires
        old(buf).len() <= i32::MAX as usize,
    ensures
        final(stream).data() == old(stream).data(),
        final(stream).seek_supported() == old(stream).seek_supported(),
        final(stream).size_supported() == old(stream).size_supported(),
        final(buf).len() == old(buf).len(),
        r == SENTINEL || (1 <= r && r as nat <= avail_from(old(stream).data(), old(stream).stream_pos())
            && r as int <= old(buf).len()
            && final(stream).stream_pos() == old(stream).stream_pos() + r as nat
            && final(buf)@.subrange(0, r as int)
                == mem_read(old(stream).data(), old(stream).stream_pos(), r as nat)
            && final(buf)@.skip(r as int) == old(buf)@.skip(r as int)),
        r == SENTINEL ==> final(stream).stream_pos() == old(stream).stream_pos()
            && final(buf)@ == old(buf)@,
        avail_from(old(stream).data(), old(stream).stream_pos()) == 0 ==> r == SENTINEL,
{
    match stream.read_packet(buf) {
        Some(n) => {
            if n == 0 {
                proof {
                    assert(buf@ =~= buf@.skip(0));
                    assert(old(buf)@ =~= old(buf)@.skip(0));
                }
                SENTINEL
            } else {
                n as i32
            }
        },
        None => SENTINEL,
    }
}

/// The write callback's work: hand the backend's buffer to the stream and
/// report the byte count written, or the sentinel for `None` or an empty
/// write — the protocol's write failure.
pub fn bridge_write_packet<W: AVWrite>(stream: &mut W, buf: &[u8]) -> (r: i32)
    requires
        buf@.len() <= i32::MAX as usize,
    ensures
        final(stream).seek_supported() == old(stream).seek_supported(),
        final(stream).size_supported() == old(stream).size_supported(),
        r == SENTINEL || (1 <= r && r as int <= buf@.len()
            && final(stream).data() == mem_write(
                old(stream).data(), old(stream).stream_pos(), buf@.subrange(0, r as int))
            && final(stream).stream_pos() == old(stream).stream_pos() + r as nat),
        r == SENTINEL ==> final(stream).data() == old(stream).data()
            && final(stream).stream_pos() == old(stream).stream_pos(),
        buf@.len() == 0 ==> r == SENTINEL,
{
    match stream.write_packet(buf) {
        Some(n) => {
            if n == 0 {
                SENTINEL
            } else {
                n as i32
            }
        },
        None => SENTINEL,
    }
}

/// Whether the seek probe made at bridge construction succeeds: a
/// stay-in-place relative seek, which goes through iff the stream answers
/// seeks at all and its position is representable.
pub open spec fn probe_installs_seek(pos: nat, seek_ok: bool) -> bool {
    seek_ok && pos <= u64::MAX as nat
}

/// What the seek slot of a wired handle answers: an uninstalled slot
/// answers the sentinel and touches nothing; an installed one answers as
/// `spec_bridge_seek` says.
pub open spec fn spec_handle_seek(
    installed: bool,
    data: Seq<u8>,
    pos: nat,
    seek_ok: bool,
    size_ok: bool,
    offset: i64,
    whence: i32,
) -> (i64, nat) {
    if installed {
        spec_bridge_seek(data, pos, seek_ok, size_ok, offset, whence)
    } else {
        (SENTINEL_SEEK, pos)
    }
}

/// One wired bridge handle: the stream object it owns, the exchange buffer,
/// and a record of which of the three callback slots are installed. The
/// handle owns both exclusively; giving it up (`close`) hands the stream
/// back and releases everything else, so neither can be reclaimed twice and
/// no callback outlives the handle.
pub struct IOContext<S: AVSeek> {
    stream: S,
    buffer: Vec<u8>,
    read_installed: bool,
    write_installed: bool,
    seek_installed: bool,
}

impl<S: AVSeek> IOContext<S> {
    /// The owned stream's bytes.
    pub closed spec fn spec_data(&self) -> Seq<u8> {
        self.stream.data()
    }

    /// The owned stream's position.
    pub closed spec fn spec_pos(&self) -> nat {
        self.stream.stream_pos()
    }

    /// Whether the owned stream answers seeks.
    pub closed spec fn spec_seek_supported(&self) -> bool {
        self.stream.seek_supported()
    }

    /// Whether the owned stream answers the size report.
    pub closed spec fn spec_size_supported(&self) -> bool {
        self.stream.size_supported()
    }

    /// Whether the read slot is installed.
    pub closed spec fn spec_read_installed(&self) -> bool {
        self.read_installed
    }

    /// Whether the write slot is installed.
    pub closed spec fn spec_write_installed(&self) -> bool {
        self.write_installed
    }

    /// Whether the seek slot is installed.
    pub closed spec fn spec_seek_installed(&self) -> bool {
        self.seek_installed
    }

    /// The exchange buffer's size.
    pub closed spec fn spec_buffer_len(&self) -> nat {
        self.buffer.len() as nat
    }

    /// Whether the seek slot is installed on this handle.
    pub fn seek_installed(&self) -> (r: bool)
        ensures
            r == self.spec_seek_installed(),
    {
        self.seek_installed
    }

    /// Whether the read slot is installed on this handle.
    pub fn read_installed(&self) -> (r: bool)
        ensures
            r == self.spec_read_installed(),
    {
        self.read_installed
    }

    /// Whether the write slot is installed on this handle.
    pub fn write_installed(&self) -> (r: bool)
        ensures
            r == self.spec_write_installed(),
    {
        self.write_installed
    }

    /// The exchange buffer's size.
    pub fn buffer_len(&self) -> (r: usize)
        ensures
            r as nat == self.spec_buffer_len(),
    {
        self.buffer.len()
    }

    /// The backend invoking this handle's seek slot. An uninstalled slot
    /// answers the sentinel and touches nothing; an installed one forwards
    /// to the stream as `spec_bridge_seek` says.
    pub fn call_seek(&mut self, offset: i64, whence: i32) -> (r: i64)
        ensures
            final(self).spec_data() == old(self).spec_data(),
            final(self).spec_seek_supported() == old(self).spec_seek_supported(),
            final(self).spec_size_supported() == old(self).spec_size_supported(),
            final(self).spec_read_installed() == old(self).spec_read_installed(),
            final(self).spec_write_installed() == old(self).spec_write_installed(),
            final(self).spec_seek_installed() == old(self).spec_seek_installed(),
            final(self).spec_buffer_len() == old(self).spec_buffer_len(),
            ({
                let (reported, new_pos) = spec_handle_seek(
                    old(self).spec_seek_installed(),
                    old(self).spec_data(), old(self).spec_pos(),
                    old(self).spec_seek_supported(), old(self).spec_size_supported(),
                    offset, whence);
                r == reported && final(self).spec_pos() == new_pos
            }),
    {
        if self.seek_installed {
            bridge_seek(&mut self.stream, offset, whence)
        } else {
            SENTINEL_SEEK
        }
    }

    /// Close the bridge and hand the owned stream back. The handle is
    /// consumed: the callback slots and the backend-visible handle go out
    /// with it, the buffer is released, and the stream object changes hands
    /// exactly once — afterwards no callback can reach it through this
    /// bridge again.
    pub fn close(self) -> (r: S)
        ensures
            r.data() == self.spec_data(),
            r.stream_pos() == self.spec_pos(),
            r.seek_supported() == self.spec_seek_supported(),
            r.size_supported() == self.spec_size_supported(),
    {
        let IOContext { stream, .. } = self;
        stream
    }
}

impl<R: AVRead> IOContext<R> {
    /// Wire a reader behind the backend's protocol: allocate the exchange
    /// buffer at the stream kind's preferred size, probe seek support with
    /// a stay-in-place seek, and install the read slot — never the write
    /// slot — plus the seek slot only where the probe succeeded. The probe
    /// leaves the stream where it stood.
    pub fn from_reader(input: R) -> (r: IOContext<R>)
        ensures
            r.spec_data() == input.data(),
            r.spec_pos() == input.stream_pos(),
            r.spec_seek_supported() == input.seek_supported(),
            r.spec_size_supported() == input.size_supported(),
            r.spec_read_installed(),
            !r.spec_write_installed(),
            r.spec_seek_installed() == probe_installs_seek(input.stream_pos(), input.seek_supported()),
            r.spec_buffer_len() == R::spec_buffer_size() as nat,
            1 <= r.spec_buffer_len() <= i32::MAX as nat,
    {
        let mut input = input;
        let probe = input.seek(SeekFrom::Current(0));
        let n = R::buffer_size();
        let buffer: Vec<u8> = vec![0u8; n];
        IOContext {
            stream: input,
            buffer,
            read_installed: true,
            write_installed: false,
            seek_installed: probe.is_some(),
        }
    }

    /// The backend invoking this handle's read slot: an uninstalled slot
    /// answers the sentinel; an installed one forwards to the stream's
    /// packet read and reports the protocol's terms.
    pub fn call_read(&mut self, buf: &mut Vec<u8>) -> (r: i32)
        requires
            old(buf).len() <= i32::MAX as usize,
        ensures
            final(self).spec_data() == old(self).spec_data(),
            final(self).spec_seek_supported() == old(self).spec_seek_supported(),
            final(self).spec_size_supported() == old(self).spec_size_supported(),
            final(self).spec_read_installed() == old(self).spec_read_installed(),
            final(self).spec_write_installed() == old(self).spec_write_installed(),
            final(self).spec_seek_installed() == old(self).spec_seek_installed(),
            final(self).spec_buffer_len() == old(self).spec_buffer_len(),
            final(buf).len() == old(buf).len(),
            !old(self).spec_read_installed() ==> r == SENTINEL
                && final(self).spec_pos() == old(self).spec_pos()
                && final(buf)@ == old(buf)@,
            old(self).spec_read_installed() ==> {
                &&& r == SENTINEL || (1 <= r
                    && r as nat <= avail_from(old(self).spec_data(), old(self).spec_pos())
                    && r as int <= old(buf).len()
                    && final(self).spec_pos() == old(self).spec_pos() + r as nat
                    && final(buf)@.subrange(0, r as int)
                        == mem_read(old(self).spec_data(), old(self).spec_pos(), r as nat)
                    && final(buf)@.skip(r as int) == old(buf)@.skip(r as int))
                &&& (r == SENTINEL ==> final(self).spec_pos() == old(self).spec_pos()
                    && final(buf)@ == old(buf)@)
                &&& (avail_from(old(self).spec_data(), old(self).spec_pos()) == 0 ==> r == SENTINEL)
            },
    {
        if self.read_installed {
            bridge_read_packet(&mut self.stream, buf)
        } else {
            SENTINEL
        }
    }
}

impl<W: AVWrite> IOContext<W> {
    /// Wire a writer behind the backend's protocol: symmetric to
    /// `from_reader`, installing the write slot and never the read slot.
    /// The seek probe is the same stay-in-place seek.
    pub fn from_writer(output: W) -> (r: IOContext<W>)
        ensures
            r.spec_data() == output.data(),
            r.spec_pos() == output.stream_pos(),
            r.spec_seek_supported() == output.seek_supported(),
            r.spec_size_supported() == output.size_supported(),
            !r.spec_read_installed(),
            r.spec_write_installed(),
            r.spec_seek_installed() == probe_installs_seek(output.stream_pos(), output.seek_supported()),
            r.spec_buffer_len() == W::spec_buffer_size() as nat,
            1 <= r.spec_buffer_len() <= i32::MAX as nat,
    {
        let mut output = output;
        let probe = output.seek(SeekFrom::Current(0));
        let n = W::buffer_size();
        let buffer: Vec<u8> = vec![0u8; n];
        IOContext {
            stream: output,
            buffer,
            read_installed: false,
            write_installed: true,
            seek_installed: probe.is_some(),
        }
    }

    /// The backend invoking this handle's write slot: an uninstalled slot
    /// answers the sentinel; an installed one forwards to the stream's
    /// packet write and reports the protocol's terms.
    pub fn call_write(&mut self, buf: &[u8]) -> (r: i32)
        requires
            buf@.len() <= i32::MAX as usize,
        ensures
            final(self).spec_seek_supported() == old(self).spec_seek_supported(),
            final(self).spec_size_supported() == old(self).spec_size_supported(),
            final(self).spec_read_installed() == old(self).spec_read_installed(),
            final(self).spec_write_installed() == old(self).spec_write_installed(),
            final(self).spec_seek_installed() == old(self).spec_seek_installed(),
            final(self).spec_buffer_len() == old(self).spec_buffer_len(),
            !old(self).spec_write_installed() ==> r == SENTINEL
                && final(self).spec_data() == old(self).spec_data()
                && final(self).spec_pos() == old(self).spec_pos(),
            old(self).spec_write_installed() ==> {
                &&& r == SENTINEL || (1 <= r && r as int <= buf@.len()
                    && final(self).spec_data() == mem_write(
                        old(self).spec_data(), old(self).spec_pos(), buf@.subrange(0, r as int))
                    && final(self).spec_pos() == old(self).spec_pos() + r as nat)
                &&& (r == SENTINEL ==> final(self).spec_data() == old(self).spec_data()
                    && final(self).spec_pos() == old(self).spec_pos())
                &&& (buf@.len() == 0 ==> r == SENTINEL)
            },
    {
        if self.write_installed {
            bridge_write_packet(&mut self.stream, buf)
        } else {
            SENTINEL
        }
    }
}

/// Bytes written at a position are the bytes a later read at that position
/// yields: over any prior contents, writing `bytes` at `pos` and reading
/// `bytes.len()` bytes back from `pos` returns `bytes`, in order.
pub proof fn lemma_write_read_round_trip(data: Seq<u8>, pos: nat, bytes: Seq<u8>)
    ensures
        mem_read(mem_write(data, pos, bytes), pos, bytes.len()) == bytes,
{
    if bytes.len() == 0 {
        assert(mem_read(mem_write(data, pos, bytes), pos, bytes.len()) =~= bytes);
    } else {
        assert(mem_read(mem_write(data, pos, bytes), pos, bytes.len()) =~= bytes);
    }
}

/// Back-to-back writes concatenate: writing `a` at `pos` and then `b`
/// right behind it is one write of `a + b` at `pos`. With the round-trip
/// law this lifts one write to any run of chunked writes.
pub proof fn lemma_sequential_writes_concatenate(data: Seq<u8>, pos: nat, a: Seq<u8>, b: Seq<u8>)
    ensures
        mem_write(mem_write(data, pos, a), pos + a.len(), b) == mem_write(data, pos, a + b),
{
    if a.len() == 0 {
        assert(a + b =~= b);
    } else if b.len() == 0 {
        assert(a + b =~= a);
    } else {
        let lhs = mem_write(mem_write(data, pos, a), pos + a.len(), b);
        let rhs = mem_write(data, pos, a + b);
        assert(lhs.len() == rhs.len());
        assert forall|i: int| 0 <= i < lhs.len() implies lhs[i] == rhs[i] by {
            if pos <= i && i < pos + a.len() {
                assert((a + b)[i - pos] == a[i - pos]);
            } else if pos + a.len() <= i && i < pos + a.len() + b.len() {
                assert((a + b)[i - pos] == b[i - pos - a.len()]);
            }
        }
        assert(lhs =~= rhs);
    }
}

/// Back-to-back reads concatenate: reading `m` bytes at `pos` and then `n`
/// bytes right behind them yields what one read of `m + n` bytes at `pos`
/// yields, as long as the first read was not cut short by the end.
pub proof fn lemma_sequential_reads_concatenate(data: Seq<u8>, pos: nat, m: nat, n: nat)
    requires
        pos + m <= data.len(),
    ensures
        mem_read(data, pos, m) + mem_read(data, pos + m, n) == mem_read(data, pos, m + n),
{
    assert(mem_read(data, pos, m) + mem_read(data, pos + m, n) =~= mem_read(data, pos, m + n));
}

/// The concatenation of a run of chunks.
pub open spec fn concat_chunks(chunks: Seq<Seq<u8>>) -> Seq<u8>
    decreases chunks.len(),
{
    if chunks.len() == 0 {
        Seq::<u8>::empty()
    } else {
        chunks[0] + concat_chunks(chunks.skip(1))
    }
}

/// The stream contents after a run of writes, each chunk laid down right
/// behind the one before, starting at `pos`.
pub open spec fn write_chunks(data: Seq<u8>, pos: nat, chunks: Seq<Seq<u8>>) -> Seq<u8>
    decreases chunks.len(),
{
    if chunks.len() == 0 {
        data
    } else {
        write_chunks(mem_write(data, pos, chunks[0]), pos + chunks[0].len(), chunks.skip(1))
    }
}

/// The total of a run of read lengths.
pub open spec fn total_len(lens: Seq<nat>) -> nat
    decreases lens.len(),
{
    if lens.len() == 0 {
        0
    } else {
        lens[0] + total_len(lens.skip(1))
    }
}

/// The bytes a run of reads yields, each read picking up where the one
/// before ended, starting at `pos`.
pub open spec fn read_chunks(data: Seq<u8>, pos: nat, lens: Seq<nat>) -> Seq<u8>
    decreases lens.len(),
{
    if lens.len() == 0 {
        Seq::<u8>::empty()
    } else {
        mem_read(data, pos, lens[0]) + read_chunks(data, pos + lens[0], lens.skip(1))
    }
}

/// A run of back-to-back writes is one write of the concatenation.
pub proof fn lemma_write_chunks_is_one_write(data: Seq<u8>, pos: nat, chunks: Seq<Seq<u8>>)
    ensures
        write_chunks(data, pos, chunks) == mem_write(data, pos, concat_chunks(chunks)),
    decreases chunks.len(),
{
    if chunks.len() == 0 {
    } else {
        lemma_write_chunks_is_one_write(
            mem_write(data, pos, chunks[0]),
            pos + chunks[0].len(),
            chunks.skip(1),
        );
        lemma_sequential_writes_concatenate(data, pos, chunks[0], concat_chunks(chunks.skip(1)));
    }
}

/// A run of back-to-back reads that stays inside the stream is one read of
/// the total length.
pub proof fn lemma_read_chunks_is_one_read(data: Seq<u8>, pos: nat, lens: Seq<nat>)
    requires
        pos + total_len(lens) <= data.len(),
    ensures
        read_chunks(data, pos, lens) == mem_read(data, pos, total_len(lens)),
    decreases lens.len(),
{
    if lens.len() == 0 {
        assert(read_chunks(data, pos, lens) =~= mem_read(data, pos, 0));
    } else {
        lemma_read_chunks_is_one_read(data, pos + lens[0], lens.skip(1));
        lemma_sequential_reads_concatenate(data, pos, lens[0], total_len(lens.skip(1)));
    }
}

/// The round trip over whole runs: bytes written in order through any run
/// of writes over fresh storage, read back from the start in any chunking
/// that covers them, are exactly the written bytes, in the same order.
pub proof fn lemma_chunked_round_trip(chunks: Seq<Seq<u8>>, lens: Seq<nat>)
    requires
        total_len(lens) == concat_chunks(chunks).len(),
    ensures
        read_chunks(write_chunks(Seq::<u8>::empty(), 0, chunks), 0, lens)
            == concat_chunks(chunks),
{
    let written = concat_chunks(chunks);
    lemma_write_chunks_is_one_write(Seq::<u8>::empty(), 0, chunks);
    let storage = mem_write(Seq::<u8>::empty(), 0, written);
    assert(storage.len() == written.len());
    lemma_read_chunks_is_one_read(storage, 0, lens);
    lemma_write_read_round_trip(Seq::<u8>::empty(), 0, written);
}

/// A handle whose seek probe failed has no seek slot, and any size report
/// through that handle answers the failure sentinel and leaves the stream
/// untouched: `from_reader` and `from_writer` install the seek slot exactly
/// as the probe decides, and `call_seek` answers an uninstalled slot as
/// `spec_handle_seek` says.
pub proof fn lemma_failed_probe_blocks_size_report(
    data: Seq<u8>,
    pos: nat,
    seek_ok: bool,
    size_ok: bool,
    offset: i64,
)
    requires
        !probe_installs_seek(pos, seek_ok),
    ensures
        spec_handle_seek(
            probe_installs_seek(pos, seek_ok), data, pos, seek_ok, size_ok, offset, AVSEEK_SIZE,
        ) == (SENTINEL_SEEK, pos),
{
}

/// Seeking to an absolute offset inside the stream, then reading, yields
/// the stream's bytes starting at that offset: the repositioning reports
/// the offset itself, and a read of `n` bytes there is the slice from the
/// offset, clipped to the end.
pub proof fn lemma_seek_then_read(
    data: Seq<u8>,
    pos: nat,
    size_ok: bool,
    offset: i64,
    n: nat,
)
    requires
        0 <= offset,
        offset as nat <= data.len(),
        data.len() <= i64::MAX as nat,
    ensures
        ({
            let (reported, new_pos) = spec_bridge_seek(data, pos, true, size_ok, offset, SEEK_SET);
            &&& reported == offset
            &&& new_pos == offset as nat
            &&& mem_read(data, new_pos, n) == data.subrange(
                offset as int,
                if offset as nat + n <= data.len() { offset + n } else { data.len() as int },
            )
        }),
{
}

} // verus!
