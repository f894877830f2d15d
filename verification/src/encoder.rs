//! The adaptive encoding pipeline: a builder that accumulates encoder
//! parameters, the opened encoder with its lazily cached rescaler and
//! scratch frame, and the send-frame/drain-packets protocol.
//!
//! The backend performs the actual encoding; its side of the protocol is
//! exchanged here as plain values. One `send_frame` call submits one frame
//! — rescaled first when its geometry or pixel format does not match the
//! encoder — and then drains the backend's completed packets: each drained
//! packet goes to the caller's handler and its backend resources are
//! released whether or not the handler accepted it; a rejected packet stops
//! the drain at once.

use vstd::prelude::*;
use crate::codec::{Codec, MediaType, PixelFormat, Rational};

verus! {

/// What can go wrong before any frame reaches the backend.
#[derive(Copy, Clone, PartialEq, Eq, Structural, Debug)]
pub enum Error {
    /// `send_frame` was handed a frame that is not video.
    NotVideoFrame,
    /// `open` found no width on the builder.
    WidthNotSet,
    /// `open` found no height on the builder.
    HeightNotSet,
    /// `open` found no pixel format on the builder.
    PixelFormatNotSet,
    /// The builder's codec cannot encode.
    NotAnEncoder,
    /// The builder's codec does not work on video.
    NotVideoCodec,
    /// A rescaler could not be constructed for the requested conversion.
    ScalerInit,
    /// A frame could not be allocated at the requested geometry.
    FrameAlloc,
    /// The backend could not allocate a codec context.
    ContextAlloc,
    /// The backend refused to open the codec context; carries the
    /// backend's own diagnostic code.
    CodecOpen(i32),
}

/// The codec flag a container that keeps stream headers global asks for.
pub const CODEC_FLAG_GLOBAL_HEADER: u32 = 0x400000;

/// What the pipeline reads from the target container format: whether its
/// streams carry global headers, which decides the codec context's default
/// flags.
#[derive(Copy, Clone, PartialEq, Eq, Structural, Debug)]
pub struct OutputFormat {
    pub global_header: bool,
}

/// The backend's verdict on opening a codec context: the context
/// allocation, then the codec-open call against the assembled
/// configuration. The loop that makes those native calls hands the verdict
/// in; validation never depends on it.
#[derive(Copy, Clone, PartialEq, Eq, Structural, Debug)]
pub enum OpenOutcome {
    /// The context was allocated and the codec opened.
    Opened,
    /// The context allocation itself failed.
    AllocationFailed,
    /// The codec-open call failed; carries the backend's diagnostic code.
    OpenFailed(i32),
}

/// The codec context configuration one `open` assembles for the backend:
/// codec, geometry, pixel format, time base, optional bit rate, and the
/// container format's default flags.
#[derive(Copy, Clone, PartialEq, Eq, Structural, Debug)]
pub struct CodecConfig {
    pub codec: Codec,
    pub width: usize,
    pub height: usize,
    pub pixel_format: PixelFormat,
    pub time_base: Rational,
    pub bit_rate: Option<i64>,
    pub flags: u32,
}

/// Whether a frame geometry is one the backend can allocate and convert:
/// positive dimensions that fit the backend's signed field, and a real
/// pixel format.
pub open spec fn spec_frame_ok(width: usize, height: usize, format: PixelFormat) -> bool {
    &&& 1 <= width <= i32::MAX as usize
    &&& 1 <= height <= i32::MAX as usize
    &&& format.0 >= 0
}

/// A video frame as the pipeline reads it: geometry, pixel format, and a
/// presentation timestamp in the encoder's time base. The pixel content
/// itself stays with the backend.
#[derive(Copy, Clone, PartialEq, Eq, Structural, Debug)]
pub struct Frame {
    pub kind: MediaType,
    pub width: usize,
    pub height: usize,
    pub pixel_format: PixelFormat,
    pub pts: i64,
}

impl Frame {
    /// Allocate a video frame at the given geometry, timestamp zero.
    /// Fails exactly where the geometry is not allocatable.
    pub fn new(width: usize, height: usize, pixel_format: PixelFormat) -> (r: Result<Frame, Error>)
        ensures
            spec_frame_ok(width, height, pixel_format) ==> r == Ok::<Frame, Error>(Frame {
                kind: MediaType::Video,
                width,
                height,
                pixel_format,
                pts: 0,
            }),
            !spec_frame_ok(width, height, pixel_format) ==> r == Err::<Frame, Error>(Error::FrameAlloc),
    {
        if 1 <= width && width <= i32::MAX as usize && 1 <= height && height <= i32::MAX as usize
            && pixel_format.0 >= 0 {
            Ok(Frame { kind: MediaType::Video, width, height, pixel_format, pts: 0 })
        } else {
            Err(Error::FrameAlloc)
        }
    }

    /// Whether this frame can go to `encoder` as it stands: its pixel
    /// format, width and height all equal the encoder's configured values.
    pub fn is_compatible_with_encoder(&self, encoder: &Encoder) -> (r: bool)
        ensures
            r == encoder.spec_compatible(*self),
    {
        self.pixel_format == encoder.pixel_format() && self.width == encoder.width()
            && self.height == encoder.height()
    }
}

/// Whether a rescaler from the source geometry to the target geometry can
/// be constructed: both ends must be allocatable frame geometries.
pub open spec fn scaler_params_ok(
    src_width: usize, src_height: usize, src_format: PixelFormat,
    dst_width: usize, dst_height: usize, dst_format: PixelFormat,
) -> bool {
    spec_frame_ok(src_width, src_height, src_format)
        && spec_frame_ok(dst_width, dst_height, dst_format)
}

/// A pixel rescaler, recorded by the conversion it was built for. The
/// resampling arithmetic itself stays with the backend; the pipeline only
/// decides when one must be rebuilt.
#[derive(Copy, Clone, PartialEq, Eq, Structural, Debug)]
pub struct Scaler {
    pub src_width: usize,
    pub src_height: usize,
    pub src_format: PixelFormat,
    pub dst_width: usize,
    pub dst_height: usize,
    pub dst_format: PixelFormat,
}

impl Scaler {
    /// Construct a rescaler for the given conversion. Fails exactly where
    /// either end is not an allocatable geometry.
    pub fn new(
        src_width: usize, src_height: usize, src_format: PixelFormat,
        dst_width: usize, dst_height: usize, dst_format: PixelFormat,
    ) -> (r: Result<Scaler, Error>)
        ensures
            scaler_params_ok(src_width, src_height, src_format, dst_width, dst_height, dst_format)
                ==> r == Ok::<Scaler, Error>(Scaler {
                    src_width, src_height, src_format, dst_width, dst_height, dst_format,
                }),
            !scaler_params_ok(src_width, src_height, src_format, dst_width, dst_height, dst_format)
                ==> r == Err::<Scaler, Error>(Error::ScalerInit),
    {
        if 1 <= src_width && src_width <= i32::MAX as usize
            && 1 <= src_height && src_height <= i32::MAX as usize
            && src_format.0 >= 0
            && 1 <= dst_width && dst_width <= i32::MAX as usize
            && 1 <= dst_height && dst_height <= i32::MAX as usize
            && dst_format.0 >= 0 {
            Ok(Scaler { src_width, src_height, src_format, dst_width, dst_height, dst_format })
        } else {
            Err(Error::ScalerInit)
        }
    }

    /// The source pixel format this rescaler was built for.
    pub fn source_pixel_format(&self) -> (r: PixelFormat)
        ensures
            r == self.src_format,
    {
        self.src_format
    }

    /// The source width this rescaler was built for.
    pub fn source_width(&self) -> (r: usize)
        ensures
            r == self.src_width,
    {
        self.src_width
    }

    /// The source height this rescaler was built for.
    pub fn source_height(&self) -> (r: usize)
        ensures
            r == self.src_height,
    {
        self.src_height
    }
}

/// One completed packet handed out of the backend: its timestamp and its
/// payload.
#[derive(Debug)]
pub struct Packet {
    pub pts: i64,
    pub data: Vec<u8>,
}

/// One answer of the backend during a drain, paired — for a completed
/// packet — with the handler's verdict on it. The loop that performs the
/// backend calls hands these in; the pipeline decides everything else.
#[derive(Debug)]
pub enum DrainEvent {
    /// A completed packet, and whether the caller's handler accepted it.
    Packet(Packet, bool),
    /// No packet is available right now.
    Again,
    /// The backend reached end of stream.
    Eof,
    /// Any other backend failure.
    Failed,
}

/// How one drain ended.
#[derive(Copy, Clone, PartialEq, Eq, Structural, Debug)]
pub enum DrainStatus {
    /// The backend reported no packet available or end of stream.
    Completed,
    /// The handler rejected a packet; its failure propagates.
    HandlerFailed,
    /// The backend reported an unexpected error.
    EncodeFailed,
}

/// What one drain did: the packets handed to the handler in backend-yield
/// order, how many packets' backend resources were released, and how the
/// drain ended.
#[derive(Debug)]
pub struct DrainOutcome {
    pub handled: Vec<Packet>,
    pub released: usize,
    pub status: DrainStatus,
}

/// The drain protocol over a backend's answers: packets are handed on and
/// released while the handler accepts them; a rejected packet is still
/// released but stops the drain as a handler failure; "no packet" and "end
/// of stream" complete it; any other backend answer fails it. Answers
/// behind the stopping one are never looked at.
pub open spec fn spec_run_drain(s: Seq<DrainEvent>) -> (Seq<Packet>, nat, DrainStatus)
    decreases s.len(),
{
    if s.len() == 0 {
        (Seq::<Packet>::empty(), 0 as nat, DrainStatus::Completed)
    } else {
        match s[0] {
            DrainEvent::Packet(p, ok) => {
                if ok {
                    let rest = spec_run_drain(s.skip(1));
                    (seq![p] + rest.0, (rest.1 + 1) as nat, rest.2)
                } else {
                    (seq![p], 1 as nat, DrainStatus::HandlerFailed)
                }
            },
            DrainEvent::Again => (Seq::<Packet>::empty(), 0 as nat, DrainStatus::Completed),
            DrainEvent::Eof => (Seq::<Packet>::empty(), 0 as nat, DrainStatus::Completed),
            DrainEvent::Failed => (Seq::<Packet>::empty(), 0 as nat, DrainStatus::EncodeFailed),
        }
    }
}

/// Run one drain over the backend's answers.
pub fn run_drain(script: Vec<DrainEvent>) -> (r: DrainOutcome)
    ensures
        r.handled@ == spec_run_drain(script@).0,
        r.released as nat == spec_run_drain(script@).1,
        r.status == spec_run_drain(script@).2,
        r.released == r.handled@.len(),
        r.released <= script@.len(),
    decreases script@.len(),
{
    let mut script = script;
    let ghost s0 = script@;
    if script.len() == 0 {
        return DrainOutcome { handled: Vec::new(), released: 0, status: DrainStatus::Completed };
    }
    let ev = script.remove(0);
    proof {
        assert(script@ =~= s0.skip(1));
    }
    match ev {
        DrainEvent::Packet(p, ok) => {
            if ok {
                let mut rest = run_drain(script);
                rest.handled.insert(0, p);
                proof {
                    assert(rest.handled@ =~= seq![s0[0]->Packet_0] + spec_run_drain(s0.skip(1)).0);
                }
                DrainOutcome {
                    handled: rest.handled,
                    released: rest.released + 1,
                    status: rest.status,
                }
            } else {
                let mut handled: Vec<Packet> = Vec::new();
                handled.push(p);
                proof {
                    assert(handled@ =~= seq![s0[0]->Packet_0]);
                }
                DrainOutcome { handled, released: 1, status: DrainStatus::HandlerFailed }
            }
        },
        DrainEvent::Again => DrainOutcome {
            handled: Vec::new(),
            released: 0,
            status: DrainStatus::Completed,
        },
        DrainEvent::Eof => DrainOutcome {
            handled: Vec::new(),
            released: 0,
            status: DrainStatus::Completed,
        },
        DrainEvent::Failed => DrainOutcome {
            handled: Vec::new(),
            released: 0,
            status: DrainStatus::EncodeFailed,
        },
    }
}

/// Every packet the drain hands to the handler has its backend resources
/// released, and nothing else is released: the two counts agree on every
/// script, including the one where the handler rejects a packet.
pub proof fn lemma_drain_releases_every_packet(s: Seq<DrainEvent>)
    ensures
        spec_run_drain(s).1 == spec_run_drain(s).0.len(),
    decreases s.len(),
{
    if s.len() > 0 {
        match s[0] {
            DrainEvent::Packet(p, ok) => {
                if ok {
                    lemma_drain_releases_every_packet(s.skip(1));
                }
            },
            _ => {},
        }
    }
}

/// A handler failure on the packet at position `i` — every earlier answer
/// being an accepted packet — ends the drain as a handler failure, with
/// exactly the packets up to and including `i` handled, in backend-yield
/// order, and exactly those released.
pub proof fn lemma_drain_stops_at_handler_failure(s: Seq<DrainEvent>, i: int)
    requires
        0 <= i < s.len(),
        forall|j: int| 0 <= j < i ==> ((#[trigger] s[j]) matches DrainEvent::Packet(_, true)),
        s[i] matches DrainEvent::Packet(_, false),
    ensures
        spec_run_drain(s).2 == DrainStatus::HandlerFailed,
        spec_run_drain(s).0.len() == i + 1,
        spec_run_drain(s).1 == i + 1,
        forall|j: int| 0 <= j <= i ==> spec_run_drain(s).0[j] == s[j]->Packet_0,
    decreases i,
{
    if i == 0 {
    } else {
        assert(s[0] matches DrainEvent::Packet(_, true));
        assert forall|j: int| 0 <= j < i - 1 implies ((#[trigger] s.skip(1)[j]) matches DrainEvent::Packet(_, true)) by {
            assert(s.skip(1)[j] == s[j + 1]);
        }
        assert(s.skip(1)[i - 1] == s[i]);
        lemma_drain_stops_at_handler_failure(s.skip(1), i - 1);
        assert forall|j: int| 0 <= j <= i implies spec_run_drain(s).0[j] == s[j]->Packet_0 by {
            if j == 0 {
            } else {
                assert(spec_run_drain(s).0[j] == spec_run_drain(s.skip(1)).0[j - 1]);
                assert(s.skip(1)[j - 1] == s[j]);
            }
        }
    }
}

/// When the handler accepts every packet and the backend then reports "no
/// packet" or "end of stream" (or simply yields nothing more), the drain
/// completes with every yielded packet handled exactly once, in
/// backend-yield order, and released.
pub proof fn lemma_drain_delivers_all(s: Seq<DrainEvent>, n: int)
    requires
        0 <= n <= s.len(),
        forall|j: int| 0 <= j < n ==> ((#[trigger] s[j]) matches DrainEvent::Packet(_, true)),
        n == s.len() || (s[n] is Again || s[n] is Eof),
    ensures
        spec_run_drain(s).2 == DrainStatus::Completed,
        spec_run_drain(s).0.len() == n,
        spec_run_drain(s).1 == n,
        forall|j: int| 0 <= j < n ==> spec_run_drain(s).0[j] == s[j]->Packet_0,
    decreases n,
{
    if n == 0 {
    } else {
        assert(s[0] matches DrainEvent::Packet(_, true));
        assert forall|j: int| 0 <= j < n - 1 implies ((#[trigger] s.skip(1)[j]) matches DrainEvent::Packet(_, true)) by {
            assert(s.skip(1)[j] == s[j + 1]);
        }
        if n < s.len() {
            assert(s.skip(1)[n - 1] == s[n]);
        }
        lemma_drain_delivers_all(s.skip(1), n - 1);
        assert forall|j: int| 0 <= j < n implies spec_run_drain(s).0[j] == s[j]->Packet_0 by {
            if j == 0 {
            } else {
                assert(spec_run_drain(s).0[j] == spec_run_drain(s.skip(1)).0[j - 1]);
                assert(s.skip(1)[j - 1] == s[j]);
            }
        }
    }
}

/// The scratch frame a rescale lands in: the encoder's target geometry and
/// pixel format, carrying the source frame's timestamp unchanged.
pub open spec fn spec_scratch_frame(
    width: usize,
    height: usize,
    format: PixelFormat,
    pts: i64,
) -> Frame {
    Frame { kind: MediaType::Video, width, height, pixel_format: format, pts }
}

/// The rescaler built for one source frame and one target: source geometry
/// and format from the frame, target fixed at encoder-open time.
pub open spec fn spec_built_scaler(
    f: Frame,
    width: usize,
    height: usize,
    format: PixelFormat,
) -> Scaler {
    Scaler {
        src_width: f.width,
        src_height: f.height,
        src_format: f.pixel_format,
        dst_width: width,
        dst_height: height,
        dst_format: format,
    }
}

/// An open encoder: the backend codec context's configuration, fixed at
/// open time, plus the lazily cached rescaler and scratch frame and a count
/// of how often a rescaler was constructed.
pub struct Encoder {
    codec: Codec,
    width: usize,
    height: usize,
    pixel_format: PixelFormat,
    time_base: Rational,
    bit_rate: Option<i64>,
    flags: u32,
    scaler: Option<Scaler>,
    tmp_frame: Option<Frame>,
    scaler_builds: u64,
}

impl Encoder {
    /// The configured width.
    pub closed spec fn spec_width(&self) -> usize {
        self.width
    }

    /// The configured height.
    pub closed spec fn spec_height(&self) -> usize {
        self.height
    }

    /// The configured pixel format.
    pub closed spec fn spec_pixel_format(&self) -> PixelFormat {
        self.pixel_format
    }

    /// The configured time base.
    pub closed spec fn spec_time_base(&self) -> Rational {
        self.time_base
    }

    /// The codec this encoder was opened for.
    pub closed spec fn spec_codec(&self) -> Codec {
        self.codec
    }

    /// The configured bit rate, where one was set.
    pub closed spec fn spec_bit_rate(&self) -> Option<i64> {
        self.bit_rate
    }

    /// The codec context flags applied for the container format.
    pub closed spec fn spec_flags(&self) -> u32 {
        self.flags
    }

    /// The cached rescaler, where one was built.
    pub closed spec fn spec_scaler(&self) -> Option<Scaler> {
        self.scaler
    }

    /// The cached scratch frame, where one was allocated.
    pub closed spec fn spec_tmp_frame(&self) -> Option<Frame> {
        self.tmp_frame
    }

    /// How many rescalers have been constructed over this encoder's life.
    pub closed spec fn spec_scaler_builds(&self) -> nat {
        self.scaler_builds as nat
    }

    /// The encoder's internal consistency: the target fits the backend's
    /// signed fields, a cached rescaler converts exactly to the target —
    /// which is then an allocatable geometry — and a cached scratch frame
    /// is a video frame at the target.
    pub open spec fn wf(&self) -> bool {
        &&& self.spec_width() <= i32::MAX as usize
        &&& self.spec_height() <= i32::MAX as usize
        &&& match self.spec_scaler() {
            Some(s) => {
                &&& s.dst_width == self.spec_width()
                &&& s.dst_height == self.spec_height()
                &&& s.dst_format == self.spec_pixel_format()
                &&& scaler_params_ok(
                    s.src_width, s.src_height, s.src_format,
                    s.dst_width, s.dst_height, s.dst_format,
                )
            },
            None => true,
        }
        &&& match self.spec_tmp_frame() {
            Some(t) => t == spec_scratch_frame(
                self.spec_width(), self.spec_height(), self.spec_pixel_format(), t.pts,
            ),
            None => true,
        }
    }

    /// Whether `f` matches the configured target exactly.
    pub open spec fn spec_compatible(&self, f: Frame) -> bool {
        &&& f.pixel_format == self.spec_pixel_format()
        &&& f.width == self.spec_width()
        &&& f.height == self.spec_height()
    }

    /// Whether the cached rescaler — if any — was built for a different
    /// source than `f`, so that a rescale of `f` must construct a new one.
    pub open spec fn spec_needs_rebuild(&self, f: Frame) -> bool {
        match self.spec_scaler() {
            Some(s) => s.src_format != f.pixel_format || s.src_width != f.width
                || s.src_height != f.height,
            None => true,
        }
    }

    /// The error `prepare_frame` answers for `f`, or `None` where it
    /// succeeds: a non-video frame is rejected outright, and an
    /// incompatible frame fails only where the rescaler it needs cannot be
    /// constructed.
    pub open spec fn spec_prepare_error(&self, f: Frame) -> Option<Error> {
        if f.kind != MediaType::Video {
            Some(Error::NotVideoFrame)
        } else if self.spec_compatible(f) {
            None
        } else if self.spec_needs_rebuild(f) && !scaler_params_ok(
            f.width, f.height, f.pixel_format,
            self.spec_width(), self.spec_height(), self.spec_pixel_format(),
        ) {
            Some(Error::ScalerInit)
        } else {
            None
        }
    }

    /// The frame one successful `send_frame` submits to the backend: the
    /// caller's frame where compatible, else the scratch frame at the
    /// target geometry carrying the caller's timestamp.
    pub open spec fn spec_submitted(&self, f: Frame) -> Frame {
        if self.spec_compatible(f) {
            f
        } else {
            spec_scratch_frame(self.spec_width(), self.spec_height(), self.spec_pixel_format(), f.pts)
        }
    }

    /// Start a builder for `codec`; equivalent to `EncoderBuilder::from_codec`.
    pub fn from_codec(codec: Codec) -> (r: Result<EncoderBuilder, Error>)
        ensures
            !codec.encodes ==> r == Err::<EncoderBuilder, Error>(Error::NotAnEncoder),
            codec.encodes && codec.media_type != MediaType::Video
                ==> r == Err::<EncoderBuilder, Error>(Error::NotVideoCodec),
            codec.encodes && codec.media_type == MediaType::Video ==> (r matches Ok(b)
                && b.spec_codec() == codec && b.spec_width() is None && b.spec_height() is None
                && b.spec_pixel_format() is None && b.spec_time_base() is None
                && b.spec_bit_rate() is None && b.wf()),
    {
        EncoderBuilder::from_codec(codec)
    }

    /// The configured pixel format.
    pub fn pixel_format(&self) -> (r: PixelFormat)
        ensures
            r == self.spec_pixel_format(),
    {
        self.pixel_format
    }

    /// The configured width.
    pub fn width(&self) -> (r: usize)
        ensures
            r == self.spec_width(),
    {
        self.width
    }

    /// The configured height.
    pub fn height(&self) -> (r: usize)
        ensures
            r == self.spec_height(),
    {
        self.height
    }

    /// The codec this encoder was opened for.
    pub fn codec(&self) -> (r: Codec)
        ensures
            r == self.spec_codec(),
    {
        self.codec
    }

    /// The configured time base.
    pub fn time_base(&self) -> (r: Rational)
        ensures
            r == self.spec_time_base(),
    {
        self.time_base
    }

    /// The codec context flags applied for the container format.
    pub fn flags(&self) -> (r: u32)
        ensures
            r == self.spec_flags(),
    {
        self.flags
    }

    /// How many rescalers have been constructed over this encoder's life.
    pub fn scaler_builds(&self) -> (r: u64)
        ensures
            r as nat == self.spec_scaler_builds(),
    {
        self.scaler_builds
    }

    /// The cached scratch frame, where one was allocated.
    pub fn scratch_frame(&self) -> (r: Option<Frame>)
        ensures
            r == self.spec_tmp_frame(),
    {
        self.tmp_frame
    }

    /// The cached rescaler, where one was built.
    pub fn cached_scaler(&self) -> (r: Option<Scaler>)
        ensures
            r == self.spec_scaler(),
    {
        self.scaler
    }




    /// Whether a rescale of `source` needs a new rescaler: there is none
    /// yet, or the cached one was built for a different source.
    fn scaler_needs_update(&self, source: &Frame) -> (r: bool)
        ensures
            r == self.spec_needs_rebuild(*source),
    {
        match &self.scaler {
            Some(s) => {
                source.pixel_format != s.src_format || source.width != s.src_width
                    || source.height != s.src_height
            },
            None => true,
        }
    }

    /// Rebuild the cached rescaler where `frame` needs one the cache cannot
    /// serve; leave it alone otherwise. The construction count grows
    /// exactly on a rebuild.
    fn update_scaler(&mut self, frame: &Frame) -> (r: Result<(), Error>)
        requires
            old(self).wf(),
            old(self).spec_scaler_builds() < u64::MAX as nat,
        ensures
            final(self).wf(),
            final(self).spec_width() == old(self).spec_width(),
            final(self).spec_height() == old(self).spec_height(),
            final(self).spec_pixel_format() == old(self).spec_pixel_format(),
            final(self).spec_time_base() == old(self).spec_time_base(),
            final(self).spec_codec() == old(self).spec_codec(),
            final(self).spec_bit_rate() == old(self).spec_bit_rate(),
            final(self).spec_flags() == old(self).spec_flags(),
            final(self).spec_tmp_frame() == old(self).spec_tmp_frame(),
            !old(self).spec_needs_rebuild(*frame) ==> r == Ok::<(), Error>(())
                && final(self).spec_scaler() == old(self).spec_scaler()
                && final(self).spec_scaler_builds() == old(self).spec_scaler_builds(),
            old(self).spec_needs_rebuild(*frame) ==> {
                if scaler_params_ok(
                    frame.width, frame.height, frame.pixel_format,
                    old(self).spec_width(), old(self).spec_height(), old(self).spec_pixel_format(),
                ) {
                    &&& r == Ok::<(), Error>(())
                    &&& final(self).spec_scaler() == Some(spec_built_scaler(
                        *frame,
                        old(self).spec_width(), old(self).spec_height(), old(self).spec_pixel_format(),
                    ))
                    &&& final(self).spec_scaler_builds() == old(self).spec_scaler_builds() + 1
                } else {
                    &&& r == Err::<(), Error>(Error::ScalerInit)
                    &&& final(self).spec_scaler() == old(self).spec_scaler()
                    &&& final(self).spec_scaler_builds() == old(self).spec_scaler_builds()
                }
            },
    {
        if self.scaler_needs_update(frame) {
            match Scaler::new(
                frame.width, frame.height, frame.pixel_format,
                self.width, self.height, self.pixel_format,
            ) {
                Ok(s) => {
                    self.scaler = Some(s);
                    self.scaler_builds = self.scaler_builds + 1;
                    Ok(())
                },
                Err(e) => Err(e),
            }
        } else {
            Ok(())
        }
    }

    /// Allocate the scratch frame at the target geometry, once; later calls
    /// find it cached. Only callable while a rescaler is cached, which
    /// guarantees the target is allocatable.
    fn init_tmp_frame(&mut self) -> (r: Result<(), Error>)
        requires
            old(self).wf(),
            old(self).spec_scaler() is Some,
        ensures
            final(self).wf(),
            r == Ok::<(), Error>(()),
            final(self).spec_width() == old(self).spec_width(),
            final(self).spec_height() == old(self).spec_height(),
            final(self).spec_pixel_format() == old(self).spec_pixel_format(),
            final(self).spec_time_base() == old(self).spec_time_base(),
            final(self).spec_codec() == old(self).spec_codec(),
            final(self).spec_bit_rate() == old(self).spec_bit_rate(),
            final(self).spec_flags() == old(self).spec_flags(),
            final(self).spec_scaler() == old(self).spec_scaler(),
            final(self).spec_scaler_builds() == old(self).spec_scaler_builds(),
            old(self).spec_tmp_frame() is Some ==> final(self).spec_tmp_frame()
                == old(self).spec_tmp_frame(),
            old(self).spec_tmp_frame() is None ==> final(self).spec_tmp_frame()
                == Some(spec_scratch_frame(
                    old(self).spec_width(), old(self).spec_height(), old(self).spec_pixel_format(),
                    0,
                )),
    {
        if self.tmp_frame.is_none() {
            match Frame::new(self.width, self.height, self.pixel_format) {
                Ok(f) => {
                    self.tmp_frame = Some(f);
                    Ok(())
                },
                Err(e) => Err(e),
            }
        } else {
            Ok(())
        }
    }

    /// Ready `frame` for submission: reject non-video input, pass a
    /// compatible frame through untouched, and otherwise rescale it into
    /// the scratch frame — rebuilding the cached rescaler only where the
    /// source changed, allocating the scratch frame only once — carrying
    /// the timestamp over unchanged. Returns the frame to submit.
    pub fn prepare_frame(&mut self, frame: &Frame) -> (r: Result<Frame, Error>)
        requires
            old(self).wf(),
            old(self).spec_scaler_builds() < u64::MAX as nat,
        ensures
            final(self).wf(),
            final(self).spec_width() == old(self).spec_width(),
            final(self).spec_height() == old(self).spec_height(),
            final(self).spec_pixel_format() == old(self).spec_pixel_format(),
            final(self).spec_time_base() == old(self).spec_time_base(),
            final(self).spec_codec() == old(self).spec_codec(),
            final(self).spec_bit_rate() == old(self).spec_bit_rate(),
            final(self).spec_flags() == old(self).spec_flags(),
            match old(self).spec_prepare_error(*frame) {
                Some(e) => r == Err::<Frame, Error>(e)
                    && final(self).spec_scaler() == old(self).spec_scaler()
                    && final(self).spec_tmp_frame() == old(self).spec_tmp_frame()
                    && final(self).spec_scaler_builds() == old(self).spec_scaler_builds(),
                None => r == Ok::<Frame, Error>(old(self).spec_submitted(*frame)),
            },
            old(self).spec_prepare_error(*frame) is None && old(self).spec_compatible(*frame) ==> {
                &&& final(self).spec_scaler() == old(self).spec_scaler()
                &&& final(self).spec_tmp_frame() == old(self).spec_tmp_frame()
                &&& final(self).spec_scaler_builds() == old(self).spec_scaler_builds()
            },
            old(self).spec_prepare_error(*frame) is None && !old(self).spec_compatible(*frame) ==> {
                &&& final(self).spec_scaler() == (if old(self).spec_needs_rebuild(*frame) {
                    Some(spec_built_scaler(
                        *frame,
                        old(self).spec_width(), old(self).spec_height(), old(self).spec_pixel_format(),
                    ))
                } else {
                    old(self).spec_scaler()
                })
                &&& final(self).spec_scaler_builds() == old(self).spec_scaler_builds()
                    + (if old(self).spec_needs_rebuild(*frame) { 1 as nat } else { 0 as nat })
                &&& final(self).spec_tmp_frame() == Some(old(self).spec_submitted(*frame))
            },
    {
        if frame.kind != MediaType::Video {
            return Err(Error::NotVideoFrame);
        }
        if frame.is_compatible_with_encoder(self) {
            return Ok(*frame);
        }
        match self.update_scaler(frame) {
            Ok(()) => {},
            Err(e) => {
                return Err(e);
            },
        }
        match self.init_tmp_frame() {
            Ok(()) => {},
            Err(e) => {
                return Err(e);
            },
        }
        match self.tmp_frame {
            Some(t) => {
                let scratch = Frame {
                    kind: MediaType::Video,
                    width: t.width,
                    height: t.height,
                    pixel_format: t.pixel_format,
                    pts: frame.pts,
                };
                self.tmp_frame = Some(scratch);
                Ok(scratch)
            },
            None => Err(Error::FrameAlloc),
        }
    }

    /// Submit one frame and drain the backend's completed packets.
    ///
    /// The frame is readied by `prepare_frame` — rejected, passed through,
    /// or rescaled into the scratch frame — and then submitted; `script`
    /// holds the backend's answers to the repeated packet requests that
    /// follow, each completed packet paired with the handler's verdict on
    /// it. The report says which frame was submitted and what the drain
    /// did; every drained packet's backend resources are released exactly
    /// once whether or not the handler accepted it.
    pub fn send_frame(&mut self, frame: &Frame, script: Vec<DrainEvent>) -> (r: Result<
        SendReport,
        Error,
    >)
        requires
            old(self).wf(),
            old(self).spec_scaler_builds() < u64::MAX as nat,
        ensures
            final(self).wf(),
            final(self).spec_width() == old(self).spec_width(),
            final(self).spec_height() == old(self).spec_height(),
            final(self).spec_pixel_format() == old(self).spec_pixel_format(),
            final(self).spec_time_base() == old(self).spec_time_base(),
            final(self).spec_codec() == old(self).spec_codec(),
            final(self).spec_bit_rate() == old(self).spec_bit_rate(),
            final(self).spec_flags() == old(self).spec_flags(),
            match old(self).spec_prepare_error(*frame) {
                Some(e) => r matches Err(e2) && e2 == e
                    && final(self).spec_scaler() == old(self).spec_scaler()
                    && final(self).spec_tmp_frame() == old(self).spec_tmp_frame()
                    && final(self).spec_scaler_builds() == old(self).spec_scaler_builds(),
                None => r matches Ok(rep) && {
                    &&& rep.submitted == old(self).spec_submitted(*frame)
                    &&& rep.outcome.handled@ == spec_run_drain(script@).0
                    &&& rep.outcome.released as nat == spec_run_drain(script@).1
                    &&& rep.outcome.status == spec_run_drain(script@).2
                    &&& rep.outcome.released == rep.outcome.handled@.len()
                },
            },
            old(self).spec_prepare_error(*frame) is None && old(self).spec_compatible(*frame) ==> {
                &&& final(self).spec_scaler() == old(self).spec_scaler()
                &&& final(self).spec_tmp_frame() == old(self).spec_tmp_frame()
                &&& final(self).spec_scaler_builds() == old(self).spec_scaler_builds()
            },
            old(self).spec_prepare_error(*frame) is None && !old(self).spec_compatible(*frame) ==> {
                &&& final(self).spec_scaler() == (if old(self).spec_needs_rebuild(*frame) {
                    Some(spec_built_scaler(
                        *frame,
                        old(self).spec_width(), old(self).spec_height(), old(self).spec_pixel_format(),
                    ))
                } else {
                    old(self).spec_scaler()
                })
                &&& final(self).spec_scaler_builds() == old(self).spec_scaler_builds()
                    + (if old(self).spec_needs_rebuild(*frame) { 1 as nat } else { 0 as nat })
                &&& final(self).spec_tmp_frame() == Some(old(self).spec_submitted(*frame))
            },
    {
        let submitted = match self.prepare_frame(frame) {
            Ok(f) => f,
            Err(e) => {
                return Err(e);
            },
        };
        let outcome = run_drain(script);
        Ok(SendReport { submitted, outcome })
    }
}

/// What one successful `send_frame` did: the frame that went to the
/// backend, and the drain's outcome.
#[derive(Debug)]
pub struct SendReport {
    pub submitted: Frame,
    pub outcome: DrainOutcome,
}

/// A transient accumulator of encoding parameters: width, height and pixel
/// format are required, time base (from a frame rate) and bit rate are
/// optional. Nothing is validated before `open`.
pub struct EncoderBuilder {
    codec: Codec,
    pixel_format: Option<PixelFormat>,
    width: Option<usize>,
    height: Option<usize>,
    time_base: Option<Rational>,
    bit_rate: Option<i64>,
}

impl EncoderBuilder {
    /// The codec the encoder will be opened for.
    pub closed spec fn spec_codec(&self) -> Codec {
        self.codec
    }

    /// The accumulated width.
    pub closed spec fn spec_width(&self) -> Option<usize> {
        self.width
    }

    /// The accumulated height.
    pub closed spec fn spec_height(&self) -> Option<usize> {
        self.height
    }

    /// The accumulated pixel format.
    pub closed spec fn spec_pixel_format(&self) -> Option<PixelFormat> {
        self.pixel_format
    }

    /// The accumulated time base.
    pub closed spec fn spec_time_base(&self) -> Option<Rational> {
        self.time_base
    }

    /// The accumulated bit rate.
    pub closed spec fn spec_bit_rate(&self) -> Option<i64> {
        self.bit_rate
    }

    /// The builder's accumulated fields fit the backend's signed fields.
    pub open spec fn wf(&self) -> bool {
        &&& (self.spec_width() matches Some(w) ==> w <= i32::MAX as usize)
        &&& (self.spec_height() matches Some(h) ==> h <= i32::MAX as usize)
    }

    /// Start a builder for `codec`, which must be a video encoder; the
    /// registry's verdicts are checked before anything is accumulated.
    pub fn from_codec(codec: Codec) -> (r: Result<EncoderBuilder, Error>)
        ensures
            !codec.encodes ==> r == Err::<EncoderBuilder, Error>(Error::NotAnEncoder),
            codec.encodes && codec.media_type != MediaType::Video
                ==> r == Err::<EncoderBuilder, Error>(Error::NotVideoCodec),
            codec.encodes && codec.media_type == MediaType::Video ==> (r matches Ok(b)
                && b.spec_codec() == codec && b.spec_width() is None && b.spec_height() is None
                && b.spec_pixel_format() is None && b.spec_time_base() is None
                && b.spec_bit_rate() is None && b.wf()),
    {
        if !codec.is_encoder() {
            return Err(Error::NotAnEncoder);
        }
        if codec.media_type() != MediaType::Video {
            return Err(Error::NotVideoCodec);
        }
        Ok(EncoderBuilder {
            codec,
            pixel_format: None,
            width: None,
            height: None,
            time_base: None,
            bit_rate: None,
        })
    }

    /// Set the frame width.
    pub fn width(&mut self, width: usize)
        requires
            old(self).wf(),
            width <= i32::MAX as usize,
        ensures
            final(self).wf(),
            final(self).spec_width() == Some(width),
            final(self).spec_height() == old(self).spec_height(),
            final(self).spec_pixel_format() == old(self).spec_pixel_format(),
            final(self).spec_time_base() == old(self).spec_time_base(),
            final(self).spec_bit_rate() == old(self).spec_bit_rate(),
            final(self).spec_codec() == old(self).spec_codec(),
    {
        self.width = Some(width);
    }

    /// Set the frame height.
    pub fn height(&mut self, height: usize)
        requires
            old(self).wf(),
            height <= i32::MAX as usize,
        ensures
            final(self).wf(),
            final(self).spec_height() == Some(height),
            final(self).spec_width() == old(self).spec_width(),
            final(self).spec_pixel_format() == old(self).spec_pixel_format(),
            final(self).spec_time_base() == old(self).spec_time_base(),
            final(self).spec_bit_rate() == old(self).spec_bit_rate(),
            final(self).spec_codec() == old(self).spec_codec(),
    {
        self.height = Some(height);
    }

    /// Set the pixel format.
    pub fn pixel_format(&mut self, pixel_format: PixelFormat)
        requires
            old(self).wf(),
        ensures
            final(self).wf(),
            final(self).spec_pixel_format() == Some(pixel_format),
            final(self).spec_width() == old(self).spec_width(),
            final(self).spec_height() == old(self).spec_height(),
            final(self).spec_time_base() == old(self).spec_time_base(),
            final(self).spec_bit_rate() == old(self).spec_bit_rate(),
            final(self).spec_codec() == old(self).spec_codec(),
    {
        self.pixel_format = Some(pixel_format);
    }

    /// Set the time base to one over the given frame rate. Like every
    /// setter this validates nothing: a zero rate is stored as a 1/0 time
    /// base, and `open` passes it on unchanged.
    pub fn framerate(&mut self, framerate: usize)
        requires
            old(self).wf(),
            framerate <= i32::MAX as usize,
        ensures
            final(self).wf(),
            final(self).spec_time_base() == Some(Rational { num: 1, den: framerate as i32 }),
            final(self).spec_width() == old(self).spec_width(),
            final(self).spec_height() == old(self).spec_height(),
            final(self).spec_pixel_format() == old(self).spec_pixel_format(),
            final(self).spec_bit_rate() == old(self).spec_bit_rate(),
            final(self).spec_codec() == old(self).spec_codec(),
    {
        self.time_base = Some(Rational { num: 1, den: framerate as i32 });
    }

    /// Set the bit rate.
    pub fn bitrate(&mut self, bitrate: i64)
        requires
            old(self).wf(),
        ensures
            final(self).wf(),
            final(self).spec_bit_rate() == Some(bitrate),
            final(self).spec_width() == old(self).spec_width(),
            final(self).spec_height() == old(self).spec_height(),
            final(self).spec_pixel_format() == old(self).spec_pixel_format(),
            final(self).spec_time_base() == old(self).spec_time_base(),
            final(self).spec_codec() == old(self).spec_codec(),
    {
        self.bit_rate = Some(bitrate);
    }

    /// The error `open` answers before any backend work, or `None` where
    /// the accumulated fields are complete: each missing required field has
    /// its own error, width first, then height, then pixel format.
    pub open spec fn spec_validation_error(&self) -> Option<Error> {
        if self.spec_width() is None {
            Some(Error::WidthNotSet)
        } else if self.spec_height() is None {
            Some(Error::HeightNotSet)
        } else if self.spec_pixel_format() is None {
            Some(Error::PixelFormatNotSet)
        } else {
            None
        }
    }

    /// The configured time base: the accumulated one, or the 1/30 default.
    pub open spec fn spec_effective_time_base(&self) -> Rational {
        match self.spec_time_base() {
            Some(tb) => tb,
            None => Rational { num: 1, den: 30 },
        }
    }

    /// Assemble the codec context configuration for the target container
    /// format: the validation `open` performs, and the exact record the
    /// backend's allocation and codec-open calls are made with. A missing
    /// required field answers its own error and assembles nothing.
    pub fn configuration(&self, format: OutputFormat) -> (r: Result<CodecConfig, Error>)
        requires
            self.wf(),
        ensures
            match self.spec_validation_error() {
                Some(e) => r == Err::<CodecConfig, Error>(e),
                None => r matches Ok(cfg) && {
                    &&& cfg.codec == self.spec_codec()
                    &&& Some(cfg.width) == self.spec_width()
                    &&& Some(cfg.height) == self.spec_height()
                    &&& Some(cfg.pixel_format) == self.spec_pixel_format()
                    &&& cfg.time_base == self.spec_effective_time_base()
                    &&& cfg.bit_rate == self.spec_bit_rate()
                    &&& cfg.flags == (if format.global_header {
                        CODEC_FLAG_GLOBAL_HEADER
                    } else {
                        0u32
                    })
                },
            },
    {
        let width = match self.width {
            Some(w) => w,
            None => {
                return Err(Error::WidthNotSet);
            },
        };
        let height = match self.height {
            Some(h) => h,
            None => {
                return Err(Error::HeightNotSet);
            },
        };
        let pixel_format = match self.pixel_format {
            Some(p) => p,
            None => {
                return Err(Error::PixelFormatNotSet);
            },
        };
        let time_base = match self.time_base {
            Some(tb) => tb,
            None => Rational { num: 1, den: 30 },
        };
        let flags: u32 = if format.global_header {
            CODEC_FLAG_GLOBAL_HEADER
        } else {
            0
        };
        Ok(CodecConfig {
            codec: self.codec,
            width,
            height,
            pixel_format,
            time_base,
            bit_rate: self.bit_rate,
            flags,
        })
    }

    /// Open an encoder against the target container format, folding in the
    /// backend's verdict on the assembled configuration. A missing required
    /// field answers its own error — width first, then height, then pixel
    /// format — whatever the verdict, so nothing was allocated for it; a
    /// failed context allocation or codec open answers the wrapped backend
    /// error and leaves no encoder behind; otherwise the encoder starts
    /// with the accumulated configuration — time base defaulting to 1/30 —
    /// the container's default flags, and no cached rescaler or scratch
    /// frame.
    pub fn open(&self, format: OutputFormat, outcome: OpenOutcome) -> (r: Result<Encoder, Error>)
        requires
            self.wf(),
        ensures
            match self.spec_validation_error() {
                Some(e) => r == Err::<Encoder, Error>(e),
                None => match outcome {
                    OpenOutcome::AllocationFailed => r == Err::<Encoder, Error>(Error::ContextAlloc),
                    OpenOutcome::OpenFailed(code) => r == Err::<Encoder, Error>(Error::CodecOpen(code)),
                    OpenOutcome::Opened => r matches Ok(e) && {
                        &&& e.wf()
                        &&& e.spec_codec() == self.spec_codec()
                        &&& Some(e.spec_width()) == self.spec_width()
                        &&& Some(e.spec_height()) == self.spec_height()
                        &&& Some(e.spec_pixel_format()) == self.spec_pixel_format()
                        &&& e.spec_time_base() == self.spec_effective_time_base()
                        &&& e.spec_bit_rate() == self.spec_bit_rate()
                        &&& e.spec_flags() == (if format.global_header {
                            CODEC_FLAG_GLOBAL_HEADER
                        } else {
                            0u32
                        })
                        &&& e.spec_scaler() is None
                        &&& e.spec_tmp_frame() is None
                        &&& e.spec_scaler_builds() == 0
                    },
                },
            },
    {
        let cfg = match self.configuration(format) {
            Ok(c) => c,
            Err(e) => {
                return Err(e);
            },
        };
        match outcome {
            OpenOutcome::AllocationFailed => Err(Error::ContextAlloc),
            OpenOutcome::OpenFailed(code) => Err(Error::CodecOpen(code)),
            OpenOutcome::Opened => Ok(Encoder {
                codec: cfg.codec,
                width: cfg.width,
                height: cfg.height,
                pixel_format: cfg.pixel_format,
                time_base: cfg.time_base,
                bit_rate: cfg.bit_rate,
                flags: cfg.flags,
                scaler: None,
                tmp_frame: None,
                scaler_builds: 0,
            }),
        }
    }
}

/// Once an encoder's cache holds the rescaler built for a source frame,
/// every further frame with that source geometry and pixel format reuses
/// it: no rebuild is needed, so `prepare_frame` leaves the cache and the
/// construction count untouched for such a frame.
pub proof fn lemma_scaler_cache_reuse(e: Encoder, f: Frame, g: Frame)
    requires
        e.spec_scaler() == Some(spec_built_scaler(
            f, e.spec_width(), e.spec_height(), e.spec_pixel_format(),
        )),
        g.width == f.width,
        g.height == f.height,
        g.pixel_format == f.pixel_format,
    ensures
        !e.spec_needs_rebuild(g),
{
}

} // verus!
