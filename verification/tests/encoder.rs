use avbridge::codec::{Codec, MediaType, PixelFormat, Rational};
use avbridge::encoder::{
    DrainEvent, DrainStatus, Encoder, EncoderBuilder, Error, Frame, OpenOutcome, OutputFormat,
    Packet, Scaler, run_drain, CODEC_FLAG_GLOBAL_HEADER,
};

fn video_codec() -> Codec {
    Codec { id: 27, media_type: MediaType::Video, encodes: true, decodes: false }
}

fn open_640x480(format: PixelFormat) -> Encoder {
    let mut b = EncoderBuilder::from_codec(video_codec()).unwrap();
    b.width(640);
    b.height(480);
    b.pixel_format(format);
    b.open(OutputFormat { global_header: false }, OpenOutcome::Opened).unwrap()
}

fn video_frame(width: usize, height: usize, format: PixelFormat, pts: i64) -> Frame {
    Frame { kind: MediaType::Video, width, height, pixel_format: format, pts }
}

fn packet(pts: i64) -> Packet {
    Packet { pts, data: vec![0xA0, pts as u8] }
}

#[test]
fn from_codec_rejects_non_encoder() {
    let c = Codec { id: 1, media_type: MediaType::Video, encodes: false, decodes: true };
    assert_eq!(EncoderBuilder::from_codec(c).err(), Some(Error::NotAnEncoder));
}

#[test]
fn from_codec_rejects_non_video_codec() {
    let c = Codec { id: 2, media_type: MediaType::Audio, encodes: true, decodes: false };
    assert_eq!(EncoderBuilder::from_codec(c).err(), Some(Error::NotVideoCodec));
    assert_eq!(Encoder::from_codec(c).err(), Some(Error::NotVideoCodec));
}

#[test]
fn open_missing_width_fails() {
    let mut b = EncoderBuilder::from_codec(video_codec()).unwrap();
    b.height(480);
    b.pixel_format(PixelFormat(0));
    assert_eq!(b.open(OutputFormat { global_header: false }, OpenOutcome::Opened).err(), Some(Error::WidthNotSet));
}

#[test]
fn open_missing_height_fails() {
    let mut b = EncoderBuilder::from_codec(video_codec()).unwrap();
    b.width(640);
    b.pixel_format(PixelFormat(0));
    assert_eq!(b.open(OutputFormat { global_header: false }, OpenOutcome::Opened).err(), Some(Error::HeightNotSet));
}

#[test]
fn open_missing_pixel_format_fails() {
    let mut b = EncoderBuilder::from_codec(video_codec()).unwrap();
    b.width(640);
    b.height(480);
    assert_eq!(
        b.open(OutputFormat { global_header: false }, OpenOutcome::Opened).err(),
        Some(Error::PixelFormatNotSet),
    );
}

#[test]
fn open_applies_configuration_and_defaults() {
    let mut b = EncoderBuilder::from_codec(video_codec()).unwrap();
    b.width(640);
    b.height(480);
    b.pixel_format(PixelFormat(0));
    let e = b.open(OutputFormat { global_header: false }, OpenOutcome::Opened).unwrap();
    assert_eq!(e.width(), 640);
    assert_eq!(e.height(), 480);
    assert_eq!(e.pixel_format(), PixelFormat(0));
    assert_eq!(e.time_base(), Rational { num: 1, den: 30 });
    assert_eq!(e.flags(), 0);
    assert_eq!(e.codec(), video_codec());
    assert_eq!(e.scaler_builds(), 0);
    assert!(e.scratch_frame().is_none());
    assert!(e.cached_scaler().is_none());
}

#[test]
fn open_takes_framerate_and_global_header() {
    let mut b = EncoderBuilder::from_codec(video_codec()).unwrap();
    b.width(320);
    b.height(240);
    b.pixel_format(PixelFormat(5));
    b.framerate(25);
    b.bitrate(400_000);
    let e = b.open(OutputFormat { global_header: true }, OpenOutcome::Opened).unwrap();
    assert_eq!(e.time_base(), Rational { num: 1, den: 25 });
    assert_eq!(e.flags(), CODEC_FLAG_GLOBAL_HEADER);
}

#[test]
fn send_frame_rejects_non_video() {
    let mut e = open_640x480(PixelFormat(0));
    let f = Frame {
        kind: MediaType::Audio,
        width: 640,
        height: 480,
        pixel_format: PixelFormat(0),
        pts: 0,
    };
    assert_eq!(e.send_frame(&f, Vec::new()).err(), Some(Error::NotVideoFrame));
    assert_eq!(e.scaler_builds(), 0);
}

#[test]
fn incompatible_frame_builds_scaler_once_and_reuses_it() {
    let mut e = open_640x480(PixelFormat(0));
    let f = video_frame(1280, 720, PixelFormat(1), 0);

    let rep = e.send_frame(&f, vec![DrainEvent::Again]).unwrap();
    assert_eq!(e.scaler_builds(), 1);
    assert_eq!(rep.submitted, video_frame(640, 480, PixelFormat(0), 0));
    let scratch_first = e.scratch_frame().unwrap();
    let scaler_first = e.cached_scaler().unwrap();
    assert_eq!(scaler_first.source_width(), 1280);
    assert_eq!(scaler_first.source_height(), 720);
    assert_eq!(scaler_first.source_pixel_format(), PixelFormat(1));

    // A second frame with the same source geometry reuses both caches.
    let g = video_frame(1280, 720, PixelFormat(1), 1);
    let rep2 = e.send_frame(&g, vec![DrainEvent::Again]).unwrap();
    assert_eq!(e.scaler_builds(), 1);
    assert_eq!(e.cached_scaler().unwrap(), scaler_first);
    let scratch_second = e.scratch_frame().unwrap();
    assert_eq!(
        Frame { pts: scratch_first.pts, ..scratch_second },
        scratch_first,
    );
    // The scratch frame carries the new frame's timestamp unchanged.
    assert_eq!(rep2.submitted.pts, 1);

    // A third frame with a different source rebuilds exactly once more.
    let h = video_frame(100, 100, PixelFormat(1), 2);
    e.send_frame(&h, vec![DrainEvent::Again]).unwrap();
    assert_eq!(e.scaler_builds(), 2);
}

#[test]
fn compatible_frame_needs_no_scaler() {
    let mut e = open_640x480(PixelFormat(0));
    let f = video_frame(640, 480, PixelFormat(0), 42);
    let script = vec![
        DrainEvent::Packet(packet(1), true),
        DrainEvent::Packet(packet(2), true),
        DrainEvent::Eof,
    ];
    let rep = e.send_frame(&f, script).unwrap();
    assert_eq!(e.scaler_builds(), 0);
    assert!(e.cached_scaler().is_none());
    assert!(e.scratch_frame().is_none());
    assert_eq!(rep.submitted, f);
    assert_eq!(rep.outcome.status, DrainStatus::Completed);
    // The handler saw every drained packet, in backend-yield order.
    let pts: Vec<i64> = rep.outcome.handled.iter().map(|p| p.pts).collect();
    assert_eq!(pts, vec![1, 2]);
    assert_eq!(rep.outcome.released, 2);
}

#[test]
fn handler_failure_stops_drain_and_releases_both_packets() {
    let mut e = open_640x480(PixelFormat(0));
    let f = video_frame(640, 480, PixelFormat(0), 0);
    let script = vec![
        DrainEvent::Packet(packet(1), true),
        DrainEvent::Packet(packet(2), false),
        DrainEvent::Packet(packet(3), true),
        DrainEvent::Eof,
    ];
    let rep = e.send_frame(&f, script).unwrap();
    assert_eq!(rep.outcome.status, DrainStatus::HandlerFailed);
    // The first and second packets were handled and released exactly once;
    // the third was never looked at.
    let pts: Vec<i64> = rep.outcome.handled.iter().map(|p| p.pts).collect();
    assert_eq!(pts, vec![1, 2]);
    assert_eq!(rep.outcome.released, 2);
}

#[test]
fn backend_failure_ends_drain_as_encode_error() {
    let outcome = run_drain(vec![DrainEvent::Failed]);
    assert_eq!(outcome.status, DrainStatus::EncodeFailed);
    assert_eq!(outcome.released, 0);
    assert!(outcome.handled.is_empty());

    let outcome2 = run_drain(vec![
        DrainEvent::Packet(packet(1), true),
        DrainEvent::Failed,
    ]);
    assert_eq!(outcome2.status, DrainStatus::EncodeFailed);
    assert_eq!(outcome2.released, 1);
    assert_eq!(outcome2.handled.len(), 1);
}

#[test]
fn empty_drain_completes() {
    let outcome = run_drain(Vec::new());
    assert_eq!(outcome.status, DrainStatus::Completed);
    assert_eq!(outcome.released, 0);
    assert!(outcome.handled.is_empty());
}

#[test]
fn scaler_construction_failure_aborts_send() {
    let mut e = open_640x480(PixelFormat(0));
    // Incompatible, and no rescaler can be built from a zero-width source.
    let f = video_frame(0, 720, PixelFormat(1), 0);
    assert_eq!(e.send_frame(&f, Vec::new()).err(), Some(Error::ScalerInit));
    assert_eq!(e.scaler_builds(), 0);
    assert!(e.cached_scaler().is_none());
    assert!(e.scratch_frame().is_none());
}

#[test]
fn frame_allocation_checks_geometry() {
    assert_eq!(Frame::new(0, 480, PixelFormat(0)).err(), Some(Error::FrameAlloc));
    assert_eq!(Frame::new(640, 0, PixelFormat(0)).err(), Some(Error::FrameAlloc));
    assert_eq!(Frame::new(640, 480, PixelFormat(-1)).err(), Some(Error::FrameAlloc));
    let f = Frame::new(640, 480, PixelFormat(0)).unwrap();
    assert_eq!(f, video_frame(640, 480, PixelFormat(0), 0));
}

#[test]
fn scaler_construction_checks_both_ends() {
    assert_eq!(
        Scaler::new(0, 720, PixelFormat(1), 640, 480, PixelFormat(0)).err(),
        Some(Error::ScalerInit),
    );
    assert_eq!(
        Scaler::new(1280, 720, PixelFormat(1), 640, 0, PixelFormat(0)).err(),
        Some(Error::ScalerInit),
    );
    let s = Scaler::new(1280, 720, PixelFormat(1), 640, 480, PixelFormat(0)).unwrap();
    assert_eq!(s.source_width(), 1280);
    assert_eq!(s.source_height(), 720);
    assert_eq!(s.source_pixel_format(), PixelFormat(1));
}

#[test]
fn backend_allocation_failure_wraps() {
    let mut b = EncoderBuilder::from_codec(video_codec()).unwrap();
    b.width(640);
    b.height(480);
    b.pixel_format(PixelFormat(0));
    assert_eq!(
        b.open(OutputFormat { global_header: false }, OpenOutcome::AllocationFailed).err(),
        Some(Error::ContextAlloc),
    );
}

#[test]
fn backend_open_failure_wraps_its_code() {
    let mut b = EncoderBuilder::from_codec(video_codec()).unwrap();
    b.width(640);
    b.height(480);
    b.pixel_format(PixelFormat(0));
    assert_eq!(
        b.open(OutputFormat { global_header: false }, OpenOutcome::OpenFailed(-22)).err(),
        Some(Error::CodecOpen(-22)),
    );
}

#[test]
fn validation_precedes_backend_verdict() {
    // With a required field missing, the field's own error answers
    // whatever the backend verdict says: nothing was allocated for it.
    let mut b = EncoderBuilder::from_codec(video_codec()).unwrap();
    b.height(480);
    b.pixel_format(PixelFormat(0));
    assert_eq!(
        b.open(OutputFormat { global_header: false }, OpenOutcome::AllocationFailed).err(),
        Some(Error::WidthNotSet),
    );
    assert_eq!(b.configuration(OutputFormat { global_header: false }).err(), Some(Error::WidthNotSet));
}

#[test]
fn configuration_assembles_the_context_record() {
    let mut b = EncoderBuilder::from_codec(video_codec()).unwrap();
    b.width(640);
    b.height(480);
    b.pixel_format(PixelFormat(3));
    b.framerate(60);
    b.bitrate(1_000_000);
    let cfg = b.configuration(OutputFormat { global_header: true }).unwrap();
    assert_eq!(cfg.codec, video_codec());
    assert_eq!(cfg.width, 640);
    assert_eq!(cfg.height, 480);
    assert_eq!(cfg.pixel_format, PixelFormat(3));
    assert_eq!(cfg.time_base, Rational { num: 1, den: 60 });
    assert_eq!(cfg.bit_rate, Some(1_000_000));
    assert_eq!(cfg.flags, CODEC_FLAG_GLOBAL_HEADER);
}

#[test]
fn frame_compatibility_is_exact_equality() {
    let e = open_640x480(PixelFormat(0));
    assert!(video_frame(640, 480, PixelFormat(0), 9).is_compatible_with_encoder(&e));
    assert!(!video_frame(641, 480, PixelFormat(0), 9).is_compatible_with_encoder(&e));
    assert!(!video_frame(640, 481, PixelFormat(0), 9).is_compatible_with_encoder(&e));
    assert!(!video_frame(640, 480, PixelFormat(1), 9).is_compatible_with_encoder(&e));
}
