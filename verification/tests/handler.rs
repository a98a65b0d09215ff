use zeusix_desktop::capture::SessionRegistry;
use zeusix_desktop::handler::{deliver, CaptureFlags, Handler, ResolutionEvent};
use zeusix_desktop::mailbox::FrameMailbox;
use zeusix_desktop::pipeline::{convert, ConversionError, RawFrame};

struct Picture {
    data: Vec<u8>,
    width: u32,
    height: u32,
}

impl Picture {
    fn raw(&self) -> RawFrame<'_> {
        RawFrame {
            data: &self.data,
            width: self.width,
            height: self.height,
            row_pitch: self.width * 4,
        }
    }
}

fn solid_frame(width: u32, height: u32, shade: u8) -> Picture {
    Picture { data: vec![shade; (width * height * 4) as usize], width, height }
}

fn broken_frame() -> Picture {
    Picture { data: vec![0; 3], width: 4, height: 4 }
}

#[test]
fn new_handler_has_seen_nothing() {
    let handler = Handler::new(CaptureFlags { jpeg_quality: 80 });
    assert_eq!(handler.jpeg_quality(), 80);
    assert_eq!(handler.frame_count(), 0);
    assert_eq!(handler.last_dimensions(), None);
}

#[test]
fn note_frame_counts_and_tracks_dimensions() {
    let mut handler = Handler::new(CaptureFlags { jpeg_quality: 50 });
    assert_eq!(handler.note_frame(800, 600), ResolutionEvent::Initial);
    assert_eq!(handler.frame_count(), 1);
    assert_eq!(handler.last_dimensions(), Some((800, 600)));
    assert_eq!(handler.note_frame(800, 600), ResolutionEvent::Unchanged);
    assert_eq!(handler.note_frame(800, 601), ResolutionEvent::Changed);
    assert_eq!(handler.note_frame(801, 601), ResolutionEvent::Changed);
    assert_eq!(handler.frame_count(), 4);
    assert_eq!(handler.last_dimensions(), Some((801, 601)));
    assert_eq!(handler.jpeg_quality(), 50);
}

#[test]
fn a_first_frame_without_size_is_still_the_first() {
    let mut handler = Handler::new(CaptureFlags { jpeg_quality: 50 });
    assert_eq!(handler.note_frame(0, 0), ResolutionEvent::Initial);
    assert_eq!(handler.last_dimensions(), Some((0, 0)));
    assert_eq!(handler.note_frame(0, 0), ResolutionEvent::Unchanged);
    assert_eq!(handler.note_frame(4, 4), ResolutionEvent::Changed);
}

#[test]
fn deliver_publishes_an_image() {
    let mut mailbox = FrameMailbox::new();
    assert_eq!(deliver(&mut mailbox, Ok(vec![1, 2, 3])), Ok(3));
    assert_eq!(mailbox.read(), Some(vec![1, 2, 3]));
}

#[test]
fn deliver_keeps_the_mailbox_on_failure() {
    let mut mailbox = FrameMailbox::new();
    assert_eq!(
        deliver(&mut mailbox, Err(ConversionError::BufferSizeMismatch)),
        Err(ConversionError::BufferSizeMismatch)
    );
    assert_eq!(mailbox.read(), None);
    mailbox.publish(vec![4, 5]);
    assert_eq!(
        deliver(&mut mailbox, Err(ConversionError::Encoder("no".to_string()))),
        Err(ConversionError::Encoder("no".to_string()))
    );
    assert_eq!(mailbox.read(), Some(vec![4, 5]));
}

#[test]
fn a_frame_is_encoded_and_published() {
    let mut handler = Handler::new(CaptureFlags { jpeg_quality: 80 });
    let mut mailbox = FrameMailbox::new();
    let frame = solid_frame(16, 16, 200);
    let report = handler.on_frame_arrived(&frame.raw(), &mut mailbox);
    assert_eq!(report.frame_number, 1);
    assert_eq!(report.resolution, ResolutionEvent::Initial);
    let published = mailbox.read().unwrap();
    assert_eq!(report.outcome, Ok(published.len()));
    let mut scratch = Vec::new();
    assert_eq!(published, convert(&frame.raw(), 80, &mut scratch).unwrap());
}

#[test]
fn a_published_frame_is_a_jpeg_image() {
    let mut handler = Handler::new(CaptureFlags { jpeg_quality: 80 });
    let mut mailbox = FrameMailbox::new();
    handler.on_frame_arrived(&solid_frame(32, 24, 90).raw(), &mut mailbox);
    let bytes = mailbox.read_or_empty();
    assert!(!bytes.is_empty());
    assert_eq!(&bytes[..2], &[0xFF, 0xD8]);
    assert_eq!(&bytes[bytes.len() - 2..], &[0xFF, 0xD9]);
    let decoded = image::load_from_memory_with_format(&bytes, image::ImageFormat::Jpeg).unwrap();
    assert_eq!((decoded.width(), decoded.height()), (32, 24));
}

#[test]
fn the_handlers_quality_is_used() {
    let frame = solid_frame(16, 16, 77);
    let mut scratch = Vec::new();
    for quality in [10u8, 60, 100] {
        let mut handler = Handler::new(CaptureFlags { jpeg_quality: quality });
        let mut mailbox = FrameMailbox::new();
        handler.on_frame_arrived(&frame.raw(), &mut mailbox);
        assert_eq!(mailbox.read().unwrap(), convert(&frame.raw(), quality, &mut scratch).unwrap());
    }
}

#[test]
fn nothing_is_read_before_a_frame_is_encoded() {
    let mut handler = Handler::new(CaptureFlags { jpeg_quality: 80 });
    let mut mailbox = FrameMailbox::new();
    assert_eq!(mailbox.read_or_empty(), Vec::<u8>::new());
    let report = handler.on_frame_arrived(&broken_frame().raw(), &mut mailbox);
    assert_eq!(report.outcome, Err(ConversionError::BufferSizeMismatch));
    let report = handler.on_frame_arrived(&solid_frame(0, 0, 0).raw(), &mut mailbox);
    assert!(matches!(report.outcome, Err(ConversionError::Encoder(_))));
    assert!(mailbox.is_empty());
    assert_eq!(mailbox.read_or_empty(), Vec::<u8>::new());
    assert_eq!(handler.frame_count(), 2);
}

#[test]
fn a_dropped_frame_does_not_stop_later_frames() {
    let mut handler = Handler::new(CaptureFlags { jpeg_quality: 80 });
    let mut mailbox = FrameMailbox::new();
    let first = solid_frame(8, 8, 10);
    let second = solid_frame(8, 8, 240);
    handler.on_frame_arrived(&first.raw(), &mut mailbox);
    let kept = mailbox.read().unwrap();
    let report = handler.on_frame_arrived(&broken_frame().raw(), &mut mailbox);
    assert_eq!(report.frame_number, 2);
    assert_eq!(report.outcome, Err(ConversionError::BufferSizeMismatch));
    assert_eq!(mailbox.read(), Some(kept.clone()));
    let report = handler.on_frame_arrived(&second.raw(), &mut mailbox);
    assert_eq!(report.frame_number, 3);
    assert!(report.outcome.is_ok());
    let mut scratch = Vec::new();
    let expected = convert(&second.raw(), 80, &mut scratch).unwrap();
    assert_eq!(mailbox.read(), Some(expected.clone()));
    assert_ne!(expected, kept);
}

#[test]
fn an_encoder_failure_does_not_stop_later_frames() {
    let mut handler = Handler::new(CaptureFlags { jpeg_quality: 80 });
    let mut mailbox = FrameMailbox::new();
    let wide = Picture { data: vec![0; 65536 * 4], width: 65536, height: 1 };
    let report = handler.on_frame_arrived(&wide.raw(), &mut mailbox);
    assert!(matches!(report.outcome, Err(ConversionError::Encoder(_))));
    assert_eq!(report.resolution, ResolutionEvent::Initial);
    assert!(mailbox.is_empty());
    let report = handler.on_frame_arrived(&solid_frame(8, 8, 1).raw(), &mut mailbox);
    assert!(report.outcome.is_ok());
    assert_eq!(report.resolution, ResolutionEvent::Changed);
    assert!(!mailbox.is_empty());
}

#[test]
fn a_dropped_frame_still_counts_and_sets_the_dimensions() {
    let mut handler = Handler::new(CaptureFlags { jpeg_quality: 80 });
    let mut mailbox = FrameMailbox::new();
    let report = handler.on_frame_arrived(&broken_frame().raw(), &mut mailbox);
    assert_eq!(report.frame_number, 1);
    assert_eq!(report.resolution, ResolutionEvent::Initial);
    assert_eq!(handler.last_dimensions(), Some((4, 4)));
    let report = handler.on_frame_arrived(&solid_frame(4, 4, 9).raw(), &mut mailbox);
    assert_eq!(report.resolution, ResolutionEvent::Unchanged);
}

#[test]
fn closing_ends_the_capture_and_reports_the_frames() {
    let mut handler = Handler::new(CaptureFlags { jpeg_quality: 80 });
    let mut mailbox = FrameMailbox::new();
    let mut registry: SessionRegistry<u32> = SessionRegistry::new();
    registry.install(7);
    handler.on_frame_arrived(&solid_frame(8, 8, 3).raw(), &mut mailbox);
    handler.on_frame_arrived(&solid_frame(8, 8, 4).raw(), &mut mailbox);
    assert!(registry.is_capturing());
    assert_eq!(handler.on_closed(&mut registry), 2);
    assert!(!registry.is_capturing());
    assert!(registry.has_session());
    assert!(!mailbox.is_empty());
}

#[test]
fn processing_leaves_the_mailbox_to_the_caller() {
    let mut handler = Handler::new(CaptureFlags { jpeg_quality: 80 });
    let mut mailbox = FrameMailbox::new();
    let picture = solid_frame(8, 8, 50);
    let processed = handler.process(&picture.raw());
    assert_eq!(processed.frame_number, 1);
    assert_eq!(processed.resolution, ResolutionEvent::Initial);
    assert!(mailbox.is_empty());
    let mut scratch = Vec::new();
    let expected = convert(&picture.raw(), 80, &mut scratch).unwrap();
    assert_eq!(processed.conversion, Ok(expected.clone()));
    assert_eq!(deliver(&mut mailbox, processed.conversion), Ok(expected.len()));
    assert_eq!(mailbox.read(), Some(expected));
    let processed = handler.process(&broken_frame().raw());
    assert_eq!(processed.frame_number, 2);
    assert_eq!(processed.conversion, Err(ConversionError::BufferSizeMismatch));
}
