//! The capture callback's side of a session: per-frame bookkeeping,
//! conversion and hand-over to the mailbox.

use crate::capture::{source_gone, SessionRegistry};
use crate::mailbox::FrameMailbox;
use crate::pipeline::{
    convert, converted, convertible, jpeg_dimensions_ok, jpeg_framed, raw_len, ConversionError,
    RawFrame,
};
use vstd::prelude::*;

verus! {

/// What a session's callback is started with.
#[derive(Clone, Copy, Debug, PartialEq, Eq, Structural)]
pub struct CaptureFlags {
    pub jpeg_quality: u8,
}

/// How a frame's dimensions relate to those of the frame before it.
#[derive(Clone, Copy, Debug, PartialEq, Eq, Structural)]
pub enum ResolutionEvent {
    /// The same dimensions as the frame before.
    Unchanged,
    /// The first frame of the session: no dimensions were known.
    Initial,
    /// The dimensions differ from those of the frame before.
    Changed,
}

/// What happened to one frame.
#[derive(Debug, PartialEq, Eq)]
pub struct FrameReport {
    /// The running number of the frame within its session, from one.
    pub frame_number: u64,
    pub resolution: ResolutionEvent,
    /// The length of the image that was published, or why the frame was
    /// dropped.
    pub outcome: Result<usize, ConversionError>,
}

/// What the conversion of one frame gave, before it is handed to the mailbox.
#[derive(Debug, PartialEq, Eq)]
pub struct ProcessedFrame {
    /// The running number of the frame within its session, from one.
    pub frame_number: u64,
    pub resolution: ResolutionEvent,
    /// The encoded image, or why the frame is dropped.
    pub conversion: Result<Vec<u8>, ConversionError>,
}

/// The state that the capture callback owns for the lifetime of a session.
pub struct Handler {
    jpeg_quality: u8,
    rgb_buf: Vec<u8>,
    frame_count: u64,
    last_width: u32,
    last_height: u32,
}

pub struct HandlerView {
    pub jpeg_quality: u8,
    pub frame_count: u64,
    pub last_width: u32,
    pub last_height: u32,
}

impl View for Handler {
    type V = HandlerView;

    closed spec fn view(&self) -> HandlerView {
        HandlerView {
            jpeg_quality: self.jpeg_quality,
            frame_count: self.frame_count,
            last_width: self.last_width,
            last_height: self.last_height,
        }
    }
}

/// The frame count after one more frame; it stops at the largest number.
pub open spec fn next_count(count: u64) -> u64 {
    if count < u64::MAX {
        (count + 1) as u64
    } else {
        count
    }
}

/// What a frame of the given dimensions means to a handler in state `before`.
pub open spec fn resolution_event(before: HandlerView, width: u32, height: u32) -> ResolutionEvent {
    if before.frame_count == 0 {
        ResolutionEvent::Initial
    } else if width != before.last_width || height != before.last_height {
        ResolutionEvent::Changed
    } else {
        ResolutionEvent::Unchanged
    }
}

/// The handler's state after a frame of the given dimensions.
pub open spec fn after_frame(before: HandlerView, width: u32, height: u32) -> HandlerView {
    HandlerView {
        jpeg_quality: before.jpeg_quality,
        frame_count: next_count(before.frame_count),
        last_width: width,
        last_height: height,
    }
}

/// The slot after one conversion: a new image replaces what was there, a
/// dropped frame leaves it alone.
pub open spec fn delivered(slot: Option<Seq<u8>>, image: Option<Seq<u8>>) -> Option<Seq<u8>> {
    match image {
        Some(bytes) => Some(bytes),
        None => slot,
    }
}

/// Hands the result of a conversion to the mailbox.
pub fn deliver(mailbox: &mut FrameMailbox, conversion: Result<Vec<u8>, ConversionError>) -> (outcome:
    Result<usize, ConversionError>)
    ensures
        match conversion {
            Ok(bytes) => final(mailbox)@ == Some(bytes@) && outcome == Ok::<usize, ConversionError>(
                bytes.len(),
            ),
            Err(e) => final(mailbox)@ == old(mailbox)@ && outcome == Err::<usize, ConversionError>(
                e,
            ),
        },
{
    match conversion {
        Ok(bytes) => {
            let len = bytes.len();
            mailbox.publish(bytes);
            Ok(len)
        },
        Err(e) => Err(e),
    }
}

impl Handler {
    /// The state of a session that has seen no frame yet.
    pub fn new(flags: CaptureFlags) -> (handler: Self)
        ensures
            handler@ == (HandlerView {
                jpeg_quality: flags.jpeg_quality,
                frame_count: 0,
                last_width: 0,
                last_height: 0,
            }),
    {
        Handler {
            jpeg_quality: flags.jpeg_quality,
            rgb_buf: Vec::new(),
            frame_count: 0,
            last_width: 0,
            last_height: 0,
        }
    }

    /// The quality that images are encoded at.
    pub fn jpeg_quality(&self) -> (quality: u8)
        ensures
            quality == self@.jpeg_quality,
    {
        self.jpeg_quality
    }

    /// The number of frames seen so far.
    pub fn frame_count(&self) -> (count: u64)
        ensures
            count == self@.frame_count,
    {
        self.frame_count
    }

    /// The dimensions of the latest frame, or `None` before the first.
    pub fn last_dimensions(&self) -> (dimensions: Option<(u32, u32)>)
        ensures
            dimensions == if self@.frame_count == 0 {
                None
            } else {
                Some((self@.last_width, self@.last_height))
            },
    {
        if self.frame_count == 0 {
            None
        } else {
            Some((self.last_width, self.last_height))
        }
    }

    /// Counts the frame and records its dimensions.
    pub fn note_frame(&mut self, width: u32, height: u32) -> (event: ResolutionEvent)
        ensures
            final(self)@ == after_frame(old(self)@, width, height),
            event == resolution_event(old(self)@, width, height),
    {
        let event = if self.frame_count == 0 {
            ResolutionEvent::Initial
        } else if width != self.last_width || height != self.last_height {
            ResolutionEvent::Changed
        } else {
            ResolutionEvent::Unchanged
        };
        if self.frame_count < u64::MAX {
            self.frame_count = self.frame_count + 1;
        }
        self.last_width = width;
        self.last_height = height;
        event
    }

    /// Counts the frame and converts it at the session's quality, without
    /// touching the mailbox. What earlier frames did has no part in the
    /// result.
    pub fn process(&mut self, frame: &RawFrame) -> (processed: ProcessedFrame)
        ensures
            final(self)@ == after_frame(old(self)@, frame.width, frame.height),
            processed.frame_number == final(self)@.frame_count,
            processed.resolution == resolution_event(old(self)@, frame.width, frame.height),
            processed.conversion is Ok <==> convertible(*frame),
            processed.conversion is Ok <==> converted(*frame, old(self)@.jpeg_quality) is Some,
            processed.conversion matches Ok(bytes) ==> converted(*frame, old(self)@.jpeg_quality)
                == Some(bytes@) && jpeg_framed(bytes@),
            processed.conversion is Err ==> converted(*frame, old(self)@.jpeg_quality) is None,
            processed.conversion matches Err(ConversionError::BufferSizeMismatch)
                ==> frame.data@.len() != raw_len(frame.width, frame.height, frame.row_pitch),
            processed.conversion matches Err(ConversionError::Encoder(_)) ==> frame.data@.len()
                == raw_len(frame.width, frame.height, frame.row_pitch) && !jpeg_dimensions_ok(
                frame.width,
                frame.height,
            ),
    {
        let resolution = self.note_frame(frame.width, frame.height);
        let conversion = convert(frame, self.jpeg_quality, &mut self.rgb_buf);
        ProcessedFrame { frame_number: self.frame_count, resolution, conversion }
    }

    /// The callback for one frame: counts it, converts it and publishes the
    /// image. A frame that cannot be converted is dropped and leaves the
    /// mailbox as it was; the handler stays ready for the next frame.
    pub fn on_frame_arrived(&mut self, frame: &RawFrame, mailbox: &mut FrameMailbox) -> (report:
        FrameReport)
        ensures
            final(self)@ == after_frame(old(self)@, frame.width, frame.height),
            report.frame_number == final(self)@.frame_count,
            report.resolution == resolution_event(old(self)@, frame.width, frame.height),
            final(mailbox)@ == delivered(
                old(mailbox)@,
                converted(*frame, old(self)@.jpeg_quality),
            ),
            report.outcome is Ok <==> convertible(*frame),
            report.outcome is Ok <==> converted(*frame, old(self)@.jpeg_quality) is Some,
            report.outcome is Ok ==> final(mailbox)@ == converted(
                *frame,
                old(self)@.jpeg_quality,
            ),
            report.outcome is Err ==> converted(*frame, old(self)@.jpeg_quality) is None
                && final(mailbox)@ == old(mailbox)@,
            report.outcome matches Ok(len) ==> final(mailbox)@ matches Some(bytes) && bytes.len()
                == len && jpeg_framed(bytes),
            report.outcome matches Err(ConversionError::BufferSizeMismatch) ==> frame.data@.len()
                != raw_len(frame.width, frame.height, frame.row_pitch),
            report.outcome matches Err(ConversionError::Encoder(_)) ==> frame.data@.len()
                == raw_len(frame.width, frame.height, frame.row_pitch) && !jpeg_dimensions_ok(
                frame.width,
                frame.height,
            ),
    {
        let processed = self.process(frame);
        let outcome = deliver(mailbox, processed.conversion);
        FrameReport {
            frame_number: processed.frame_number,
            resolution: processed.resolution,
            outcome,
        }
    }

    /// The callback for the end of the session's source: the registry stops
    /// reporting a capture. Returns the number of frames the session saw.
    pub fn on_closed<H>(&self, registry: &mut SessionRegistry<H>) -> (frames: u64)
        ensures
            final(registry)@ == source_gone(old(registry)@),
            frames == self@.frame_count,
    {
        registry.on_closed();
        self.frame_count
    }
}

} // verus!
