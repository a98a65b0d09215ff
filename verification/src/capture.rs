//! The control side of screen capture: the registry that holds at most one
//! session, and the operations offered at the boundary. The capture driver
//! itself stays outside: these functions decide, the caller enumerates,
//! opens and halts.

use crate::handler::CaptureFlags;
use crate::mailbox::{frame_or_empty, FrameMailbox};
use crate::session::{frame_after, registry_after, CaptureEvent};
use crate::source::{
    law_listed_window_resolves, listed_sources, monitor_info, monitor_sources, nth_selectable,
    push_monitor_sources, push_window_sources, selectable, selectable_count,
    selectable_position, source_views, window_info, window_sources, CaptureSource,
    CaptureSourceView, MonitorProbe, SourceKind, WindowProbe,
};
use crate::text::{decimal, push_decimal, str_eq};
use vstd::prelude::*;
use vstd::string::StringExecFns;

verus! {

/// The update interval that is asked for where no frame rate is given.
pub const FALLBACK_INTERVAL_MS: u64 = 33;

/// The highest JPEG quality.
pub const MAX_JPEG_QUALITY: u8 = 100;

/// Why a boundary operation failed.
#[derive(Clone, Debug, PartialEq, Eq)]
pub enum CaptureError {
    /// The source type is neither `monitor` nor `window`.
    UnknownSourceType(String),
    /// The JPEG quality lies above 100.
    InvalidQuality(u8),
    /// The operating system could not list the sources; its own words.
    EnumerationFailed(String),
    /// There are not that many monitors.
    MonitorNotFound(usize),
    /// There are not that many selectable windows.
    WindowNotFound(usize),
    /// The operating system could not open the capture; its own words.
    OpenFailed(String),
    /// The platform has no capture interface.
    Unsupported,
}

/// One running capture, known by the handle that halts it.
pub struct CaptureSession<H> {
    pub capture_control: H,
}

/// Holder of at most one capture session.
pub struct SessionRegistry<H> {
    session: Option<CaptureSession<H>>,
    capturing: bool,
}

pub struct RegistryView<H> {
    /// The handle of the session that is installed, if any.
    pub session: Option<H>,
    /// Whether that session is delivering frames.
    pub capturing: bool,
}

impl<H> View for SessionRegistry<H> {
    type V = RegistryView<H>;

    closed spec fn view(&self) -> RegistryView<H> {
        RegistryView {
            session: match self.session {
                Some(s) => Some(s.capture_control),
                None => None,
            },
            capturing: self.capturing && self.session is Some,
        }
    }
}

/// The registry without a session.
pub open spec fn idle<H>() -> RegistryView<H> {
    RegistryView { session: None, capturing: false }
}

/// The registry with the session of handle `handle` running.
pub open spec fn active<H>(handle: H) -> RegistryView<H> {
    RegistryView { session: Some(handle), capturing: true }
}

/// The registry after its source has gone away: the handle stays until the
/// next stop, but nothing is captured.
pub open spec fn source_gone<H>(before: RegistryView<H>) -> RegistryView<H> {
    RegistryView { session: before.session, capturing: false }
}

/// A registry never reports capturing without a session.
pub open spec fn registry_valid<H>(registry: RegistryView<H>) -> bool {
    registry.capturing ==> registry.session is Some
}

impl<H> SessionRegistry<H> {
    /// A registry without a session.
    pub fn new() -> (registry: Self)
        ensures
            registry@ == idle::<H>(),
    {
        SessionRegistry { session: None, capturing: false }
    }

    /// Whether a session is delivering frames.
    pub fn is_capturing(&self) -> (capturing: bool)
        ensures
            capturing == self@.capturing,
            registry_valid(self@),
    {
        self.capturing && self.session.is_some()
    }

    /// Whether a session is installed, running or not.
    pub fn has_session(&self) -> (installed: bool)
        ensures
            installed == (self@.session is Some),
    {
        self.session.is_some()
    }

    /// Removes the session, if there is one, and hands out its handle so
    /// that the caller halts it.
    pub fn stop_active(&mut self) -> (halted: Option<H>)
        ensures
            halted == old(self)@.session,
            final(self)@ == idle::<H>(),
    {
        self.capturing = false;
        match self.session.take() {
            Some(session) => Some(session.capture_control),
            None => None,
        }
    }

    /// Installs the session of `handle` as the running one and hands out the
    /// handle that it displaces, if any, so that the caller halts it.
    pub fn install(&mut self, handle: H) -> (displaced: Option<H>)
        ensures
            displaced == old(self)@.session,
            final(self)@ == active(handle),
    {
        let displaced = match self.session.take() {
            Some(session) => Some(session.capture_control),
            None => None,
        };
        self.session = Some(CaptureSession { capture_control: handle });
        self.capturing = true;
        displaced
    }

    /// The source of the session has gone away: nothing is captured any more.
    pub fn on_closed(&mut self)
        ensures
            final(self)@ == source_gone(old(self)@),
            final(self)@ == registry_after(old(self)@, CaptureEvent::Closed),
    {
        self.capturing = false;
    }
}

/// What a capture is started with, once the request has been checked.
#[derive(Clone, Copy, Debug, PartialEq, Eq, Structural)]
pub struct CaptureSettings {
    pub kind: SourceKind,
    /// The index of the source among those of its kind that can be selected.
    pub source_index: usize,
    /// Frames per second that are asked for; zero asks for the fallback.
    pub target_fps: u32,
    /// JPEG quality, from 0 to 100.
    pub jpeg_quality: u8,
}

/// How windows that belong to the captured one are treated.
#[derive(Clone, Copy, Debug, PartialEq, Eq, Structural)]
pub enum SecondaryWindows {
    /// As the operating system does by default.
    Default,
    Include,
    Exclude,
}

/// The layout of the pixels that the capture driver delivers.
#[derive(Clone, Copy, Debug, PartialEq, Eq, Structural)]
pub enum PixelFormat {
    /// Four bytes per pixel: red, green, blue, alpha.
    Rgba8,
    /// Four bytes per pixel: blue, green, red, alpha.
    Bgra8,
}

/// How the capture driver is to open a source.
#[derive(Clone, Copy, Debug, PartialEq, Eq, Structural)]
pub struct OpenRequest {
    pub kind: SourceKind,
    /// The position of the source in a fresh enumeration of its kind.
    pub position: usize,
    pub include_cursor: bool,
    pub draw_border: bool,
    pub secondary_windows: SecondaryWindows,
    pub min_update_interval_ms: u64,
    pub pixel_format: PixelFormat,
    pub flags: CaptureFlags,
}

/// The first step of a start: the handle that the caller has to halt, and
/// the settings to go on with or the reason to give up.
pub struct StartStep<H> {
    pub halted: Option<H>,
    pub settings: Result<CaptureSettings, CaptureError>,
}

/// The last step of a start.
pub struct StartOutcome<H> {
    /// A handle that the new session displaced; the caller halts it.
    pub displaced: Option<H>,
    pub result: Result<(), CaptureError>,
}

/// The category that a source type names.
pub open spec fn source_kind_of(source_type: Seq<char>) -> Option<SourceKind> {
    if source_type == "monitor"@ {
        Some(SourceKind::Monitor)
    } else if source_type == "window"@ {
        Some(SourceKind::Window)
    } else {
        None
    }
}

/// The time between two frames at `fps` frames per second, in milliseconds.
pub open spec fn frame_interval(fps: u32) -> u64 {
    if fps > 0 {
        (1000int / fps as int) as u64
    } else {
        FALLBACK_INTERVAL_MS
    }
}

/// The settings that a start with these arguments goes on with, or `None`
/// where the arguments are refused.
pub open spec fn accepted_settings(
    source_type: Seq<char>,
    source_index: usize,
    fps: u32,
    jpeg_quality: u8,
) -> Option<CaptureSettings> {
    match source_kind_of(source_type) {
        Some(kind) => if jpeg_quality <= MAX_JPEG_QUALITY {
            Some(CaptureSettings { kind, source_index, target_fps: fps, jpeg_quality })
        } else {
            None
        },
        None => None,
    }
}

/// How the source at `position` is opened under `settings`: with the
/// cursor, without a border, secondary windows as by default, frames no
/// closer together than the frame interval, pixels as RGBA.
pub open spec fn open_request_of(settings: CaptureSettings, position: usize) -> OpenRequest {
    OpenRequest {
        kind: settings.kind,
        position,
        include_cursor: true,
        draw_border: false,
        secondary_windows: SecondaryWindows::Default,
        min_update_interval_ms: frame_interval(settings.target_fps),
        pixel_format: PixelFormat::Rgba8,
        flags: CaptureFlags { jpeg_quality: settings.jpeg_quality },
    }
}

/// The text that the boundary shows for an error.
pub open spec fn error_text(error: CaptureError) -> Seq<char> {
    match error {
        CaptureError::UnknownSourceType(t) => "Unknown source type: "@ + t@,
        CaptureError::InvalidQuality(q) => "JPEG quality "@ + decimal(q as nat)
            + " is out of range (0-100)"@,
        CaptureError::EnumerationFailed(t) => t@,
        CaptureError::MonitorNotFound(i) => "Monitor index "@ + decimal(i as nat) + " not found"@,
        CaptureError::WindowNotFound(i) => "Window index "@ + decimal(i as nat) + " not found"@,
        CaptureError::OpenFailed(t) => t@,
        CaptureError::Unsupported => "Native screen capture is only available on Windows"@,
    }
}

impl CaptureError {
    /// The text that the boundary shows for this error.
    pub fn message(&self) -> (text: String)
        ensures
            text@ == error_text(*self),
    {
        match self {
            CaptureError::UnknownSourceType(t) => {
                let mut text = "Unknown source type: ".to_owned();
                text.append(t.as_str());
                text
            },
            CaptureError::InvalidQuality(q) => {
                let mut text = "JPEG quality ".to_owned();
                push_decimal(&mut text, *q as u64);
                text.append(" is out of range (0-100)");
                text
            },
            CaptureError::EnumerationFailed(t) => t.clone(),
            CaptureError::MonitorNotFound(i) => {
                let mut text = "Monitor index ".to_owned();
                push_decimal(&mut text, *i as u64);
                text.append(" not found");
                text
            },
            CaptureError::WindowNotFound(i) => {
                let mut text = "Window index ".to_owned();
                push_decimal(&mut text, *i as u64);
                text.append(" not found");
                text
            },
            CaptureError::OpenFailed(t) => t.clone(),
            CaptureError::Unsupported => {
                "Native screen capture is only available on Windows".to_owned()
            },
        }
    }
}

/// The category that `source_type` names: `monitor` or `window`.
pub fn parse_source_kind(source_type: &str) -> (kind: Option<SourceKind>)
    ensures
        kind == source_kind_of(source_type@),
{
    if str_eq(source_type, "monitor") {
        Some(SourceKind::Monitor)
    } else if str_eq(source_type, "window") {
        Some(SourceKind::Window)
    } else {
        None
    }
}

/// The time between two frames at `fps` frames per second, in milliseconds;
/// the fallback interval where `fps` is zero.
pub fn frame_interval_ms(fps: u32) -> (interval: u64)
    ensures
        interval == frame_interval(fps),
{
    if fps > 0 {
        1000 / fps as u64
    } else {
        FALLBACK_INTERVAL_MS
    }
}

/// Lists the capture sources from what the operating system reported: the
/// monitors first, then the windows that have a valid handle and a title.
/// Each entry carries the index that a start selects it by: its place among
/// the listed sources of its kind. A category that could not be enumerated
/// contributes nothing; the call fails only where neither could, and then
/// with the monitors' error.
pub fn enumerate_capture_sources(
    monitors: Result<Vec<MonitorProbe>, String>,
    windows: Result<Vec<WindowProbe>, String>,
) -> (r: Result<Vec<CaptureSource>, CaptureError>)
    ensures
        r is Err <==> monitors is Err && windows is Err,
        r matches Err(e) ==> monitors matches Err(text) && e == CaptureError::EnumerationFailed(
            text,
        ),
        r matches Ok(sources) ==> source_views(sources@) == listed_sources(
            match monitors {
                Ok(m) => Some(m@),
                Err(_) => None,
            },
            match windows {
                Ok(w) => Some(w@),
                Err(_) => None,
            },
        ),
{
    let mut sources: Vec<CaptureSource> = Vec::new();
    assert(source_views(sources@) =~= Seq::empty());
    match monitors {
        Ok(m) => {
            push_monitor_sources(&mut sources, &m);
            match windows {
                Ok(w) => {
                    push_window_sources(&mut sources, &w);
                },
                Err(_) => {},
            }
            Ok(sources)
        },
        Err(text) => match windows {
            Ok(w) => {
                push_window_sources(&mut sources, &w);
                Ok(sources)
            },
            Err(_) => Err(CaptureError::EnumerationFailed(text)),
        },
    }
}

/// Begins a start: whatever session is installed is removed first and the
/// mailbox emptied, whether or not the request is then accepted. The source
/// type has to be `monitor` or `window` and the quality at most 100.
///
/// The caller halts the handle that is handed out, enumerates the sources
/// of the settings' kind afresh, resolves the index with `resolve_monitor`
/// or `resolve_window`, opens the source as `CaptureSettings::open_request`
/// says, and ends the start with `complete_start`.
pub fn start_capture<H>(
    registry: &mut SessionRegistry<H>,
    mailbox: &mut FrameMailbox,
    source_type: String,
    source_index: usize,
    fps: u32,
    jpeg_quality: u8,
) -> (step: StartStep<H>)
    ensures
        step.halted == old(registry)@.session,
        final(registry)@ == idle::<H>(),
        final(mailbox)@ is None,
        final(registry)@ == registry_after(old(registry)@, CaptureEvent::Stopped),
        final(mailbox)@ == frame_after(old(mailbox)@, CaptureEvent::<H>::Stopped),
        match step.settings {
            Ok(settings) => accepted_settings(source_type@, source_index, fps, jpeg_quality)
                == Some(settings),
            Err(CaptureError::UnknownSourceType(t)) => source_kind_of(source_type@) is None && t@
                == source_type@,
            Err(CaptureError::InvalidQuality(q)) => source_kind_of(source_type@) is Some
                && jpeg_quality > MAX_JPEG_QUALITY && q == jpeg_quality,
            Err(_) => false,
        },
{
    let halted = stop_capture(registry, mailbox);
    let settings = match parse_source_kind(source_type.as_str()) {
        None => Err(CaptureError::UnknownSourceType(source_type)),
        Some(kind) => if jpeg_quality > MAX_JPEG_QUALITY {
            Err(CaptureError::InvalidQuality(jpeg_quality))
        } else {
            Ok(CaptureSettings { kind, source_index, target_fps: fps, jpeg_quality })
        },
    };
    StartStep { halted, settings }
}

/// What a monitor index resolves to among `count` monitors: its own
/// position, if there are that many.
pub open spec fn monitor_resolution(source_index: usize, count: usize) -> Result<
    usize,
    CaptureError,
> {
    if source_index < count {
        Ok(source_index)
    } else {
        Err(CaptureError::MonitorNotFound(source_index))
    }
}

/// What a window index resolves to among the windows reported: the
/// position of the selectable window that has `source_index` selectable
/// windows before it, if there is one.
pub open spec fn window_resolution(source_index: usize, probes: Seq<WindowProbe>) -> Result<
    usize,
    CaptureError,
> {
    match selectable_position(probes, source_index as int, probes.len() as int) {
        Some(position) => Ok(position as usize),
        None => Err(CaptureError::WindowNotFound(source_index)),
    }
}

/// Resolves a monitor index against a fresh enumeration that found `count`
/// monitors, or failed with the operating system's words.
pub fn resolve_monitor(source_index: usize, monitors: Result<usize, String>) -> (r: Result<
    usize,
    CaptureError,
>)
    ensures
        match monitors {
            Ok(count) => r == monitor_resolution(source_index, count),
            Err(text) => r == Err::<usize, CaptureError>(CaptureError::EnumerationFailed(text)),
        },
{
    match monitors {
        Ok(count) => if source_index < count {
            Ok(source_index)
        } else {
            Err(CaptureError::MonitorNotFound(source_index))
        },
        Err(text) => Err(CaptureError::EnumerationFailed(text)),
    }
}

/// Resolves a window index against a fresh enumeration: the index counts
/// the selectable windows only, as the index of a listed window does; the
/// result is the position among all that were reported.
pub fn resolve_window(source_index: usize, windows: Result<Vec<WindowProbe>, String>) -> (r: Result<
    usize,
    CaptureError,
>)
    ensures
        match windows {
            Ok(probes) => r == window_resolution(source_index, probes@) && (match r {
                Ok(position) => position < probes@.len() && selectable(probes@[position as int])
                    && selectable_count(probes@, position as int) == source_index,
                Err(e) => selectable_count(probes@, probes@.len() as int) <= source_index,
            }),
            Err(text) => r == Err::<usize, CaptureError>(CaptureError::EnumerationFailed(text)),
        },
{
    match windows {
        Ok(probes) => match nth_selectable(&probes, source_index) {
            Some(position) => Ok(position),
            None => Err(CaptureError::WindowNotFound(source_index)),
        },
        Err(text) => Err(CaptureError::EnumerationFailed(text)),
    }
}

/// A start with the index of a listed monitor selects that monitor: the
/// entry at place `k` carries an index that resolves, against the same
/// monitors, to the position of the monitor that the entry describes.
pub proof fn law_listed_monitor_is_selected(probes: Seq<MonitorProbe>, k: int)
    requires
        probes.len() <= usize::MAX,
        0 <= k < monitor_sources(probes).len(),
    ensures
        monitor_sources(probes)[k] is Monitor,
        monitor_resolution(monitor_sources(probes)[k]->Monitor_0.index, probes.len() as usize)
            == Ok::<usize, CaptureError>(k as usize),
        monitor_sources(probes)[k] == CaptureSourceView::Monitor(monitor_info(k, probes[k])),
{
}

/// A start with the index of a listed window selects that window: the
/// entry at place `k` among the windows carries an index that resolves,
/// against the same windows, to the position of a selectable window, and
/// the entry is the one made for that window. Windows that are invalid or
/// have no title take no index.
pub proof fn law_listed_window_is_selected(probes: Seq<WindowProbe>, k: int)
    requires
        probes.len() <= usize::MAX,
        0 <= k < window_sources(probes, probes.len() as int).len(),
    ensures
        window_sources(probes, probes.len() as int)[k] is Window,
        window_sources(probes, probes.len() as int)[k]->Window_0.index == k,
        window_resolution(
            window_sources(probes, probes.len() as int)[k]->Window_0.index,
            probes,
        ) is Ok,
        ({
            let entry = window_sources(probes, probes.len() as int)[k];
            let position = window_resolution(entry->Window_0.index, probes)->Ok_0 as int;
            &&& 0 <= position < probes.len()
            &&& selectable(probes[position])
            &&& entry == CaptureSourceView::Window(
                window_info(entry->Window_0.index as int, probes[position]),
            )
        }),
{
    law_listed_window_resolves(probes, probes.len() as int, k);
}

/// Every entry of the list is selected by the kind and the index it
/// carries: resolved against the same report, the index of a monitor entry
/// gives the position of the monitor that the entry describes, and the
/// index of a window entry the position of the selectable window that the
/// entry describes.
pub proof fn law_listed_source_is_selected(
    monitors: Option<Seq<MonitorProbe>>,
    windows: Option<Seq<WindowProbe>>,
    place: int,
)
    requires
        monitors matches Some(m) ==> m.len() <= usize::MAX,
        windows matches Some(w) ==> w.len() <= usize::MAX,
        0 <= place < listed_sources(monitors, windows).len(),
    ensures
        match listed_sources(monitors, windows)[place] {
            CaptureSourceView::Monitor(info) => {
                &&& monitors is Some
                &&& monitor_resolution(info.index, monitors->0.len() as usize) is Ok
                &&& info.index < monitors->0.len()
                &&& info == monitor_info(info.index as int, monitors->0[info.index as int])
            },
            CaptureSourceView::Window(info) => {
                let position = window_resolution(info.index, windows->0)->Ok_0 as int;
                &&& windows is Some
                &&& window_resolution(info.index, windows->0) is Ok
                &&& 0 <= position < windows->0.len()
                &&& selectable(windows->0[position])
                &&& info == window_info(info.index as int, windows->0[position])
            },
        },
{
    let first = match monitors {
        Some(m) => monitor_sources(m),
        None => Seq::empty(),
    };
    if place < first.len() {
        law_listed_monitor_is_selected(monitors->0, place);
    } else {
        law_listed_window_is_selected(windows->0, place - first.len());
    }
}

impl CaptureSettings {
    /// The minimum time between two frames, in milliseconds.
    pub fn frame_interval_ms(&self) -> (interval: u64)
        ensures
            interval == frame_interval(self.target_fps),
    {
        frame_interval_ms(self.target_fps)
    }

    /// What the session's callback is started with.
    pub fn flags(&self) -> (flags: CaptureFlags)
        ensures
            flags == (CaptureFlags { jpeg_quality: self.jpeg_quality }),
    {
        CaptureFlags { jpeg_quality: self.jpeg_quality }
    }

    /// How the source at `position` is to be opened.
    pub fn open_request(&self, position: usize) -> (request: OpenRequest)
        ensures
            request == open_request_of(*self, position),
    {
        OpenRequest {
            kind: self.kind,
            position,
            include_cursor: true,
            draw_border: false,
            secondary_windows: SecondaryWindows::Default,
            min_update_interval_ms: self.frame_interval_ms(),
            pixel_format: PixelFormat::Rgba8,
            flags: self.flags(),
        }
    }
}

/// Ends a start with what the capture driver answered: the handle of the
/// session it opened, or its words on why it could not. A failure leaves the
/// registry as it was.
pub fn complete_start<H>(registry: &mut SessionRegistry<H>, opened: Result<H, String>) -> (outcome:
    StartOutcome<H>)
    ensures
        match opened {
            Ok(handle) => final(registry)@ == active(handle) && final(registry)@ == registry_after(
                old(registry)@,
                CaptureEvent::Opened { handle },
            ) && outcome.displaced == old(registry)@.session && outcome.result is Ok,
            Err(text) => final(registry)@ == old(registry)@ && outcome.displaced is None
                && outcome.result == Err::<(), CaptureError>(CaptureError::OpenFailed(text)),
        },
{
    match opened {
        Ok(handle) => {
            let displaced = registry.install(handle);
            StartOutcome { displaced, result: Ok(()) }
        },
        Err(text) => StartOutcome { displaced: None, result: Err(CaptureError::OpenFailed(text)) },
    }
}

/// Stops capturing: the session, if any, is removed and its handle handed
/// out for the caller to halt, and the mailbox is emptied. Without a session
/// only the mailbox is emptied.
pub fn stop_capture<H>(registry: &mut SessionRegistry<H>, mailbox: &mut FrameMailbox) -> (halted:
    Option<H>)
    ensures
        halted == old(registry)@.session,
        final(registry)@ == idle::<H>(),
        final(mailbox)@ is None,
        final(registry)@ == registry_after(old(registry)@, CaptureEvent::Stopped),
        final(mailbox)@ == frame_after(old(mailbox)@, CaptureEvent::<H>::Stopped),
{
    let halted = registry.stop_active();
    mailbox.clear();
    halted
}

/// The latest encoded frame, or no bytes where there is none.
pub fn get_capture_frame(mailbox: &FrameMailbox) -> (bytes: Vec<u8>)
    ensures
        bytes@ == frame_or_empty(mailbox@),
{
    mailbox.read_or_empty()
}

/// Whether a session is delivering frames.
pub fn is_capturing<H>(registry: &SessionRegistry<H>) -> (capturing: bool)
    ensures
        capturing == registry@.capturing,
{
    registry.is_capturing()
}

} // verus!
