//! The capture session as a state machine over the registry and the
//! mailbox, and what holds of every run of it.
//!
//! The events are what the boundary and the capture callbacks do. A start
//! is a `Stopped` (its first step always stops what runs) followed, where
//! the source could be opened, by an `Opened`; a stop is a `Stopped`; every
//! frame that the callback sees is a `Frame`; the end of the source is a
//! `Closed`.

use crate::capture::{active, idle, registry_valid, source_gone, RegistryView};
use crate::handler::delivered;
use crate::mailbox::frame_or_empty;
use vstd::prelude::*;

verus! {

/// The registry and the mailbox together.
pub struct CaptureView<H> {
    pub registry: RegistryView<H>,
    pub frame: Option<Seq<u8>>,
}

pub enum CaptureEvent<H> {
    /// The session, if any, was removed and the mailbox emptied: by a stop,
    /// or by the first step of a start.
    Stopped,
    /// The capture driver opened a source; `handle` halts that session.
    Opened { handle: H },
    /// The callback saw a frame. `image` is its encoding, or `None` where the
    /// frame was dropped.
    Frame { image: Option<Seq<u8>> },
    /// The source of the session went away.
    Closed,
}

/// The state before anything has happened.
pub open spec fn fresh<H>() -> CaptureView<H> {
    CaptureView { registry: idle(), frame: None }
}

/// The registry after one event.
pub open spec fn registry_after<H>(before: RegistryView<H>, event: CaptureEvent<H>) -> RegistryView<
    H,
> {
    match event {
        CaptureEvent::Stopped => idle(),
        CaptureEvent::Opened { handle } => active(handle),
        CaptureEvent::Frame { image } => before,
        CaptureEvent::Closed => source_gone(before),
    }
}

/// The mailbox after one event.
pub open spec fn frame_after<H>(before: Option<Seq<u8>>, event: CaptureEvent<H>) -> Option<Seq<u8>> {
    match event {
        CaptureEvent::Stopped => None,
        CaptureEvent::Opened { handle } => before,
        CaptureEvent::Frame { image } => delivered(before, image),
        CaptureEvent::Closed => before,
    }
}

/// The state after one event.
pub open spec fn step<H>(state: CaptureView<H>, event: CaptureEvent<H>) -> CaptureView<H> {
    CaptureView {
        registry: registry_after(state.registry, event),
        frame: frame_after(state.frame, event),
    }
}

/// The state after a sequence of events.
pub open spec fn run<H>(state: CaptureView<H>, events: Seq<CaptureEvent<H>>) -> CaptureView<H>
    decreases events.len(),
{
    if events.len() == 0 {
        state
    } else {
        step(run(state, events.drop_last()), events.last())
    }
}

/// Whether the event is a frame whose image was published.
pub open spec fn publishes<H>(event: CaptureEvent<H>) -> bool {
    event matches CaptureEvent::Frame { image } && image is Some
}

/// Whether the event leaves the mailbox as it is: a dropped frame, or the
/// end of the source.
pub open spec fn keeps_frame<H>(event: CaptureEvent<H>) -> bool {
    event is Closed || (event matches CaptureEvent::Frame { image } && image is None)
}

/// A start followed at once by a stop leaves nothing captured and no frame
/// to read, whether or not the source could be opened and whatever went
/// before.
pub proof fn law_stop_after_start<H>(state: CaptureView<H>, handle: H)
    ensures
        step(
            step(step(state, CaptureEvent::Stopped), CaptureEvent::Opened { handle }),
            CaptureEvent::Stopped,
        ) == fresh::<H>(),
        step(step(state, CaptureEvent::Stopped), CaptureEvent::Stopped) == fresh::<H>(),
        !fresh::<H>().registry.capturing,
        frame_or_empty(fresh::<H>().frame).len() == 0,
{
}

/// Two starts in succession leave exactly the second session installed: the
/// first one's handle was handed out when the second start began, and is
/// no longer held.
pub proof fn law_restart_replaces_session<H>(state: CaptureView<H>, first: H, second: H)
    ensures
        step(step(state, CaptureEvent::Stopped), CaptureEvent::Opened { handle: first }).registry
            == active(first),
        registry_after(active(first), CaptureEvent::Stopped) == idle::<H>(),
        step(
            step(
                step(
                    step(state, CaptureEvent::Stopped),
                    CaptureEvent::Opened { handle: first },
                ),
                CaptureEvent::Stopped,
            ),
            CaptureEvent::Opened { handle: second },
        ).registry == active(second),
{
}

/// Whatever happens, capturing is reported only while a session is
/// installed, and the registry never holds more than that one session.
pub proof fn law_capturing_needs_session<H>(events: Seq<CaptureEvent<H>>)
    ensures
        registry_valid(run(fresh(), events).registry),
    decreases events.len(),
{
    if events.len() > 0 {
        law_capturing_needs_session(events.drop_last());
    }
}

/// As long as no frame has been encoded since the beginning, a read finds
/// no bytes.
pub proof fn law_no_image_no_frame<H>(events: Seq<CaptureEvent<H>>)
    requires
        forall|i: int| 0 <= i < events.len() ==> !publishes(#[trigger] events[i]),
    ensures
        run(fresh(), events).frame is None,
        frame_or_empty(run(fresh(), events).frame).len() == 0,
    decreases events.len(),
{
    if events.len() > 0 {
        let earlier = events.drop_last();
        assert forall|i: int| 0 <= i < earlier.len() implies !publishes(#[trigger] earlier[i]) by {
            assert(earlier[i] == events[i]);
        }
        law_no_image_no_frame(earlier);
        assert(!publishes(events[events.len() - 1]));
    }
}

/// A start whose source cannot be found or opened ends after its first
/// step. It leaves nothing captured; where nothing was captured before,
/// the answer of `is_capturing` is therefore the same as before.
pub proof fn law_failed_start_is_idle<H>(state: CaptureView<H>)
    ensures
        !step(state, CaptureEvent::Stopped).registry.capturing,
        !state.registry.capturing ==> step(state, CaptureEvent::Stopped).registry.capturing
            == state.registry.capturing,
{
}

/// A dropped frame changes nothing and does not keep a later frame from
/// being published.
pub proof fn law_dropped_frame_does_not_block<H>(state: CaptureView<H>, image: Seq<u8>)
    ensures
        step(state, CaptureEvent::Frame { image: None }) == state,
        step(
            step(state, CaptureEvent::Frame { image: None }),
            CaptureEvent::Frame { image: Some(image) },
        ).frame == Some(image),
{
}

/// The mailbox holds the latest image: after a frame is published, frames
/// that are dropped and a source that goes away do not change what is read.
pub proof fn law_latest_frame_wins<H>(
    state: CaptureView<H>,
    image: Seq<u8>,
    later: Seq<CaptureEvent<H>>,
)
    requires
        forall|i: int| 0 <= i < later.len() ==> keeps_frame(#[trigger] later[i]),
    ensures
        run(step(state, CaptureEvent::Frame { image: Some(image) }), later).frame == Some(image),
    decreases later.len(),
{
    if later.len() > 0 {
        let earlier = later.drop_last();
        assert forall|i: int| 0 <= i < earlier.len() implies keeps_frame(#[trigger] earlier[i]) by {
            assert(earlier[i] == later[i]);
        }
        law_latest_frame_wins(state, image, earlier);
        assert(keeps_frame(later[later.len() - 1]));
    }
}

/// Of two frames published one after the other, the second is read.
pub proof fn law_later_frame_replaces_earlier<H>(
    state: CaptureView<H>,
    first: Seq<u8>,
    second: Seq<u8>,
)
    ensures
        step(
            step(state, CaptureEvent::Frame { image: Some(first) }),
            CaptureEvent::Frame { image: Some(second) },
        ).frame == Some(second),
{
}

/// A stop without a session changes nothing that can be observed, and a
/// second stop changes nothing after the first.
pub proof fn law_stop_is_idempotent<H>(state: CaptureView<H>)
    ensures
        step(fresh::<H>(), CaptureEvent::Stopped) == fresh::<H>(),
        step(step(state, CaptureEvent::Stopped), CaptureEvent::Stopped) == step(
            state,
            CaptureEvent::Stopped,
        ),
{
}

/// Once the source of a session has gone away, nothing is captured until
/// the next start. A stop and the end of the source may come in either
/// order: after both, the state is the same.
pub proof fn law_closed_session_is_not_capturing<H>(state: CaptureView<H>)
    ensures
        !step(state, CaptureEvent::Closed).registry.capturing,
        step(step(state, CaptureEvent::Closed), CaptureEvent::Closed) == step(
            state,
            CaptureEvent::Closed,
        ),
        step(step(state, CaptureEvent::Closed), CaptureEvent::Stopped) == fresh::<H>(),
        step(step(state, CaptureEvent::Stopped), CaptureEvent::Closed) == fresh::<H>(),
{
}

} // verus!
