//! Push-to-talk: which key a key code names, and when the watched key counts
//! as pressed or released.

use crate::text::str_eq;
use vstd::prelude::*;

verus! {

/// The keys that can serve as the push-to-talk key.
#[derive(Clone, Copy, Debug, PartialEq, Eq, Hash, Structural)]
pub enum PttKey {
    A,
    B,
    C,
    D,
    E,
    F,
    G,
    H,
    I,
    J,
    K,
    L,
    M,
    N,
    O,
    P,
    Q,
    R,
    S,
    T,
    U,
    V,
    W,
    X,
    Y,
    Z,
    Key0,
    Key1,
    Key2,
    Key3,
    Key4,
    Key5,
    Key6,
    Key7,
    Key8,
    Key9,
    F1,
    F2,
    F3,
    F4,
    F5,
    F6,
    F7,
    F8,
    F9,
    F10,
    F11,
    F12,
    Space,
    Tab,
    Enter,
    Escape,
    Backspace,
    CapsLock,
    LShift,
    LControl,
    LAlt,
    Up,
    Down,
    Left,
    Right,
    Grave,
    Minus,
    Equal,
    LeftBracket,
    RightBracket,
    BackSlash,
    Semicolon,
    Apostrophe,
    Comma,
    Dot,
    Slash,
}

/// The key that a `KeyboardEvent.code` string names, if it can serve as the
/// push-to-talk key. The right-hand modifiers count as their left-hand twins.
pub open spec fn key_for_code(code: Seq<char>) -> Option<PttKey> {
    if code == "KeyA"@ {
        Some(PttKey::A)
    } else if code == "KeyB"@ {
        Some(PttKey::B)
    } else if code == "KeyC"@ {
        Some(PttKey::C)
    } else if code == "KeyD"@ {
        Some(PttKey::D)
    } else if code == "KeyE"@ {
        Some(PttKey::E)
    } else if code == "KeyF"@ {
        Some(PttKey::F)
    } else if code == "KeyG"@ {
        Some(PttKey::G)
    } else if code == "KeyH"@ {
        Some(PttKey::H)
    } else if code == "KeyI"@ {
        Some(PttKey::I)
    } else if code == "KeyJ"@ {
        Some(PttKey::J)
    } else if code == "KeyK"@ {
        Some(PttKey::K)
    } else if code == "KeyL"@ {
        Some(PttKey::L)
    } else if code == "KeyM"@ {
        Some(PttKey::M)
    } else if code == "KeyN"@ {
        Some(PttKey::N)
    } else if code == "KeyO"@ {
        Some(PttKey::O)
    } else if code == "KeyP"@ {
        Some(PttKey::P)
    } else if code == "KeyQ"@ {
        Some(PttKey::Q)
    } else if code == "KeyR"@ {
        Some(PttKey::R)
    } else if code == "KeyS"@ {
        Some(PttKey::S)
    } else if code == "KeyT"@ {
        Some(PttKey::T)
    } else if code == "KeyU"@ {
        Some(PttKey::U)
    } else if code == "KeyV"@ {
        Some(PttKey::V)
    } else if code == "KeyW"@ {
        Some(PttKey::W)
    } else if code == "KeyX"@ {
        Some(PttKey::X)
    } else if code == "KeyY"@ {
        Some(PttKey::Y)
    } else if code == "KeyZ"@ {
        Some(PttKey::Z)
    } else if code == "Digit0"@ {
        Some(PttKey::Key0)
    } else if code == "Digit1"@ {
        Some(PttKey::Key1)
    } else if code == "Digit2"@ {
        Some(PttKey::Key2)
    } else if code == "Digit3"@ {
        Some(PttKey::Key3)
    } else if code == "Digit4"@ {
        Some(PttKey::Key4)
    } else if code == "Digit5"@ {
        Some(PttKey::Key5)
    } else if code == "Digit6"@ {
        Some(PttKey::Key6)
    } else if code == "Digit7"@ {
        Some(PttKey::Key7)
    } else if code == "Digit8"@ {
        Some(PttKey::Key8)
    } else if code == "Digit9"@ {
        Some(PttKey::Key9)
    } else if code == "F1"@ {
        Some(PttKey::F1)
    } else if code == "F2"@ {
        Some(PttKey::F2)
    } else if code == "F3"@ {
        Some(PttKey::F3)
    } else if code == "F4"@ {
        Some(PttKey::F4)
    } else if code == "F5"@ {
        Some(PttKey::F5)
    } else if code == "F6"@ {
        Some(PttKey::F6)
    } else if code == "F7"@ {
        Some(PttKey::F7)
    } else if code == "F8"@ {
        Some(PttKey::F8)
    } else if code == "F9"@ {
        Some(PttKey::F9)
    } else if code == "F10"@ {
        Some(PttKey::F10)
    } else if code == "F11"@ {
        Some(PttKey::F11)
    } else if code == "F12"@ {
        Some(PttKey::F12)
    } else if code == "Space"@ {
        Some(PttKey::Space)
    } else if code == "Tab"@ {
        Some(PttKey::Tab)
    } else if code == "Enter"@ {
        Some(PttKey::Enter)
    } else if code == "Escape"@ {
        Some(PttKey::Escape)
    } else if code == "Backspace"@ {
        Some(PttKey::Backspace)
    } else if code == "CapsLock"@ {
        Some(PttKey::CapsLock)
    } else if code == "ShiftLeft"@ {
        Some(PttKey::LShift)
    } else if code == "ShiftRight"@ {
        Some(PttKey::LShift)
    } else if code == "ControlLeft"@ {
        Some(PttKey::LControl)
    } else if code == "ControlRight"@ {
        Some(PttKey::LControl)
    } else if code == "AltLeft"@ {
        Some(PttKey::LAlt)
    } else if code == "AltRight"@ {
        Some(PttKey::LAlt)
    } else if code == "ArrowUp"@ {
        Some(PttKey::Up)
    } else if code == "ArrowDown"@ {
        Some(PttKey::Down)
    } else if code == "ArrowLeft"@ {
        Some(PttKey::Left)
    } else if code == "ArrowRight"@ {
        Some(PttKey::Right)
    } else if code == "Backquote"@ {
        Some(PttKey::Grave)
    } else if code == "Minus"@ {
        Some(PttKey::Minus)
    } else if code == "Equal"@ {
        Some(PttKey::Equal)
    } else if code == "BracketLeft"@ {
        Some(PttKey::LeftBracket)
    } else if code == "BracketRight"@ {
        Some(PttKey::RightBracket)
    } else if code == "Backslash"@ {
        Some(PttKey::BackSlash)
    } else if code == "Semicolon"@ {
        Some(PttKey::Semicolon)
    } else if code == "Quote"@ {
        Some(PttKey::Apostrophe)
    } else if code == "Comma"@ {
        Some(PttKey::Comma)
    } else if code == "Period"@ {
        Some(PttKey::Dot)
    } else if code == "Slash"@ {
        Some(PttKey::Slash)
    } else {
        None
    }
}

/// Maps a `KeyboardEvent.code` string to the key it names.
pub fn map_js_key(code: &str) -> (key: Option<PttKey>)
    ensures
        key == key_for_code(code@),
{
    if str_eq(code, "KeyA") {
        Some(PttKey::A)
    } else if str_eq(code, "KeyB") {
        Some(PttKey::B)
    } else if str_eq(code, "KeyC") {
        Some(PttKey::C)
    } else if str_eq(code, "KeyD") {
        Some(PttKey::D)
    } else if str_eq(code, "KeyE") {
        Some(PttKey::E)
    } else if str_eq(code, "KeyF") {
        Some(PttKey::F)
    } else if str_eq(code, "KeyG") {
        Some(PttKey::G)
    } else if str_eq(code, "KeyH") {
        Some(PttKey::H)
    } else if str_eq(code, "KeyI") {
        Some(PttKey::I)
    } else if str_eq(code, "KeyJ") {
        Some(PttKey::J)
    } else if str_eq(code, "KeyK") {
        Some(PttKey::K)
    } else if str_eq(code, "KeyL") {
        Some(PttKey::L)
    } else if str_eq(code, "KeyM") {
        Some(PttKey::M)
    } else if str_eq(code, "KeyN") {
        Some(PttKey::N)
    } else if str_eq(code, "KeyO") {
        Some(PttKey::O)
    } else if str_eq(code, "KeyP") {
        Some(PttKey::P)
    } else if str_eq(code, "KeyQ") {
        Some(PttKey::Q)
    } else if str_eq(code, "KeyR") {
        Some(PttKey::R)
    } else if str_eq(code, "KeyS") {
        Some(PttKey::S)
    } else if str_eq(code, "KeyT") {
        Some(PttKey::T)
    } else if str_eq(code, "KeyU") {
        Some(PttKey::U)
    } else if str_eq(code, "KeyV") {
        Some(PttKey::V)
    } else if str_eq(code, "KeyW") {
        Some(PttKey::W)
    } else if str_eq(code, "KeyX") {
        Some(PttKey::X)
    } else if str_eq(code, "KeyY") {
        Some(PttKey::Y)
    } else if str_eq(code, "KeyZ") {
        Some(PttKey::Z)
    } else if str_eq(code, "Digit0") {
        Some(PttKey::Key0)
    } else if str_eq(code, "Digit1") {
        Some(PttKey::Key1)
    } else if str_eq(code, "Digit2") {
        Some(PttKey::Key2)
    } else if str_eq(code, "Digit3") {
        Some(PttKey::Key3)
    } else if str_eq(code, "Digit4") {
        Some(PttKey::Key4)
    } else if str_eq(code, "Digit5") {
        Some(PttKey::Key5)
    } else if str_eq(code, "Digit6") {
        Some(PttKey::Key6)
    } else if str_eq(code, "Digit7") {
        Some(PttKey::Key7)
    } else if str_eq(code, "Digit8") {
        Some(PttKey::Key8)
    } else if str_eq(code, "Digit9") {
        Some(PttKey::Key9)
    } else if str_eq(code, "F1") {
        Some(PttKey::F1)
    } else if str_eq(code, "F2") {
        Some(PttKey::F2)
    } else if str_eq(code, "F3") {
        Some(PttKey::F3)
    } else if str_eq(code, "F4") {
        Some(PttKey::F4)
    } else if str_eq(code, "F5") {
        Some(PttKey::F5)
    } else if str_eq(code, "F6") {
        Some(PttKey::F6)
    } else if str_eq(code, "F7") {
        Some(PttKey::F7)
    } else if str_eq(code, "F8") {
        Some(PttKey::F8)
    } else if str_eq(code, "F9") {
        Some(PttKey::F9)
    } else if str_eq(code, "F10") {
        Some(PttKey::F10)
    } else if str_eq(code, "F11") {
        Some(PttKey::F11)
    } else if str_eq(code, "F12") {
        Some(PttKey::F12)
    } else if str_eq(code, "Space") {
        Some(PttKey::Space)
    } else if str_eq(code, "Tab") {
        Some(PttKey::Tab)
    } else if str_eq(code, "Enter") {
        Some(PttKey::Enter)
    } else if str_eq(code, "Escape") {
        Some(PttKey::Escape)
    } else if str_eq(code, "Backspace") {
        Some(PttKey::Backspace)
    } else if str_eq(code, "CapsLock") {
        Some(PttKey::CapsLock)
    } else if str_eq(code, "ShiftLeft") {
        Some(PttKey::LShift)
    } else if str_eq(code, "ShiftRight") {
        Some(PttKey::LShift)
    } else if str_eq(code, "ControlLeft") {
        Some(PttKey::LControl)
    } else if str_eq(code, "ControlRight") {
        Some(PttKey::LControl)
    } else if str_eq(code, "AltLeft") {
        Some(PttKey::LAlt)
    } else if str_eq(code, "AltRight") {
        Some(PttKey::LAlt)
    } else if str_eq(code, "ArrowUp") {
        Some(PttKey::Up)
    } else if str_eq(code, "ArrowDown") {
        Some(PttKey::Down)
    } else if str_eq(code, "ArrowLeft") {
        Some(PttKey::Left)
    } else if str_eq(code, "ArrowRight") {
        Some(PttKey::Right)
    } else if str_eq(code, "Backquote") {
        Some(PttKey::Grave)
    } else if str_eq(code, "Minus") {
        Some(PttKey::Minus)
    } else if str_eq(code, "Equal") {
        Some(PttKey::Equal)
    } else if str_eq(code, "BracketLeft") {
        Some(PttKey::LeftBracket)
    } else if str_eq(code, "BracketRight") {
        Some(PttKey::RightBracket)
    } else if str_eq(code, "Backslash") {
        Some(PttKey::BackSlash)
    } else if str_eq(code, "Semicolon") {
        Some(PttKey::Semicolon)
    } else if str_eq(code, "Quote") {
        Some(PttKey::Apostrophe)
    } else if str_eq(code, "Comma") {
        Some(PttKey::Comma)
    } else if str_eq(code, "Period") {
        Some(PttKey::Dot)
    } else if str_eq(code, "Slash") {
        Some(PttKey::Slash)
    } else {
        None
    }
}

/// The key that is watched where none was chosen.
pub open spec fn default_key() -> PttKey {
    PttKey::V
}

/// The push-to-talk listener as the control side sees it.
pub struct PttListener {
    running: bool,
    target: Option<PttKey>,
}

pub struct PttListenerView {
    /// Whether a listener is meant to run.
    pub running: bool,
    /// The key that was chosen last.
    pub target: Option<PttKey>,
}

impl View for PttListener {
    type V = PttListenerView;

    closed spec fn view(&self) -> PttListenerView {
        PttListenerView { running: self.running, target: self.target }
    }
}

/// What the listener tells the front end.
#[derive(Clone, Copy, Debug, PartialEq, Eq, Structural)]
pub enum PttEvent {
    Press,
    Release,
}

/// The listener after a start with the given key code: a code that names a
/// key makes that key the target and the listener run; any other code
/// leaves the listener stopped and the target as it was.
pub open spec fn after_start(before: PttListenerView, code: Seq<char>) -> PttListenerView {
    match key_for_code(code) {
        Some(key) => PttListenerView { running: true, target: Some(key) },
        None => PttListenerView { running: false, target: before.target },
    }
}

/// What a change of the watched key's state means: a press when it goes
/// down, a release when it comes up, nothing while it stays.
pub open spec fn edge(was_pressed: bool, is_pressed: bool) -> Option<PttEvent> {
    if is_pressed && !was_pressed {
        Some(PttEvent::Press)
    } else if !is_pressed && was_pressed {
        Some(PttEvent::Release)
    } else {
        None
    }
}

impl PttListener {
    /// A listener that does not run and has no target.
    pub fn new() -> (listener: Self)
        ensures
            listener@ == (PttListenerView { running: false, target: None }),
    {
        PttListener { running: false, target: None }
    }

    /// Whether a listener is meant to run.
    pub fn is_running(&self) -> (running: bool)
        ensures
            running == self@.running,
    {
        self.running
    }

    /// The key to watch: the target, or `V` where none was chosen.
    pub fn watched_key(&self) -> (key: PttKey)
        ensures
            key == match self@.target {
                Some(target) => target,
                None => default_key(),
            },
    {
        match self.target {
            Some(target) => target,
            None => PttKey::V,
        }
    }
}

/// Starts listening for the key that `key_code` names. Any listener that
/// runs is told to stop first. Returns the key, or `None` where the code
/// names none; then no listener runs.
pub fn start_ptt_listener(listener: &mut PttListener, key_code: String) -> (key: Option<PttKey>)
    ensures
        key == key_for_code(key_code@),
        final(listener)@ == after_start(old(listener)@, key_code@),
{
    listener.running = false;
    match map_js_key(key_code.as_str()) {
        Some(target) => {
            listener.target = Some(target);
            listener.running = true;
            Some(target)
        },
        None => None,
    }
}

/// Tells the listener to stop.
pub fn stop_ptt_listener(listener: &mut PttListener)
    ensures
        final(listener)@ == (PttListenerView { running: false, target: old(listener)@.target }),
{
    listener.running = false;
}

/// The polling side of the listener: remembers whether the watched key was
/// down at the last poll.
pub struct PttPoller {
    was_pressed: bool,
}

impl View for PttPoller {
    type V = bool;

    closed spec fn view(&self) -> bool {
        self.was_pressed
    }
}

impl PttPoller {
    /// A poller that has seen the key up.
    pub fn new() -> (poller: Self)
        ensures
            poller@ == false,
    {
        PttPoller { was_pressed: false }
    }

    /// Takes the state of the watched key at this poll and says what to tell
    /// the front end.
    pub fn poll(&mut self, is_pressed: bool) -> (event: Option<PttEvent>)
        ensures
            event == edge(old(self)@, is_pressed),
            final(self)@ == is_pressed,
    {
        let event = if is_pressed && !self.was_pressed {
            Some(PttEvent::Press)
        } else if !is_pressed && self.was_pressed {
            Some(PttEvent::Release)
        } else {
            None
        };
        self.was_pressed = is_pressed;
        event
    }
}

/// The state of the watched key after a sequence of polls.
pub open spec fn pressed_after(start: bool, polls: Seq<bool>) -> bool {
    if polls.len() == 0 {
        start
    } else {
        polls.last()
    }
}

/// The events that a sequence of polls gives rise to, in order.
pub open spec fn events_of(start: bool, polls: Seq<bool>) -> Seq<PttEvent>
    decreases polls.len(),
{
    if polls.len() == 0 {
        Seq::empty()
    } else {
        let earlier = events_of(start, polls.drop_last());
        match edge(pressed_after(start, polls.drop_last()), polls.last()) {
            Some(event) => earlier.push(event),
            None => earlier,
        }
    }
}

/// Presses and releases alternate: whatever is polled, starting with the
/// key up, every event at an even place is a press, every other a release,
/// and a press is outstanding exactly while the key is down.
pub proof fn law_presses_and_releases_alternate(polls: Seq<bool>)
    ensures
        forall|i: int|
            0 <= i < events_of(false, polls).len() ==> #[trigger] events_of(false, polls)[i] == (if i
                % 2 == 0 {
                PttEvent::Press
            } else {
                PttEvent::Release
            }),
        pressed_after(false, polls) == (events_of(false, polls).len() % 2 == 1),
    decreases polls.len(),
{
    if polls.len() > 0 {
        law_presses_and_releases_alternate(polls.drop_last());
    }
}

} // verus!
